//! The platform transparency effect that a window ended up with.
use vstd::prelude::*;

verus! {

/// Which native effect is active.
#[derive(Clone, Copy, Debug, PartialEq, Eq, Structural)]
pub enum NativeEffect {
    Vibrancy,
    Mica,
    Acrylic,
    /// No effect could be applied.
    NoEffect,
}

} // verus!
