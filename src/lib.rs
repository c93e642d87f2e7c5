//! Native-shell logic of the desktop client: capture of the OAuth redirect
//! (embedded authorization window and loopback listener), the session guard
//! that lets exactly one terminal event through, the token-store paths and
//! the small pieces of window-context logic.

pub mod text;
pub mod redirect;
pub mod session;
pub mod loopback;
pub mod context;
pub mod tokens;
pub mod effect;
