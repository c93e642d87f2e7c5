//! The authorization session: the guard that lets exactly one terminal event
//! through, and the registry of the single authorization window.
use vstd::prelude::*;
use crate::text::{chars_of, string_from_chars};
use crate::redirect::{
    callback_from_url, callback_of, parse_url, payload_view, url_host, url_parses, url_path,
    CallbackPayload,
};

verus! {

/// The completion flag of one session. Its one operation tests and sets it in
/// a single step, so that a navigation and the window's destruction cannot both
/// see it unset.
pub struct SessionGuard {
    handled: bool,
}

impl SessionGuard {
    pub closed spec fn is_handled(&self) -> bool {
        self.handled
    }

    pub fn new() -> (r: SessionGuard)
        ensures
            !r.is_handled(),
    {
        SessionGuard { handled: false }
    }

    /// Whether a terminal event has been let through.
    pub fn handled(&self) -> (r: bool)
        ensures
            r == self.is_handled(),
    {
        self.handled
    }

    /// Sets the flag; true only for the first caller.
    pub fn try_complete(&mut self) -> (won: bool)
        ensures
            won == !old(self).is_handled(),
            final(self).is_handled(),
    {
        let won = !self.handled;
        self.handled = true;
        won
    }
}

/// What the window does with one navigation attempt.
pub struct NavigationDecision {
    /// Whether the navigation may proceed.
    pub allow: bool,
    /// The `oauth-callback` event to emit, if this navigation completes the flow.
    pub callback: Option<CallbackPayload>,
    /// Whether the authorization window is to be closed.
    pub close_window: bool,
}

/// What `open` did.
#[derive(Clone, Copy, Debug, PartialEq, Eq, Structural)]
pub enum OpenOutcome {
    /// A new window and session were created; the window is to load the
    /// neutral page and then navigate to the authorization URL.
    Created,
    /// A window was already open; it is to be focused, and no session started.
    Focused,
}

/// Why `open` failed.
#[derive(Debug)]
pub enum OpenError {
    /// The authorization URL did not parse.
    InvalidUrl(url::ParseError),
}

/// The abstract state of the registry: `None` when no authorization window is
/// open, else whether its session has been handled.
pub type WindowState = Option<bool>;

/// `open`: the new state and whether a window was created (`Some(true)`),
/// focused (`Some(false)`), or the URL refused (`None`).
pub open spec fn open_spec(w: WindowState, url: Seq<char>) -> (WindowState, Option<bool>) {
    match w {
        Some(h) => (Some(h), Some(false)),
        None => if url_parses(url) {
            (Some(false), Some(true))
        } else {
            (None, None)
        },
    }
}

/// One navigation attempt inside the authorization window: the new state,
/// whether it is allowed, and the callback emitted.
pub open spec fn navigate_spec(w: WindowState, url: Seq<char>) -> (
    WindowState,
    bool,
    Option<(Seq<char>, Seq<char>)>,
) {
    match w {
        None => (None, true, None),
        Some(true) => (Some(true), false, None),
        Some(false) => match callback_of(url) {
            Some(p) => (Some(true), true, Some(p)),
            None => (Some(false), true, None),
        },
    }
}

/// The window's destruction: the new state and whether `oauth-cancelled` is
/// emitted.
pub open spec fn destroy_spec(w: WindowState) -> (WindowState, bool) {
    (None, w == Some(false))
}

/// The registry of the authorization window, keyed by its one label.
pub struct AuthWindows {
    session: Option<SessionGuard>,
}

impl AuthWindows {
    pub closed spec fn view(&self) -> WindowState {
        match self.session {
            Some(g) => Some(g.is_handled()),
            None => None,
        }
    }

    pub fn new() -> (r: AuthWindows)
        ensures
            r@ == None::<bool>,
    {
        AuthWindows { session: None }
    }

    /// Whether an authorization window is open.
    pub fn is_open(&self) -> (r: bool)
        ensures
            r == (self@ is Some),
    {
        self.session.is_some()
    }

    /// Opens the authorization window for `authorize_url`, or focuses the one
    /// that is open. Fails only on a URL that does not parse.
    pub fn open(&mut self, authorize_url: &str) -> (r: Result<OpenOutcome, OpenError>)
        ensures
            final(self)@ == open_spec(old(self)@, authorize_url@).0,
            r is Ok == (open_spec(old(self)@, authorize_url@).1 is Some),
            r == Ok::<OpenOutcome, OpenError>(OpenOutcome::Created) <==> open_spec(
                old(self)@,
                authorize_url@,
            ).1 == Some(true),
            r == Ok::<OpenOutcome, OpenError>(OpenOutcome::Focused) <==> open_spec(
                old(self)@,
                authorize_url@,
            ).1 == Some(false),
    {
        if self.session.is_some() {
            return Ok(OpenOutcome::Focused);
        }
        match parse_url(authorize_url) {
            Ok(_) => {
                self.session = Some(SessionGuard::new());
                Ok(OpenOutcome::Created)
            },
            Err(e) => Err(OpenError::InvalidUrl(e)),
        }
    }

    /// Decides one navigation attempt inside the authorization window.
    pub fn navigate(&mut self, target: &str) -> (r: NavigationDecision)
        ensures
            final(self)@ == navigate_spec(old(self)@, target@).0,
            r.allow == navigate_spec(old(self)@, target@).1,
            payload_view(r.callback) == navigate_spec(old(self)@, target@).2,
            r.close_window == (r.callback is Some),
    {
        match &mut self.session {
            None => NavigationDecision { allow: true, callback: None, close_window: false },
            Some(guard) => {
                if guard.handled() {
                    return NavigationDecision { allow: false, callback: None, close_window: false };
                }
                match callback_from_url(target) {
                    Some(p) => {
                        if guard.try_complete() {
                            NavigationDecision { allow: true, callback: Some(p), close_window: true }
                        } else {
                            NavigationDecision { allow: true, callback: None, close_window: false }
                        }
                    },
                    None => NavigationDecision { allow: true, callback: None, close_window: false },
                }
            },
        }
    }

    /// The authorization window was destroyed. Returns whether
    /// `oauth-cancelled` is to be emitted.
    pub fn window_destroyed(&mut self) -> (cancelled: bool)
        ensures
            final(self)@ == destroy_spec(old(self)@).0,
            cancelled == destroy_spec(old(self)@).1,
    {
        let cancelled = match &mut self.session {
            Some(guard) => guard.try_complete(),
            None => false,
        };
        self.session = None;
        cancelled
    }
}

/// The label of the authorization window.
pub const AUTH_WINDOW_LABEL: &'static str = "oauth";

/// The neutral local page that a new authorization window shows first.
pub const LOADING_PAGE: &'static str = "/oauth-loading.html";

/// `s` as the body of a single-quoted script string: each backslash and each
/// single quote gets a backslash before it.
pub open spec fn js_escape(s: Seq<char>) -> Seq<char>
    decreases s.len(),
{
    if s.len() == 0 {
        Seq::empty()
    } else {
        let c = s.last();
        js_escape(s.drop_last()) + if c == '\\' || c == '\'' {
            seq!['\\', c]
        } else {
            seq![c]
        }
    }
}

/// The script that moves the window from the loading page to `url`.
pub open spec fn navigation_script_spec(url: Seq<char>) -> Seq<char> {
    "window.location.href='"@ + js_escape(url) + "';"@
}

/// The script that the new window runs, once its loading page is ready, to go
/// to the authorization URL.
pub fn navigation_script(authorize_url: &str) -> (r: String)
    ensures
        r@ == navigation_script_spec(authorize_url@),
{
    let s = chars_of(authorize_url);
    let mut out = chars_of("window.location.href='");
    let ghost head = out@;
    let mut i: usize = 0;
    while i < s.len()
        invariant
            s@ == authorize_url@,
            i <= s@.len(),
            out@ == head + js_escape(s@.subrange(0, i as int)),
        decreases s.len() - i,
    {
        let c = s[i];
        assert(s@.subrange(0, i + 1).drop_last() =~= s@.subrange(0, i as int));
        if c == '\\' || c == '\'' {
            out.push('\\');
        }
        out.push(c);
        i += 1;
        assert(out@ =~= head + js_escape(s@.subrange(0, i as int)));
    }
    assert(s@.subrange(0, s@.len() as int) =~= s@);
    let tail = chars_of("';");
    let mut j: usize = 0;
    let ghost body = out@;
    while j < tail.len()
        invariant
            j <= tail@.len(),
            out@ == body + tail@.subrange(0, j as int),
        decreases tail.len() - j,
    {
        out.push(tail[j]);
        j += 1;
        assert(tail@.subrange(0, j as int) =~= tail@.subrange(0, j - 1).push(tail@[j - 1]));
    }
    assert(tail@.subrange(0, tail@.len() as int) =~= tail@);
    assert(out@ =~= navigation_script_spec(authorize_url@));
    string_from_chars(&out)
}

/// Navigations in order: the final state and how many callbacks were emitted.
pub open spec fn navigate_all(w: WindowState, urls: Seq<Seq<char>>) -> (WindowState, nat)
    decreases urls.len(),
{
    if urls.len() == 0 {
        (w, 0)
    } else {
        let step = navigate_spec(w, urls[0]);
        let rest = navigate_all(step.0, urls.drop_first());
        (rest.0, rest.1 + if step.2 is Some { 1nat } else { 0nat })
    }
}

/// Once handled, a session lets no navigation through and emits nothing more.
pub proof fn lemma_handled_stays_silent(urls: Seq<Seq<char>>)
    ensures
        navigate_all(Some(true), urls) == (Some(true), 0nat),
    decreases urls.len(),
{
    if urls.len() > 0 {
        lemma_handled_stays_silent(urls.drop_first());
    }
}

/// A navigation to the registered callback that carries both `code` and
/// `state` emits the callback with exactly those values, is allowed and closes
/// the window; no later navigation emits another callback, and the window's
/// destruction emits no cancellation.
pub proof fn lemma_matching_redirect_completes_once(url: Seq<char>, later: Seq<Seq<char>>)
    requires
        callback_of(url) is Some,
    ensures
        navigate_spec(Some(false), url) == (Some(true), true, callback_of(url)),
        navigate_all(Some(true), later) == (Some(true), 0nat),
        navigate_all(Some(false), seq![url] + later) == (Some(true), 1nat),
        !destroy_spec(Some(true)).1,
{
    lemma_handled_stays_silent(later);
    assert((seq![url] + later).drop_first() =~= later);
}

/// A navigation whose host and path are not those of the registered callback
/// emits nothing, is allowed, and leaves the window open and unhandled.
pub proof fn lemma_other_navigation_passes(url: Seq<char>)
    requires
        !(url_parses(url) && url_host(url) == Some("localhost"@) && url_path(url)
            == "/oauth-callback"@),
    ensures
        navigate_spec(Some(false), url) == (Some(false), true, None::<(Seq<char>, Seq<char>)>),
{
}

/// Opening while a window is open keeps the one window and its session, and
/// only focuses it.
pub proof fn lemma_second_open_focuses(handled: bool, url: Seq<char>)
    ensures
        open_spec(Some(handled), url) == (Some(handled), Some(false)),
{
}

/// Navigations that complete nothing, then the window's destruction: no
/// callback, and exactly one cancellation.
pub proof fn lemma_destroy_before_callback_cancels(urls: Seq<Seq<char>>)
    requires
        forall|i: int| 0 <= i < urls.len() ==> #[trigger] callback_of(urls[i]) is None,
    ensures
        navigate_all(Some(false), urls) == (Some(false), 0nat),
        destroy_spec(navigate_all(Some(false), urls).0) == (None::<bool>, true),
    decreases urls.len(),
{
    if urls.len() > 0 {
        assert(callback_of(urls[0]) is None);
        let rest = urls.drop_first();
        assert forall|i: int| 0 <= i < rest.len() implies #[trigger] callback_of(rest[i]) is None by {
            assert(rest[i] == urls[i + 1]);
        }
        lemma_destroy_before_callback_cancels(rest);
    }
}

/// Whatever navigations a fresh session sees before its window is destroyed,
/// it emits exactly one terminal event: one callback or one cancellation.
pub proof fn lemma_exactly_one_terminal_event(urls: Seq<Seq<char>>)
    ensures
        navigate_all(Some(false), urls).1 + (if destroy_spec(navigate_all(Some(false), urls).0).1 {
            1nat
        } else {
            0nat
        }) == 1,
    decreases urls.len(),
{
    if urls.len() > 0 {
        let step = navigate_spec(Some(false), urls[0]);
        if step.2 is Some {
            lemma_handled_stays_silent(urls.drop_first());
        } else {
            lemma_exactly_one_terminal_event(urls.drop_first());
        }
    }
}

} // verus!
