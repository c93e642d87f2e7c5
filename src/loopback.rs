//! The loopback variant of redirect capture: from the request line that the
//! browser sends to the listener, the full redirect URL.
use vstd::prelude::*;
use crate::redirect::opt_view;
use crate::text::{chars_of, decimal, decimal_chars, is_whitespace, is_ws, string_from_chars};

verus! {

/// What the listener answers once it has read the request line.
pub const CONFIRMATION_RESPONSE: &'static str = "HTTP/1.1 200 OK\r\nContent-Type: text/html; charset=utf-8\r\nConnection: close\r\n\r\n<!DOCTYPE html><html><head><title>Signed in</title></head><body><h2>Sign-in complete</h2><p>You can close this window and return to the app.</p></body></html>";

/// How long the listener waits for the request line, in seconds.
pub const READ_TIMEOUT_SECS: u64 = 30;

/// The first index at or after `i` that does not hold whitespace.
pub open spec fn skip_ws(s: Seq<char>, i: int) -> int
    decreases s.len() - i,
{
    if i < 0 || i >= s.len() || !is_ws(s[i]) {
        i
    } else {
        skip_ws(s, i + 1)
    }
}

/// The first index at or after `i` that holds whitespace, or the end.
pub open spec fn skip_token(s: Seq<char>, i: int) -> int
    decreases s.len() - i,
{
    if i < 0 || i >= s.len() || is_ws(s[i]) {
        i
    } else {
        skip_token(s, i + 1)
    }
}

/// The second whitespace-separated token of `line`, if it has two.
pub open spec fn second_token(line: Seq<char>) -> Option<Seq<char>> {
    let a = skip_ws(line, 0);
    let c = skip_ws(line, skip_token(line, a));
    if a < line.len() && c < line.len() {
        Some(line.subrange(c, skip_token(line, c)))
    } else {
        None
    }
}

/// The redirect URL that a request line on `port` stands for: the request
/// target appended to `http://localhost:<port>`.
pub open spec fn redirect_url_spec(port: u16, line: Seq<char>) -> Option<Seq<char>> {
    match second_token(line) {
        Some(t) => Some("http://localhost:"@ + decimal(port as nat) + t),
        None => None,
    }
}

fn skip_ws_at(s: &Vec<char>, i: usize) -> (r: usize)
    requires
        i <= s@.len(),
    ensures
        r as int == skip_ws(s@, i as int),
        i <= r <= s@.len(),
{
    let mut j = i;
    while j < s.len() && is_whitespace(s[j])
        invariant
            i <= j <= s@.len(),
            skip_ws(s@, j as int) == skip_ws(s@, i as int),
        decreases s@.len() - j,
    {
        j += 1;
    }
    j
}

fn skip_token_at(s: &Vec<char>, i: usize) -> (r: usize)
    requires
        i <= s@.len(),
    ensures
        r as int == skip_token(s@, i as int),
        i <= r <= s@.len(),
{
    let mut j = i;
    while j < s.len() && !is_whitespace(s[j])
        invariant
            i <= j <= s@.len(),
            skip_token(s@, j as int) == skip_token(s@, i as int),
        decreases s@.len() - j,
    {
        j += 1;
    }
    j
}

/// Appends `src[from..to]` to `dst`.
fn push_range(dst: &mut Vec<char>, src: &Vec<char>, from: usize, to: usize)
    requires
        from <= to <= src@.len(),
    ensures
        final(dst)@ == old(dst)@ + src@.subrange(from as int, to as int),
{
    let mut k = from;
    while k < to
        invariant
            from <= k <= to,
            to <= src@.len(),
            dst@ == old(dst)@ + src@.subrange(from as int, k as int),
        decreases to - k,
    {
        dst.push(src[k]);
        k += 1;
        assert(src@.subrange(from as int, k as int) =~= src@.subrange(from as int, k - 1).push(
            src@[k - 1],
        ));
    }
}

/// The full redirect URL for the request line read on `port`; `None` when
/// the line has fewer than two whitespace-separated tokens.
pub fn redirect_url_from_request_line(port: u16, line: &str) -> (r: Option<String>)
    ensures
        opt_view(r) == redirect_url_spec(port, line@),
{
    let s = chars_of(line);
    let a = skip_ws_at(&s, 0);
    let b = skip_token_at(&s, a);
    let c = skip_ws_at(&s, b);
    if a >= s.len() || c >= s.len() {
        return None;
    }
    let d = skip_token_at(&s, c);
    let mut url = chars_of("http://localhost:");
    let digits = decimal_chars(port);
    push_range(&mut url, &digits, 0, digits.len());
    push_range(&mut url, &s, c, d);
    assert(digits@.subrange(0, digits@.len() as int) =~= digits@);
    Some(string_from_chars(&url))
}

} // verus!
