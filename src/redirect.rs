//! Recognition of the provider's redirect to the registered callback, and
//! extraction of its `code` and `state`.
use vstd::prelude::*;
use crate::text::str_eq;

verus! {

#[verifier::external_type_specification]
#[verifier::external_body]
pub struct ExUrl(url::Url);

#[verifier::external_type_specification]
#[verifier::external_body]
pub struct ExUrlParseError(url::ParseError);

/// Whether `url::Url::parse` accepts the text as an absolute URL.
pub uninterp spec fn url_parses(s: Seq<char>) -> bool;

/// What `url::Url::host_str` gives on the URL parsed from the text.
pub uninterp spec fn url_host(s: Seq<char>) -> Option<Seq<char>>;

/// What `url::Url::path` gives on the URL parsed from the text.
pub uninterp spec fn url_path(s: Seq<char>) -> Seq<char>;

/// The decoded pairs, in order, that `url::Url::query_pairs` yields on the
/// URL parsed from the text.
pub uninterp spec fn url_query_pairs(s: Seq<char>) -> Seq<(Seq<char>, Seq<char>)>;

/// A URL that parsed, together with the text it was parsed from.
pub struct ParsedUrl {
    url: url::Url,
    text: Ghost<Seq<char>>,
}

impl ParsedUrl {
    pub closed spec fn source(&self) -> Seq<char> {
        self.text@
    }
}

pub open spec fn opt_view(o: Option<String>) -> Option<Seq<char>> {
    match o {
        Some(s) => Some(s@),
        None => None,
    }
}

pub open spec fn pairs_view(v: Seq<(String, String)>) -> Seq<(Seq<char>, Seq<char>)> {
    v.map_values(|p: (String, String)| (p.0@, p.1@))
}

/// Relies on `url::Url::parse`: it accepts the text or returns its error.
#[verifier::external_body]
pub(crate) fn parse_url(s: &str) -> (r: Result<ParsedUrl, url::ParseError>)
    ensures
        r is Ok == url_parses(s@),
        r matches Ok(u) ==> u.source() == s@,
{
    match url::Url::parse(s) {
        Ok(url) => Ok(ParsedUrl { url, text: Ghost(s@) }),
        Err(e) => Err(e),
    }
}

/// Relies on `url::Url::host_str`: the host of the URL, if it has one.
#[verifier::external_body]
fn host_of(u: &ParsedUrl) -> (r: Option<String>)
    ensures
        opt_view(r) == url_host(u.source()),
{
    u.url.host_str().map(|h| h.to_string())
}

/// Relies on `url::Url::path`: the path of the URL.
#[verifier::external_body]
fn path_of(u: &ParsedUrl) -> (r: String)
    ensures
        r@ == url_path(u.source()),
{
    u.url.path().to_string()
}

/// Relies on `url::Url::query_pairs`: the decoded query pairs, in order.
#[verifier::external_body]
fn query_pairs_of(u: &ParsedUrl) -> (r: Vec<(String, String)>)
    ensures
        pairs_view(r@) == url_query_pairs(u.source()),
{
    u.url.query_pairs().map(|(k, v)| (k.into_owned(), v.into_owned())).collect()
}

/// The value of the last pair whose key is `key`.
pub open spec fn last_value(pairs: Seq<(Seq<char>, Seq<char>)>, key: Seq<char>) -> Option<Seq<char>>
    decreases pairs.len(),
{
    if pairs.len() == 0 {
        None
    } else if pairs.last().0 == key {
        Some(pairs.last().1)
    } else {
        last_value(pairs.drop_last(), key)
    }
}

/// The `(code, state)` that a navigation carries to the registered callback:
/// the host and path must equal `localhost` and `/oauth-callback`, and both
/// keys must occur in the query.
pub open spec fn callback_from_parts_spec(
    host: Option<Seq<char>>,
    path: Seq<char>,
    pairs: Seq<(Seq<char>, Seq<char>)>,
) -> Option<(Seq<char>, Seq<char>)> {
    if host == Some("localhost"@) && path == "/oauth-callback"@ {
        match (last_value(pairs, "code"@), last_value(pairs, "state"@)) {
            (Some(c), Some(s)) => Some((c, s)),
            _ => None,
        }
    } else {
        None
    }
}

/// The `(code, state)` that a navigation to `url` completes the flow with.
pub open spec fn callback_of(url: Seq<char>) -> Option<(Seq<char>, Seq<char>)> {
    if url_parses(url) {
        callback_from_parts_spec(url_host(url), url_path(url), url_query_pairs(url))
    } else {
        None
    }
}

/// The result of a completed authorization.
#[derive(Clone, Debug)]
pub struct CallbackPayload {
    pub code: String,
    pub state: String,
}

impl CallbackPayload {
    pub open spec fn view(&self) -> (Seq<char>, Seq<char>) {
        (self.code@, self.state@)
    }
}

pub open spec fn payload_view(p: Option<CallbackPayload>) -> Option<(Seq<char>, Seq<char>)> {
    match p {
        Some(p) => Some(p.view()),
        None => None,
    }
}

/// The value of the last pair keyed `key`.
pub fn find_last_value(pairs: &Vec<(String, String)>, key: &str) -> (r: Option<String>)
    ensures
        opt_view(r) == last_value(pairs_view(pairs@), key@),
{
    let mut found: Option<String> = None;
    let mut i: usize = 0;
    while i < pairs.len()
        invariant
            i <= pairs@.len(),
            opt_view(found) == last_value(pairs_view(pairs@.subrange(0, i as int)), key@),
        decreases pairs.len() - i,
    {
        let ghost before = pairs@.subrange(0, i as int);
        let ghost after = pairs@.subrange(0, i + 1);
        assert(after.drop_last() =~= before);
        assert(pairs_view(after).drop_last() =~= pairs_view(before));
        if str_eq(pairs[i].0.as_str(), key) {
            found = Some(pairs[i].1.clone());
        }
        i += 1;
    }
    assert(pairs@.subrange(0, pairs@.len() as int) =~= pairs@);
    found
}

/// Picks the callback out of a parsed navigation target.
pub fn callback_from_parts(
    host: &Option<String>,
    path: &str,
    pairs: &Vec<(String, String)>,
) -> (r: Option<CallbackPayload>)
    ensures
        payload_view(r) == callback_from_parts_spec(opt_view(*host), path@, pairs_view(pairs@)),
{
    let host_ok = match host {
        Some(h) => str_eq(h.as_str(), "localhost"),
        None => false,
    };
    if !(host_ok && str_eq(path, "/oauth-callback")) {
        return None;
    }
    let code = find_last_value(pairs, "code");
    let state = find_last_value(pairs, "state");
    match (code, state) {
        (Some(code), Some(state)) => Some(CallbackPayload { code, state }),
        _ => None,
    }
}

/// The callback that a navigation to `target` completes the flow with, if any.
pub fn callback_from_url(target: &str) -> (r: Option<CallbackPayload>)
    ensures
        payload_view(r) == callback_of(target@),
{
    match parse_url(target) {
        Ok(u) => {
            let host = host_of(&u);
            let path = path_of(&u);
            let pairs = query_pairs_of(&u);
            callback_from_parts(&host, path.as_str(), &pairs)
        },
        Err(_) => None,
    }
}

} // verus!
