//! The credential record and where the token store keeps it.
use vstd::prelude::*;
use crate::text::{chars_of, string_from_chars};

verus! {

/// The credential record the caller persists after a successful exchange.
/// The store keeps it verbatim: no expiry or scope check.
#[derive(Clone, Debug, PartialEq, Eq)]
pub struct OAuthTokens {
    pub access_token: String,
    pub refresh_token: Option<String>,
    /// Absolute expiry, in seconds since the epoch.
    pub expires_at: u64,
    pub scopes: Vec<String>,
}

/// The directory, under the user's home, that holds the client's files.
pub const CONFIG_DIR_NAME: &'static str = ".pocketpaw";

/// The token store's file, in the configuration directory.
pub const TOKEN_FILE_NAME: &'static str = "client_oauth.json";

/// The plain access token's file, in the configuration directory.
pub const ACCESS_TOKEN_FILE_NAME: &'static str = "access_token";

/// `base` and `part` joined by one `/`.
pub open spec fn join_spec(base: Seq<char>, part: Seq<char>) -> Seq<char> {
    if base.len() == 0 || base.last() == '/' {
        base + part
    } else {
        base + seq!['/'] + part
    }
}

/// Joins `part` onto the directory `base`.
pub fn join_path(base: &str, part: &str) -> (r: String)
    ensures
        r@ == join_spec(base@, part@),
{
    let mut v = chars_of(base);
    let p = chars_of(part);
    if v.len() > 0 && v[v.len() - 1] != '/' {
        v.push('/');
    }
    let ghost head = v@;
    let mut i: usize = 0;
    while i < p.len()
        invariant
            i <= p@.len(),
            v@ == head + p@.subrange(0, i as int),
        decreases p.len() - i,
    {
        v.push(p[i]);
        i += 1;
        assert(p@.subrange(0, i as int) =~= p@.subrange(0, i - 1).push(p@[i - 1]));
    }
    assert(p@.subrange(0, p@.len() as int) =~= p@);
    assert(v@ =~= join_spec(base@, part@));
    string_from_chars(&v)
}

/// The message when the home directory is unknown.
pub const NO_HOME: &'static str = "Could not determine home directory";

/// The configuration directory for a home directory, or the error when the
/// home directory is unknown.
pub open spec fn config_dir_spec(home: Option<Seq<char>>) -> Result<Seq<char>, Seq<char>> {
    match home {
        Some(h) => Ok(join_spec(h, ".pocketpaw"@)),
        None => Err("Could not determine home directory"@),
    }
}

/// A file of the configuration directory, or the error when the home
/// directory is unknown.
pub open spec fn config_file_spec(home: Option<Seq<char>>, name: Seq<char>) -> Result<
    Seq<char>,
    Seq<char>,
> {
    match config_dir_spec(home) {
        Ok(d) => Ok(join_spec(d, name)),
        Err(e) => Err(e),
    }
}

pub open spec fn result_view(r: Result<String, String>) -> Result<Seq<char>, Seq<char>> {
    match r {
        Ok(s) => Ok(s@),
        Err(e) => Err(e@),
    }
}

pub open spec fn home_view(h: &Option<String>) -> Option<Seq<char>> {
    match h {
        Some(s) => Some(s@),
        None => None,
    }
}

/// The configuration directory under `home`.
pub fn config_dir_in(home: &Option<String>) -> (r: Result<String, String>)
    ensures
        result_view(r) == config_dir_spec(home_view(home)),
{
    match home {
        Some(h) => Ok(join_path(h.as_str(), CONFIG_DIR_NAME)),
        None => Err(NO_HOME.to_string()),
    }
}

/// The file `name` of the configuration directory under `home`.
pub fn config_file_in(home: &Option<String>, name: &str) -> (r: Result<String, String>)
    ensures
        result_view(r) == config_file_spec(home_view(home), name@),
{
    match config_dir_in(home) {
        Ok(d) => Ok(join_path(d.as_str(), name)),
        Err(e) => Err(e),
    }
}

/// Relies on `dirs::home_dir`: the user's home directory, if the platform
/// reports one. It depends on the environment, so nothing is stated of it.
#[verifier::external_body]
fn home_dir() -> (r: Option<String>) {
    dirs::home_dir().map(|p| p.to_string_lossy().into_owned())
}

/// The configuration directory of the current user.
pub fn get_pocketpaw_config_dir() -> (r: Result<String, String>)
    ensures
        exists|h: Option<Seq<char>>| result_view(r) == config_dir_spec(h),
{
    let home = home_dir();
    config_dir_in(&home)
}

/// The token store's file of the current user.
pub fn token_file_path() -> (r: Result<String, String>)
    ensures
        exists|h: Option<Seq<char>>| result_view(r) == config_file_spec(h, "client_oauth.json"@),
{
    let home = home_dir();
    config_file_in(&home, TOKEN_FILE_NAME)
}

/// The plain access token's file of the current user.
pub fn access_token_path() -> (r: Result<String, String>)
    ensures
        exists|h: Option<Seq<char>>| result_view(r) == config_file_spec(h, "access_token"@),
{
    let home = home_dir();
    config_file_in(&home, ACCESS_TOKEN_FILE_NAME)
}

} // verus!
