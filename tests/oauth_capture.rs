use pocketpaw_shell::loopback::{redirect_url_from_request_line, CONFIRMATION_RESPONSE};
use pocketpaw_shell::redirect::{callback_from_parts, callback_from_url, find_last_value};
use pocketpaw_shell::session::{
    navigation_script, AuthWindows, OpenError, OpenOutcome, SessionGuard, AUTH_WINDOW_LABEL,
};

fn pairs(items: &[(&str, &str)]) -> Vec<(String, String)> {
    items.iter().map(|(k, v)| (k.to_string(), v.to_string())).collect()
}

#[test]
fn matching_redirect_gives_code_and_state() {
    let p = callback_from_url("http://localhost/oauth-callback?code=abc123&state=xyz").unwrap();
    assert_eq!(p.code, "abc123");
    assert_eq!(p.state, "xyz");
}

#[test]
fn redirect_values_are_percent_decoded() {
    let p = callback_from_url("http://localhost/oauth-callback?state=s%20t&code=a%2Fb").unwrap();
    assert_eq!(p.code, "a/b");
    assert_eq!(p.state, "s t");
}

#[test]
fn redirect_with_other_path_is_ignored() {
    assert!(callback_from_url("http://localhost/other-path?code=abc").is_none());
    assert!(callback_from_url("http://localhost/other-path?code=abc&state=x").is_none());
}

#[test]
fn redirect_with_other_host_is_ignored() {
    assert!(callback_from_url("http://example.com/oauth-callback?code=a&state=b").is_none());
}

#[test]
fn redirect_without_state_is_ignored() {
    assert!(callback_from_url("http://localhost/oauth-callback?code=abc").is_none());
    assert!(callback_from_url("http://localhost/oauth-callback?state=abc").is_none());
    assert!(callback_from_url("http://localhost/oauth-callback").is_none());
}

#[test]
fn unparsable_target_is_ignored() {
    assert!(callback_from_url("not a url").is_none());
}

#[test]
fn repeated_key_takes_last_value() {
    let p = callback_from_url("http://localhost/oauth-callback?code=one&state=s&code=two").unwrap();
    assert_eq!(p.code, "two");
    let v = pairs(&[("code", "1"), ("x", "2"), ("code", "3")]);
    assert_eq!(find_last_value(&v, "code"), Some("3".to_string()));
    assert_eq!(find_last_value(&v, "state"), None);
}

#[test]
fn parts_match_only_registered_callback() {
    let v = pairs(&[("code", "c"), ("state", "s")]);
    let p = callback_from_parts(&Some("localhost".to_string()), "/oauth-callback", &v).unwrap();
    assert_eq!((p.code.as_str(), p.state.as_str()), ("c", "s"));
    assert!(callback_from_parts(&None, "/oauth-callback", &v).is_none());
    assert!(callback_from_parts(&Some("localhost".to_string()), "/oauth-callback/", &v).is_none());
    assert!(callback_from_parts(&Some("localhost".to_string()), "/oauth-callback", &pairs(&[("code", "c")])).is_none());
}

#[test]
fn guard_completes_once() {
    let mut g = SessionGuard::new();
    assert!(!g.handled());
    assert!(g.try_complete());
    assert!(g.handled());
    assert!(!g.try_complete());
}

#[test]
fn callback_fires_and_window_closes() {
    let mut w = AuthWindows::new();
    assert_eq!(w.open("https://idp.example/authorize?client_id=x").unwrap(), OpenOutcome::Created);
    let d = w.navigate("https://idp.example/login");
    assert!(d.allow && d.callback.is_none() && !d.close_window);
    let d = w.navigate("http://localhost/oauth-callback?code=abc123&state=xyz");
    assert!(d.allow);
    assert!(d.close_window);
    let p = d.callback.unwrap();
    assert_eq!(p.code, "abc123");
    assert_eq!(p.state, "xyz");
    let again = w.navigate("http://localhost/oauth-callback?code=abc123&state=xyz");
    assert!(!again.allow && again.callback.is_none());
    assert!(!w.window_destroyed());
    assert!(!w.is_open());
}

#[test]
fn other_path_keeps_window_open() {
    let mut w = AuthWindows::new();
    w.open("https://idp.example/authorize?x=1").unwrap();
    let d = w.navigate("http://localhost/other-path?code=abc");
    assert!(d.allow);
    assert!(d.callback.is_none());
    assert!(!d.close_window);
    assert!(w.is_open());
    let d = w.navigate("http://localhost/oauth-callback?code=c&state=s");
    assert!(d.callback.is_some());
}

#[test]
fn second_open_focuses_existing_window() {
    let mut w = AuthWindows::new();
    assert_eq!(w.open("https://idp.example/authorize").unwrap(), OpenOutcome::Created);
    assert_eq!(w.open("https://idp.example/authorize").unwrap(), OpenOutcome::Focused);
    assert_eq!(w.open("not a url").unwrap(), OpenOutcome::Focused);
    assert!(w.is_open());
    assert!(w.window_destroyed());
    assert!(!w.is_open());
    assert!(!w.window_destroyed());
}

#[test]
fn destroy_before_callback_cancels_once() {
    let mut w = AuthWindows::new();
    w.open("https://idp.example/authorize").unwrap();
    w.navigate("https://idp.example/consent");
    assert!(w.window_destroyed());
    assert!(!w.window_destroyed());
}

#[test]
fn invalid_authorize_url_is_refused() {
    let mut w = AuthWindows::new();
    match w.open("no scheme here") {
        Err(OpenError::InvalidUrl(_)) => {}
        other => panic!("unexpected: {:?}", other),
    }
    assert!(!w.is_open());
}

#[test]
fn navigation_without_window_passes() {
    let mut w = AuthWindows::new();
    let d = w.navigate("http://localhost/oauth-callback?code=a&state=b");
    assert!(d.allow && d.callback.is_none() && !d.close_window);
}

#[test]
fn loopback_rebuilds_redirect_url() {
    let url = redirect_url_from_request_line(8123, "GET /?code=a&state=b HTTP/1.1\r\n");
    assert_eq!(url.as_deref(), Some("http://localhost:8123/?code=a&state=b"));
}

#[test]
fn loopback_accepts_any_path() {
    let url = redirect_url_from_request_line(45001, "POST /elsewhere HTTP/1.0\r\n");
    assert_eq!(url.as_deref(), Some("http://localhost:45001/elsewhere"));
}

#[test]
fn loopback_port_edges() {
    assert_eq!(redirect_url_from_request_line(0, "GET /x").as_deref(), Some("http://localhost:0/x"));
    assert_eq!(redirect_url_from_request_line(65535, "  GET\t/y  ").as_deref(), Some("http://localhost:65535/y"));
    assert_eq!(redirect_url_from_request_line(10, "GET /z").as_deref(), Some("http://localhost:10/z"));
}

#[test]
fn loopback_needs_two_tokens() {
    assert!(redirect_url_from_request_line(80, "GET").is_none());
    assert!(redirect_url_from_request_line(80, "GET   \r\n").is_none());
    assert!(redirect_url_from_request_line(80, "").is_none());
}

#[test]
fn confirmation_is_html_response() {
    assert!(CONFIRMATION_RESPONSE.starts_with("HTTP/1.1 200 OK\r\n"));
    assert!(CONFIRMATION_RESPONSE.contains("<html>"));
}

#[test]
fn navigation_script_escapes_quotes_and_backslashes() {
    assert_eq!(
        navigation_script("https://idp.example/a?x='1'"),
        "window.location.href='https://idp.example/a?x=\\'1\\'';"
    );
    assert_eq!(navigation_script("a\\b"), "window.location.href='a\\\\b';");
    assert_eq!(navigation_script(""), "window.location.href='';");
    assert_eq!(AUTH_WINDOW_LABEL, "oauth");
}
