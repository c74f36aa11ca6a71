use the_organizer::extension::{
    ensure_authorized, handle_request, host_matches, normalize_host, query_param,
    request_token, split_path_query, AuthError, ReplyBody, RequestMethod,
};
use the_organizer::models::{Entry, ExtensionConfig, Timestamp, EXTENSION_DEFAULT_PORT};
use the_organizer::state::AppState;

fn entry(id: &str, title: &str, password: &str, url: &str) -> Entry {
    Entry {
        id: id.to_string(),
        title: title.to_string(),
        username: "user".to_string(),
        password: password.to_string(),
        url: url.to_string(),
        notes: String::new(),
        created_at: Timestamp { secs: 1, nanos: 0 },
        updated_at: Timestamp { secs: 1, nanos: 0 },
    }
}

fn config(enabled: bool) -> ExtensionConfig {
    ExtensionConfig { enabled, token: "tok".to_string(), port: EXTENSION_DEFAULT_PORT }
}

fn unlocked_state() -> AppState {
    let mut st = AppState::new(0, config(true));
    let entries = vec![
        entry("1", "Mail", "mailpw", "https://mail.example.com/login"),
        entry("2", "Root", "rootpw", "www.example.com"),
        entry("3", "Other", "otherpw", "other.org"),
        entry("4", "Broken", "brokenpw", "   "),
    ];
    st.unlock_vault(Ok((entries, [0u8; 32], [0u8; 32])), 1).expect("unlock");
    st
}

#[test]
fn hosts_match_exactly_or_as_subdomains() {
    assert!(host_matches("example.com", "example.com"));
    assert!(host_matches("www.example.com", "example.com"));
    assert!(host_matches("example.com", "www.example.com"));
    assert!(host_matches("example.com", "mail.example.com"));
    assert!(!host_matches("mail.example.com", "example.com"));
    assert!(!host_matches("example.com", "badexample.com"));
}

#[test]
fn normalize_host_reads_bare_hosts_and_urls() {
    assert_eq!(normalize_host("  Example.COM  "), Some("example.com".to_string()));
    assert_eq!(
        normalize_host("http://Mail.Example.com:8080/x?y=1"),
        Some("mail.example.com".to_string())
    );
    assert_eq!(normalize_host("foo://EXAMPLE.com/x"), Some("example.com".to_string()));
    assert_eq!(normalize_host("   "), None);
    assert_eq!(normalize_host("http://"), None);
}

#[test]
fn url_splits_at_first_question_mark() {
    assert_eq!(split_path_query("/v1/entries?url=a?b"), ("/v1/entries", Some("url=a?b")));
    assert_eq!(split_path_query("/v1/status"), ("/v1/status", None));
}

#[test]
fn query_param_takes_the_last_value() {
    assert_eq!(query_param(Some("url=a&url=b%20c"), "url"), Some("b c".to_string()));
    assert_eq!(query_param(Some("id=7"), "url"), None);
    assert_eq!(query_param(None, "id"), None);
}

#[test]
fn tokens_come_from_either_header() {
    assert_eq!(request_token(Some("  abc "), None), Some("abc".to_string()));
    assert_eq!(request_token(Some("  "), Some("Bearer  xyz ")), Some("xyz".to_string()));
    assert_eq!(request_token(None, Some("Basic xyz")), None);
    assert_eq!(request_token(None, None), None);
}

#[test]
fn authorization_checks_switch_and_token() {
    assert_eq!(ensure_authorized(&config(false), &Some("tok".to_string())), Err(AuthError::Disabled));
    assert_eq!(ensure_authorized(&config(true), &None), Err(AuthError::Missing));
    assert_eq!(ensure_authorized(&config(true), &Some("nope".to_string())), Err(AuthError::Invalid));
    assert_eq!(ensure_authorized(&config(true), &Some("tok".to_string())), Ok(()));
}

#[test]
fn preflight_and_unknown_routes() {
    let mut st = unlocked_state();
    let r = handle_request(&mut st, RequestMethod::Options, "/anything", None, 5);
    assert_eq!(r.status, 204);
    assert!(matches!(r.body, ReplyBody::Empty));
    let r = handle_request(&mut st, RequestMethod::Get, "/v2/x", Some("tok".to_string()), 5);
    assert_eq!(r.status, 404);
    assert_eq!(st.last_interaction, 1);
}

#[test]
fn refused_requests_do_not_count_as_interaction() {
    let mut st = unlocked_state();
    let r = handle_request(&mut st, RequestMethod::Get, "/v1/status", None, 9);
    assert_eq!(r.status, 401);
    assert!(matches!(r.body, ReplyBody::Error(ref m) if m == "missing token"));
    let r = handle_request(&mut st, RequestMethod::Get, "/v1/status", Some("bad".to_string()), 9);
    assert_eq!(r.status, 401);
    st.extension_config.enabled = false;
    let r = handle_request(&mut st, RequestMethod::Get, "/v1/status", Some("tok".to_string()), 9);
    assert_eq!(r.status, 423);
    assert!(matches!(r.body, ReplyBody::Error(ref m) if m == "extension disabled"));
    assert_eq!(st.last_interaction, 1);
}

#[test]
fn status_reports_lock_state() {
    let mut st = unlocked_state();
    let r = handle_request(&mut st, RequestMethod::Get, "/v1/status", Some("tok".to_string()), 9);
    assert_eq!(r.status, 200);
    assert!(matches!(r.body, ReplyBody::Status { locked: false }));
    assert_eq!(st.last_interaction, 9);
    st.lock_now(10);
    let r = handle_request(&mut st, RequestMethod::Get, "/v1/status", Some("tok".to_string()), 11);
    assert!(matches!(r.body, ReplyBody::Status { locked: true }));
}

#[test]
fn entries_route_matches_by_host() {
    let mut st = unlocked_state();
    let r = handle_request(
        &mut st,
        RequestMethod::Get,
        "/v1/entries?url=https%3A%2F%2Fwww.mail.example.com%2Fa",
        Some("tok".to_string()),
        9,
    );
    assert_eq!(r.status, 200);
    match r.body {
        ReplyBody::Entries(v) => {
            let ids: Vec<&str> = v.iter().map(|e| e.id.as_str()).collect();
            assert_eq!(ids, vec!["1", "2"]);
        }
        other => panic!("unexpected {:?}", other),
    }
    let r = handle_request(&mut st, RequestMethod::Get, "/v1/entries?url=%20", Some("tok".to_string()), 9);
    assert_eq!(r.status, 400);
    let r = handle_request(&mut st, RequestMethod::Get, "/v1/entries", Some("tok".to_string()), 9);
    assert_eq!(r.status, 400);
    let r = handle_request(&mut st, RequestMethod::Get, "/v1/entries?url=http%3A%2F%2F", Some("tok".to_string()), 9);
    assert_eq!(r.status, 400);
    st.lock_now(10);
    let r = handle_request(&mut st, RequestMethod::Get, "/v1/entries?url=a.com", Some("tok".to_string()), 11);
    assert_eq!(r.status, 423);
}

#[test]
fn secret_route_returns_password() {
    let mut st = unlocked_state();
    let r = handle_request(&mut st, RequestMethod::Get, "/v1/secret?id=3", Some("tok".to_string()), 9);
    assert_eq!(r.status, 200);
    assert!(matches!(r.body, ReplyBody::Secret(ref s) if s == "otherpw"));
    let r = handle_request(&mut st, RequestMethod::Get, "/v1/secret?id=9", Some("tok".to_string()), 9);
    assert_eq!(r.status, 404);
    let r = handle_request(&mut st, RequestMethod::Get, "/v1/secret?id=", Some("tok".to_string()), 9);
    assert_eq!(r.status, 400);
}
