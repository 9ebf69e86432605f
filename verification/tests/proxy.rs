use auth_service::logging::{LoggingMiddlewareMiddleware, log_line, peer_or_unknown};
use auth_service::models::User;
use auth_service::proxy::{
    equals_ignore_ascii_case, forward_headers, identity_headers, is_forwarded, upstream_url,
};

#[test]
fn identity_and_host_headers_are_stripped() {
    let headers = vec![
        ("Accept".to_string(), 1),
        ("Host".to_string(), 2),
        ("X-User-Id".to_string(), 3),
        ("x-user-email".to_string(), 4),
        ("X-USER-NAME".to_string(), 5),
        ("Cookie".to_string(), 6),
        ("X-User-Idx".to_string(), 7),
    ];
    let out = forward_headers(headers);
    let names: Vec<&str> = out.iter().map(|h| h.0.as_str()).collect();
    assert_eq!(names, vec!["Accept", "Cookie", "X-User-Idx"]);
    assert_eq!(out.iter().map(|h| h.1).collect::<Vec<_>>(), vec![1, 6, 7]);
}

#[test]
fn header_names_compare_ignoring_case() {
    assert!(equals_ignore_ascii_case("HoSt", "host"));
    assert!(!equals_ignore_ascii_case("hosts", "host"));
    assert!(!is_forwarded("HOST"));
    assert!(is_forwarded("content-type"));
}

#[test]
fn identity_headers_name_the_user() {
    let user = User { sub: 1, username: "bob".into(), email: "b@x".into(), role: 0 };
    let h = identity_headers(&user);
    assert_eq!(h[0], ("X-User-Id".to_string(), "00000000-0000-0000-0000-000000000001".to_string()));
    assert_eq!(h[1], ("X-User-Email".to_string(), "b@x".to_string()));
    assert_eq!(h[2], ("X-User-Name".to_string(), "bob".to_string()));
}

#[test]
fn upstream_url_keeps_the_query() {
    assert_eq!(upstream_url("http://up", Some("/a?b=1"), "/a"), "http://up/a?b=1");
    assert_eq!(upstream_url("http://up", None, "/a"), "http://up/a");
}

#[test]
fn log_line_format() {
    assert_eq!(
        log_line("GET", "/x", "1.2.3.4", 200, 15),
        "[LOG] GET /x from 1.2.3.4 => 200 (15 ms)"
    );
    assert_eq!(peer_or_unknown(None), "unknown");
    assert_eq!(peer_or_unknown(Some("::1")), "::1");
    let m = LoggingMiddlewareMiddleware::new(7u8);
    assert_eq!(*m.service, 7);
}
