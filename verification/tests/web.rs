use weylus::web::{
    access_code_from_field, access_code_matches, authorized, connect_url, content_type, route,
    server_started, Route, WebStartUpMessage,
};

#[test]
fn no_access_code_lets_everything_in() {
    assert!(authorized(None, true, "/", None));
    assert!(authorized(None, false, "/anything", Some("x=y")));
}

#[test]
fn access_code_must_match_the_query() {
    assert!(authorized(Some("secret"), true, "/", Some("access_code=secret")));
    assert!(authorized(Some("secret"), true, "/ws", Some("a=b&access_code=secret")));
    assert!(!authorized(Some("secret"), true, "/", Some("access_code=wrong")));
    assert!(!authorized(Some("secret"), true, "/", None));
    assert!(!authorized(Some("secret"), false, "/", Some("access_code=secret")));
    assert!(!authorized(Some("secret"), true, "/style.css", Some("access_code=secret")));
}

#[test]
fn access_code_in_query_is_percent_decoded() {
    assert!(authorized(Some("a b&c"), true, "/", Some("access_code=a%20b%26c")));
    assert!(authorized(Some("a b"), true, "/", Some("access_code=a+b")));
    assert!(!authorized(Some("a%20b"), true, "/", Some("access_code=a%20b")));
}

#[test]
fn last_access_code_parameter_counts() {
    assert!(authorized(Some("two"), true, "/", Some("access_code=one&access_code=two")));
    assert!(!authorized(Some("one"), true, "/", Some("access_code=one&access_code=two")));
}

#[test]
fn access_code_matches_looks_at_the_last_pair() {
    let pairs = vec![
        ("access_code".to_string(), "x".to_string()),
        ("other".to_string(), "y".to_string()),
        ("access_code".to_string(), "z".to_string()),
    ];
    assert!(access_code_matches(&pairs, "z"));
    assert!(!access_code_matches(&pairs, "x"));
    assert!(!access_code_matches(&vec![], "x"));
}

#[test]
fn routes() {
    assert_eq!(route(true, "/", true), Route::Index);
    assert_eq!(route(true, "/", false), Route::AccessPage);
    assert_eq!(route(true, "/ws", true), Route::WebSocket);
    assert_eq!(route(true, "/ws", false), Route::Unauthorized);
    assert_eq!(route(true, "/style.css", false), Route::StyleCss);
    assert_eq!(route(true, "/lib.js", false), Route::LibJs);
    assert_eq!(route(true, "/nope", true), Route::NotFound);
    assert_eq!(route(false, "/", true), Route::NotFound);
}

#[test]
fn content_types() {
    assert_eq!(content_type(Route::Index), Some("text/html; charset=utf-8"));
    assert_eq!(content_type(Route::StyleCss), Some("text/css; charset=utf-8"));
    assert_eq!(content_type(Route::LibJs), Some("text/javascript; charset=utf-8"));
    assert_eq!(content_type(Route::WebSocket), None);
}

#[test]
fn connect_url_percent_encodes_the_code() {
    assert_eq!(connect_url("http://10.0.0.2:1701", None), "http://10.0.0.2:1701");
    assert_eq!(
        connect_url("http://10.0.0.2:1701", Some("foo bar?")),
        "http://10.0.0.2:1701?access_code=foo%20bar%3F"
    );
    assert_eq!(
        connect_url("http://h", Some("Ab9-_.~é")),
        "http://h?access_code=Ab9%2D%5F%2E%7E%C3%A9"
    );
}

#[test]
fn empty_access_code_field_means_none() {
    assert_eq!(access_code_from_field(""), None);
    assert_eq!(access_code_from_field("pw"), Some("pw".to_string()));
}

#[test]
fn server_start_reports() {
    assert!(server_started(Some(WebStartUpMessage::Start)));
    assert!(!server_started(Some(WebStartUpMessage::Error)));
    assert!(!server_started(None));
}

#[test]
fn connect_url_query_authenticates() {
    for code in ["secret", "a b&c=d", "pässwört", "%41", "+plus+"] {
        let url = connect_url("http://h:1", Some(code));
        let query = &url["http://h:1?".len()..];
        assert!(authorized(Some(code), true, "/", Some(query)), "{}", code);
        assert!(!authorized(Some("other"), true, "/", Some(query)));
    }
}
