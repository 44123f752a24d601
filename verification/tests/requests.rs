use hoppinworld::request::{
    bearer_authorization, login_body, login_request, submit_score_request, validate_token_request,
};

#[test]
fn login_body_embeds_credentials() {
    assert_eq!(
        login_body("player@example.com", "hunter2"),
        "{\"email\":\"player@example.com\", \"password\":\"hunter2\"}"
    );
}

#[test]
fn login_body_does_not_escape() {
    assert_eq!(login_body("a\"b", "c\\d"), "{\"email\":\"a\"b\", \"password\":\"c\\d\"}");
    assert_eq!(login_body("", ""), "{\"email\":\"\", \"password\":\"\"}");
}

#[test]
fn bearer_header_text() {
    assert_eq!(bearer_authorization("abc123"), "Bearer abc123");
    assert_eq!(bearer_authorization(""), "Bearer ");
}

#[test]
fn login_request_shape() {
    let req = login_request("me", "pw");
    assert_eq!(req.url, "https://hoppinworld.net:27015/login");
    assert_eq!(req.content_type, "application/json");
    assert_eq!(req.authorization, None);
    assert_eq!(req.body, "{\"email\":\"me\", \"password\":\"pw\"}");
    assert_eq!(req.dns_threads, 2);
}

#[test]
fn submit_score_request_shape() {
    let req = submit_score_request("tok", "{\"mapid\":3}".to_string()).unwrap();
    assert_eq!(req.url, "https://hoppinworld.net:27015/submitscore");
    assert_eq!(req.content_type, "application/json");
    assert_eq!(req.authorization, Some("Bearer tok".to_string()));
    assert_eq!(req.body, "{\"mapid\":3}");
    assert_eq!(req.dns_threads, 4);
}

#[test]
fn submit_score_refuses_header_breaking_token() {
    assert!(submit_score_request("t\r\nX-Evil: y", "{}".to_string()).is_none());
    assert!(submit_score_request("t\u{7f}", "{}".to_string()).is_none());
    assert!(submit_score_request("a\tb", "{}".to_string()).is_some());
    assert!(submit_score_request("", "{}".to_string()).is_some());
}

#[test]
fn validate_token_request_shape() {
    let req = validate_token_request("tok-42").unwrap();
    assert_eq!(req.url, "https://hoppinworld.net:27015/validatetoken");
    assert_eq!(req.content_type, "application/json");
    assert_eq!(req.authorization, Some("Bearer tok-42".to_string()));
    assert_eq!(req.body, "\"tok-42\"");
    assert_eq!(req.dns_threads, 4);
}

#[test]
fn validate_token_body_escapes_json() {
    let req = validate_token_request("a\"b\\c\td").unwrap();
    assert_eq!(req.body, "\"a\\\"b\\\\c\\td\"");
    let req = validate_token_request("").unwrap();
    assert_eq!(req.body, "\"\"");
    let req = validate_token_request("é/ü\u{7e}").unwrap();
    assert_eq!(req.body, "\"é/ü~\"");
}

#[test]
fn validate_token_refuses_header_breaking_token() {
    assert!(validate_token_request("ab\ncd").is_none());
    assert!(validate_token_request("\u{1}").is_none());
    assert!(validate_token_request("x\u{7f}").is_none());
    assert!(validate_token_request("ünïcode").is_some());
}
