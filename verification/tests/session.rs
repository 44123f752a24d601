use hoppinworld::auth::{reply_confirms_token, token_reply_verdict, Auth, AuthRecord};

fn record_with(token: &str) -> AuthRecord {
    AuthRecord::new(Auth::new(token.to_string()))
}

#[test]
fn new_session_is_unconfirmed_and_saved() {
    let auth = Auth::new("t".to_string());
    assert_eq!(auth.token, "t");
    assert_eq!(auth.token(), "t");
    assert!(!auth.validated());
    let record = AuthRecord::new(auth);
    assert!(!record.is_dirty());
    assert!(!record.auth().validated());
}

#[test]
fn set_validated_keeps_token() {
    let mut auth = Auth::new("t".to_string());
    auth.set_validated(true);
    assert!(auth.validated());
    assert_eq!(auth.token, "t");
    auth.set_validated(false);
    assert!(!auth.validated());
}

#[test]
fn login_reply_replaces_session() {
    let mut record = record_with("old");
    record.apply_login_reply(Some(Auth::new("fresh".to_string())));
    assert_eq!(record.auth().token, "fresh");
    assert!(record.auth().validated());
    assert!(record.is_dirty());
}

#[test]
fn unparsed_login_reply_changes_nothing() {
    let mut record = record_with("old");
    record.apply_login_reply(None);
    assert_eq!(record.auth().token, "old");
    assert!(!record.auth().validated());
    assert!(!record.is_dirty());
}

#[test]
fn login_reply_twice_is_once() {
    let mut once = record_with("old");
    once.apply_login_reply(Some(Auth::new("fresh".to_string())));
    let mut twice = record_with("old");
    twice.apply_login_reply(Some(Auth::new("fresh".to_string())));
    twice.apply_login_reply(Some(Auth::new("fresh".to_string())));
    assert_eq!(once.auth().token, twice.auth().token);
    assert_eq!(once.auth().validated(), twice.auth().validated());
    assert_eq!(once.is_dirty(), twice.is_dirty());
}

#[test]
fn reply_confirms_on_any_boolean() {
    assert!(reply_confirms_token(Some(true)));
    assert!(reply_confirms_token(Some(false)));
    assert!(!reply_confirms_token(None));
}

#[test]
fn validation_reply_true_confirms() {
    let mut record = record_with("t");
    record.record_validation(token_reply_verdict(b"true"));
    assert!(record.auth().validated());
    assert_eq!(record.auth().token, "t");
    assert!(record.is_dirty());
}

#[test]
fn validation_reply_false_still_confirms() {
    let mut record = record_with("t");
    record.record_validation(token_reply_verdict(b"false"));
    assert!(record.auth().validated());
}

#[test]
fn validation_reply_with_whitespace_confirms() {
    let mut record = record_with("t");
    record.record_validation(token_reply_verdict(b"  true\n"));
    assert!(record.auth().validated());
}

#[test]
fn validation_reply_garbage_revokes() {
    for chunk in [&b""[..], b"1", b"\"true\"", b"tru", b"true false", b"{}"] {
        let mut record = record_with("t");
        record.record_validation(token_reply_verdict(b"true"));
        record.record_validation(token_reply_verdict(chunk));
        assert!(!record.auth().validated());
        assert_eq!(record.auth().token, "t");
        assert!(record.is_dirty());
    }
}

#[test]
fn validation_keeps_login_token() {
    let mut record = record_with("old");
    record.apply_login_reply(Some(Auth::new("fresh".to_string())));
    record.record_validation(token_reply_verdict(b"oops"));
    assert_eq!(record.auth().token, "fresh");
    assert!(!record.auth().validated());
}

#[test]
fn last_verdict_stands() {
    let mut record = record_with("t");
    record.record_validation(true);
    record.record_validation(false);
    record.record_validation(true);
    assert!(record.auth().validated());
    record.record_validation(false);
    assert!(!record.auth().validated());
    assert_eq!(record.auth().token, "t");
}

#[test]
fn clean_keeps_session() {
    let mut record = record_with("t");
    record.record_validation(true);
    assert!(record.is_dirty());
    record.clean();
    assert!(!record.is_dirty());
    assert!(record.auth().validated());
    assert_eq!(record.auth().token, "t");
}

#[test]
fn token_reply_verdicts() {
    assert!(token_reply_verdict(b"true"));
    assert!(token_reply_verdict(b"false"));
    assert!(token_reply_verdict(b" false "));
    assert!(!token_reply_verdict(b""));
    assert!(!token_reply_verdict(b"null"));
    assert!(!token_reply_verdict(b"TRUE"));
}
