use vstd::prelude::*;

use crate::auth::{login_step, validation_step, AuthRecordView, AuthView};
use crate::request::{bearer_text, login_body_text};

verus! {

/// The record after the server's verdicts on its token arrive, in order.
pub open spec fn validation_steps(record: AuthRecordView, verdicts: Seq<bool>) -> AuthRecordView
    decreases verdicts.len(),
{
    if verdicts.len() == 0 {
        record
    } else {
        validation_step(validation_steps(record, verdicts.drop_last()), verdicts.last())
    }
}

/// A token check never changes the token: after a login that handed out
/// `token`, the record still holds `token` whatever the server says of it.
pub proof fn lemma_validation_keeps_login_token(record: AuthRecordView, token: Seq<char>, valid: bool)
    ensures
        validation_step(login_step(record, Some(token)), valid).auth.token == token,
        validation_step(login_step(record, Some(token)), valid).auth.validated == valid,
{
}

/// Of several verdicts on the token, the last one stands: the record
/// keeps its token, holds the last verdict, and is marked for saving.
pub proof fn lemma_last_verdict_stands(record: AuthRecordView, verdicts: Seq<bool>)
    requires
        verdicts.len() > 0,
    ensures
        validation_steps(record, verdicts) == validation_step(record, verdicts.last()),
    decreases verdicts.len(),
{
    if verdicts.len() > 1 {
        lemma_last_verdict_stands(record, verdicts.drop_last());
    } else {
        assert(validation_steps(record, verdicts.drop_last()) == record);
    }
}

/// Receiving the same login reply twice leaves the record as receiving it once.
pub proof fn lemma_login_reply_idempotent(record: AuthRecordView, token: Option<Seq<char>>)
    ensures
        login_step(login_step(record, token), token) == login_step(record, token),
{
}

/// A login reply that did not parse leaves the record as it was, and one
/// that did makes the record independent of what it held before.
pub proof fn lemma_login_outcome(r1: AuthRecordView, r2: AuthRecordView, token: Option<Seq<char>>)
    ensures
        token is None ==> login_step(r1, token) == r1,
        token is Some ==> login_step(r1, token) == login_step(r2, token),
{
}

/// Storing a verdict keeps the token, holds exactly that verdict and marks
/// the record for saving, whatever the record held before.
pub proof fn lemma_validation_stores_verdict(record: AuthRecordView, valid: bool)
    ensures
        validation_step(record, valid).auth.token == record.auth.token,
        validation_step(record, valid).auth.validated == valid,
        validation_step(record, valid).dirty,
{
}

/// Storing a verdict depends only on the token held: records that hold the
/// same token agree once the same verdict is stored in each.
pub proof fn lemma_validation_forgets_history(r1: AuthRecordView, r2: AuthRecordView, valid: bool)
    requires
        r1.auth.token == r2.auth.token,
    ensures
        validation_step(r1, valid) == validation_step(r2, valid),
{
}

/// A login reply that parsed leaves the record holding its token,
/// confirmed, and marked for saving.
pub proof fn lemma_login_confirms(record: AuthRecordView, token: Seq<char>)
    ensures
        login_step(record, Some(token)) == (AuthRecordView {
            auth: AuthView { token: token, validated: true },
            dirty: true,
        }),
{
}

/// The authorization header is `Bearer `, then the whole token: seven
/// characters longer than the token, which it ends with.
pub proof fn lemma_bearer_is_scheme_then_token(token: Seq<char>)
    ensures
        bearer_text(token) == "Bearer "@ + token,
        bearer_text(token).len() == token.len() + 7,
        bearer_text(token).subrange(7, bearer_text(token).len() as int) == token,
{
    reveal_strlit("Bearer ");
    assert(bearer_text(token).subrange(7, bearer_text(token).len() as int) =~= token);
}

/// The login body is the fixed framing around the whole username and the
/// whole password: 27 characters longer than the two, with the password
/// in full just before the closing two characters.
pub proof fn lemma_login_body_holds_credentials(username: Seq<char>, password: Seq<char>)
    ensures
        login_body_text(username, password)
            == "{\"email\":\""@ + username + "\", \"password\":\""@ + password + "\"}"@,
        login_body_text(username, password).len() == username.len() + password.len() + 27,
        login_body_text(username, password).subrange(10, 10 + username.len() as int) == username,
        login_body_text(username, password).subrange(25 + username.len() as int, 25 + username.len() + password.len() as int) == password,
{
    reveal_strlit("{\"email\":\"");
    reveal_strlit("\", \"password\":\"");
    reveal_strlit("\"}");
    let body = login_body_text(username, password);
    assert(body.subrange(10, 10 + username.len() as int) =~= username);
    assert(body.subrange(25 + username.len() as int, 25 + username.len() + password.len() as int) =~= password);
}

} // verus!
