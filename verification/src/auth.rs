use vstd::prelude::*;

use crate::json::{false_bytes, json_bool_reading, parse_json_bool, true_bytes};

verus! {

/// The player's session with the score server.
pub struct Auth {
    /// The session token the server handed out at login.
    pub token: String,
    validated: bool,
}

/// What a session is: its token, and whether the server has confirmed it.
pub struct AuthView {
    pub token: Seq<char>,
    pub validated: bool,
}

impl View for Auth {
    type V = AuthView;

    closed spec fn view(&self) -> AuthView {
        AuthView { token: self.token@, validated: self.validated }
    }
}

impl Auth {
    /// A session holding `token`, not yet confirmed by the server.
    pub fn new(token: String) -> (auth: Auth)
        ensures
            auth@ == (AuthView { token: token@, validated: false }),
    {
        Auth { token, validated: false }
    }

    /// The session token.
    pub fn token(&self) -> (token: &String)
        ensures
            token@ == self@.token,
    {
        &self.token
    }

    /// Whether the server has confirmed the token.
    pub fn validated(&self) -> (valid: bool)
        ensures
            valid == self@.validated,
    {
        self.validated
    }

    /// Records whether the server confirmed the token; the token stays.
    pub fn set_validated(&mut self, valid: bool)
        ensures
            final(self)@ == (AuthView { token: old(self)@.token, validated: valid }),
    {
        self.validated = valid;
    }
}

/// The session as the game keeps it: the session itself, and whether it
/// changed since it was last saved to disk.
pub struct AuthRecord {
    auth: Auth,
    dirty: bool,
}

pub struct AuthRecordView {
    pub auth: AuthView,
    pub dirty: bool,
}

impl View for AuthRecord {
    type V = AuthRecordView;

    closed spec fn view(&self) -> AuthRecordView {
        AuthRecordView { auth: self.auth@, dirty: self.dirty }
    }
}

/// The record after the reply to a login request: a reply that held a
/// session replaces the token, confirms it and marks the record for saving;
/// a reply that held none changes nothing.
pub open spec fn login_step(record: AuthRecordView, token: Option<Seq<char>>) -> AuthRecordView {
    match token {
        Some(t) => AuthRecordView { auth: AuthView { token: t, validated: true }, dirty: true },
        None => record,
    }
}

/// The record after the server answered whether its token is valid: the
/// verdict is stored, the token kept, and the record marked for saving.
pub open spec fn validation_step(record: AuthRecordView, valid: bool) -> AuthRecordView {
    AuthRecordView { auth: AuthView { token: record.auth.token, validated: valid }, dirty: true }
}

/// The token that a parsed login reply carries, if the reply parsed.
pub open spec fn reply_token(reply: Option<Auth>) -> Option<Seq<char>> {
    match reply {
        Some(a) => Some(a@.token),
        None => None,
    }
}

/// Whether a reply to a token check confirms the token: any reply that
/// reads as a JSON boolean does, whichever boolean it holds.
pub fn reply_confirms_token(parsed: Option<bool>) -> (valid: bool)
    ensures
        valid == parsed is Some,
{
    match parsed {
        Some(_) => true,
        None => false,
    }
}

/// Reads one chunk of the reply to a token check: the token counts as
/// valid exactly where the chunk reads as a JSON boolean.
pub fn token_reply_verdict(chunk: &[u8]) -> (valid: bool)
    ensures
        valid == json_bool_reading(chunk@) is Some,
        chunk@ == true_bytes() ==> valid,
        chunk@ == false_bytes() ==> valid,
        chunk@.len() == 0 ==> !valid,
{
    let parsed = parse_json_bool(chunk);
    reply_confirms_token(parsed)
}

impl AuthRecord {
    /// The record of `auth`, with nothing left to save.
    pub fn new(auth: Auth) -> (record: AuthRecord)
        ensures
            record@ == (AuthRecordView { auth: auth@, dirty: false }),
    {
        AuthRecord { auth, dirty: false }
    }

    /// The session.
    pub fn auth(&self) -> (auth: &Auth)
        ensures
            auth@ == self@.auth,
    {
        &self.auth
    }

    /// Whether the session changed since it was last saved.
    pub fn is_dirty(&self) -> (dirty: bool)
        ensures
            dirty == self@.dirty,
    {
        self.dirty
    }

    /// Notes that the session has been saved.
    pub fn clean(&mut self)
        ensures
            final(self)@ == (AuthRecordView { auth: old(self)@.auth, dirty: false }),
    {
        self.dirty = false;
    }

    /// Applies one chunk of the reply to a login request, as the game
    /// parsed it into a session (`None` where it did not parse).
    pub fn apply_login_reply(&mut self, reply: Option<Auth>)
        ensures
            final(self)@ == login_step(old(self)@, reply_token(reply)),
            reply is Some ==> final(self)@.auth.token == reply.unwrap()@.token,
            reply is Some ==> final(self)@.auth.validated,
            reply is Some ==> final(self)@.dirty,
            reply is None ==> final(self)@ == old(self)@,
    {
        match reply {
            Some(a) => {
                self.auth.token = a.token;
                self.auth.set_validated(true);
                self.dirty = true;
            },
            None => {},
        }
    }

    /// Stores the server's verdict on the token.
    pub fn record_validation(&mut self, valid: bool)
        ensures
            final(self)@ == validation_step(old(self)@, valid),
            final(self)@.auth.token == old(self)@.auth.token,
            final(self)@.auth.validated == valid,
            final(self)@.dirty,
    {
        self.auth.set_validated(valid);
        self.dirty = true;
    }
}

} // verus!
