use vstd::prelude::*;

use crate::header::{header_text_valid, header_value_accepted, lemma_bearer_prefix_valid, lemma_valid_prefix};
use crate::json::{json_plain_char, json_string, json_string_text, lemma_plain_text_unescaped};

verus! {

/// The score server every request of the game goes to.
pub open spec fn server_text() -> Seq<char> {
    "https://hoppinworld.net:27015"@
}

/// The address of the endpoint `path` on the score server.
pub open spec fn endpoint_text(path: Seq<char>) -> Seq<char> {
    server_text() + path
}

/// The media type that every request body is sent as.
pub open spec fn json_media_type() -> Seq<char> {
    "application/json"@
}

/// The text of the `X-Authorization` header that carries a session token.
pub open spec fn bearer_text(token: Seq<char>) -> Seq<char> {
    "Bearer "@ + token
}

/// The body of a login request. The credentials are placed between the
/// quotes as they are, without any JSON escaping.
pub open spec fn login_body_text(username: Seq<char>, password: Seq<char>) -> Seq<char> {
    "{\"email\":\""@ + username + "\", \"password\":\""@ + password + "\"}"@
}

/// A POST request to the score server, as the game sends it.
pub struct ApiRequest {
    /// Full address of the endpoint.
    pub url: String,
    /// Value of the `Content-Type` header.
    pub content_type: String,
    /// Value of the `X-Authorization` header, where the endpoint asks for one.
    pub authorization: Option<String>,
    /// The request body.
    pub body: String,
    /// Number of DNS worker threads of the HTTPS connector that sends it.
    pub dns_threads: usize,
}

impl ApiRequest {
    /// The request goes to `path` on the score server, as JSON, over a
    /// connector with `threads` DNS workers.
    pub open spec fn targets(&self, path: Seq<char>, threads: usize) -> bool {
        &&& self.url@ == "https://hoppinworld.net:27015"@ + path
        &&& self.content_type@ == "application/json"@
        &&& self.dns_threads == threads
    }

    /// The request carries `token` in its `X-Authorization` header.
    pub open spec fn authorized_by(&self, token: Seq<char>) -> bool {
        &&& self.authorization is Some
        &&& self.authorization.unwrap()@ == "Bearer "@ + token
    }
}

/// Builds the address of the endpoint `path` on the score server.
fn endpoint(path: &str) -> (url: String)
    ensures
        url@ == endpoint_text(path@),
        url@ == "https://hoppinworld.net:27015"@ + path@,
{
    let mut url = String::from_str("https://hoppinworld.net:27015");
    url.append(path);
    url
}

/// Builds the media type sent with every request.
fn json_content_type() -> (media: String)
    ensures
        media@ == json_media_type(),
        media@ == "application/json"@,
{
    String::from_str("application/json")
}

/// Builds the value of the `X-Authorization` header for `token`.
pub fn bearer_authorization(token: &str) -> (header: String)
    ensures
        header@ == bearer_text(token@),
        header@ == "Bearer "@ + token@,
{
    let mut header = String::from_str("Bearer ");
    header.append(token);
    header
}

/// Builds the body of a login request from the player's credentials.
pub fn login_body(username: &str, password: &str) -> (body: String)
    ensures
        body@ == login_body_text(username@, password@),
        body@ == "{\"email\":\""@ + username@ + "\", \"password\":\""@ + password@ + "\"}"@,
{
    let mut body = String::from_str("{\"email\":\"");
    body.append(username);
    body.append("\", \"password\":\"");
    body.append(password);
    body.append("\"}");
    body
}

/// The login request for the given credentials: `/login`, two DNS
/// workers, no authorization header.
pub fn login_request(username: &str, password: &str) -> (req: ApiRequest)
    ensures
        req.targets("/login"@, 2),
        req.authorization is None,
        req.body@ == login_body_text(username@, password@),
        req.body@ == "{\"email\":\""@ + username@ + "\", \"password\":\""@ + password@ + "\"}"@,
{
    ApiRequest {
        url: endpoint("/login"),
        content_type: json_content_type(),
        authorization: None,
        body: login_body(username, password),
        dns_threads: 2,
    }
}

/// The request that submits a finished run: `/submitscore`, four DNS
/// workers, authorized by `auth_token`; `score_json` is the run already
/// printed as JSON, and is sent as it is. A token that cannot stand in an
/// HTTP header (a control byte other than tab, or DEL) gives no request.
pub fn submit_score_request(auth_token: &str, score_json: String) -> (req: Option<ApiRequest>)
    ensures
        req is Some <==> header_text_valid(auth_token@),
        req matches Some(r) ==> {
            &&& r.targets("/submitscore"@, 4)
            &&& r.authorized_by(auth_token@)
            &&& r.body@ == score_json@
        },
{
    let authorization = bearer_authorization(auth_token);
    proof {
        lemma_bearer_prefix_valid();
        lemma_valid_prefix("Bearer "@, auth_token@);
    }
    if !header_value_accepted(authorization.as_str()) {
        return None;
    }
    Some(ApiRequest {
        url: endpoint("/submitscore"),
        content_type: json_content_type(),
        authorization: Some(authorization),
        body: score_json,
        dns_threads: 4,
    })
}

/// The request that asks the server whether `auth_token` is still valid:
/// `/validatetoken`, four DNS workers, authorized by the token, whose body
/// is the token as a JSON string. A token that cannot stand in an HTTP
/// header gives no request.
pub fn validate_token_request(auth_token: &str) -> (req: Option<ApiRequest>)
    ensures
        req is Some <==> header_text_valid(auth_token@),
        req matches Some(r) ==> {
            &&& r.targets("/validatetoken"@, 4)
            &&& r.authorized_by(auth_token@)
            &&& r.body@ == json_string_text(auth_token@)
        },
        (forall|i: int| 0 <= i < auth_token@.len() ==> json_plain_char(#[trigger] auth_token@[i]))
            ==> (req matches Some(r) ==> r.body@ == seq!['"'] + auth_token@ + seq!['"']),
{
    let body = json_string(auth_token);
    let authorization = bearer_authorization(auth_token);
    proof {
        lemma_bearer_prefix_valid();
        lemma_valid_prefix("Bearer "@, auth_token@);
        if forall|i: int| 0 <= i < auth_token@.len() ==> json_plain_char(#[trigger] auth_token@[i]) {
            lemma_plain_text_unescaped(auth_token@);
        }
    }
    if !header_value_accepted(authorization.as_str()) {
        return None;
    }
    Some(ApiRequest {
        url: endpoint("/validatetoken"),
        content_type: json_content_type(),
        authorization: Some(authorization),
        body,
        dns_threads: 4,
    })
}

} // verus!
