//! The login flow: a login identifier is exchanged for a session token that
//! is not yet confirmed, and that token is confirmed with the verification
//! code that the service sent to the user.

use crate::error::Error;
use crate::http::{endpoint, endpoint_url, is_success, session_cookie, session_cookie_header};
use crate::http::{Method, Reply, ReplyView, Request, RequestView};
use crate::json::{parsed_document, Json, JsonView};
use crate::schema::{envelope_payload, FromJson, Response, UserToken};
use vstd::prelude::*;

verus! {

/// What a user logs in with.
#[derive(Debug, Clone, PartialEq)]
pub enum LoginMode {
    Email(String),
    PhoneNumber(String),
}

impl LoginMode {
    /// The identifier that is sent to the service.
    pub open spec fn identifier(self) -> Seq<char> {
        match self {
            LoginMode::Email(email) => email@,
            LoginMode::PhoneNumber(number) => number@,
        }
    }

    /// The identifier as text.
    pub fn to_string(&self) -> (text: String)
        ensures
            text@ == self.identifier(),
    {
        match self {
            LoginMode::Email(email) => email.clone(),
            LoginMode::PhoneNumber(number) => number.clone(),
        }
    }
}

/// The request that asks for a session token: the identifier is posted to
/// the route `login`, in an object with the one member `login`.
pub open spec fn login_request_for(identifier: Seq<char>) -> RequestView {
    RequestView {
        method: Method::Post,
        url: endpoint("login"@),
        cookie: None,
        body: Some(JsonView::Object(seq![("login"@, JsonView::Text(identifier))])),
    }
}

/// The request that asks for a session token.
pub fn login_request(login: &LoginMode) -> (request: Request)
    ensures
        request@ == login_request_for(login.identifier()),
{
    Request {
        method: Method::Post,
        url: endpoint_url("login"),
        cookie: None,
        body: Some(Json::single("login", Json::Text(login.to_string()))),
    }
}

/// The session token that a reply hands out: the reply is an envelope whose
/// payload is a record with the field `user_token`.
pub open spec fn issued_token(reply: JsonView) -> Option<Seq<char>> {
    match envelope_payload(reply) {
        Some(payload) => match UserToken::decoded(payload) {
            Some(token) => Some(token.user_token),
            None => None,
        },
        None => None,
    }
}

/// The session token that the text of a reply hands out.
pub open spec fn issued_token_in(body: Seq<char>) -> Option<Seq<char>> {
    match parsed_document(body) {
        Some(reply) => issued_token(reply),
        None => None,
    }
}

/// What a reply to a request for a session token comes to: a reply whose
/// status reports no success is refused with [`Error::Status`], whatever
/// its body holds; one that reports success gives the token that its body
/// hands out, or [`Error::Decode`] where it hands out none.
pub open spec fn token_reply(reply: ReplyView) -> Result<Seq<char>, Error> {
    if !is_success(reply.status) {
        Err(Error::Status)
    } else {
        match issued_token_in(reply.body) {
            Some(issued) => Ok(issued),
            None => Err(Error::Decode),
        }
    }
}

/// Takes the session token out of a reply. It fails, with
/// [`Error::Decode`], exactly where the reply hands out none.
pub fn user_token_from(reply: Json) -> (token: Result<String, Error>)
    ensures
        match token {
            Ok(user_token) => issued_token(reply@) == Some(user_token@),
            Err(error) => error == Error::Decode && issued_token(reply@) is None,
        },
{
    match Response::from_json(reply) {
        Some(envelope) => match envelope.from_response::<UserToken>() {
            Ok(token) => Ok(token.user_token),
            Err(error) => Err(error),
        },
        None => Err(Error::Decode),
    }
}

/// Reads the session token from the reply to a login request. It fails
/// with [`Error::Status`] exactly where the status reports no success, and
/// with [`Error::Decode`] exactly where the status reports success and the
/// body hands out no token.
pub fn get_user_token(reply: &Reply) -> (token: Result<String, Error>)
    ensures
        match token {
            Ok(user_token) => token_reply(reply@) == Ok::<Seq<char>, Error>(user_token@),
            Err(error) => token_reply(reply@) == Err::<Seq<char>, Error>(error),
        },
{
    if !reply.is_success() {
        return Err(Error::Status);
    }
    match Json::parse(reply.body.as_str()) {
        Some(document) => user_token_from(document),
        None => Err(Error::Decode),
    }
}

/// The request that confirms a session token: the code is posted to the
/// route `login/verify`, in an object with the one member `code`, and the
/// token goes along as the session cookie.
pub open spec fn verification_request_for(user_token: Seq<char>, code: Seq<char>) -> RequestView {
    RequestView {
        method: Method::Post,
        url: endpoint("login/verify"@),
        cookie: Some(session_cookie(user_token)),
        body: Some(JsonView::Object(seq![("code"@, JsonView::Text(code))])),
    }
}

/// The request that confirms a session token with a verification code.
pub fn verification_request(user_token: &str, verification_code: &str) -> (request: Request)
    ensures
        request@ == verification_request_for(user_token@, verification_code@),
{
    Request {
        method: Method::Post,
        url: endpoint_url("login/verify"),
        cookie: Some(session_cookie_header(user_token)),
        body: Some(Json::single("code", Json::Text(String::from_str(verification_code)))),
    }
}

/// Whether the reply to a verification request confirms the token: it does
/// exactly where its status reports success.
pub fn confirm_user_token_with_verification_code(reply: &Reply) -> (confirmed: bool)
    ensures
        confirmed == is_success(reply.status),
{
    reply.is_success()
}

} // verus!
