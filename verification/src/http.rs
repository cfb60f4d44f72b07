//! Requests and replies as plain values: what is to be sent to the service,
//! and what came back. The caller does the sending.

use crate::json::{Json, JsonView};
use crate::text::join;
use vstd::prelude::*;
use vstd::string::*;

verus! {

/// The address under which the service's routes stand.
pub const API_BASE_URL: &'static str = "https://api-user.e2ro.com/2.2";

/// How a request is made.
#[derive(Debug, Clone, Copy, PartialEq, Eq)]
pub enum Method {
    Get,
    Post,
}

/// A request to the service.
#[derive(Debug, PartialEq)]
pub struct Request {
    pub method: Method,
    pub url: String,
    /// The value of the `Cookie` header, where the request carries one.
    pub cookie: Option<String>,
    /// The document sent as the JSON body, where the request has one.
    pub body: Option<Json>,
}

/// The mathematical value of a [`Request`].
pub struct RequestView {
    pub method: Method,
    pub url: Seq<char>,
    pub cookie: Option<Seq<char>>,
    pub body: Option<JsonView>,
}

impl View for Request {
    type V = RequestView;

    open spec fn view(&self) -> RequestView {
        RequestView {
            method: self.method,
            url: self.url@,
            cookie: match self.cookie {
                Some(cookie) => Some(cookie@),
                None => None,
            },
            body: match self.body {
                Some(body) => Some(body@),
                None => None,
            },
        }
    }
}

/// A reply of the service: its status code and the text of its body.
#[derive(Debug, Clone, PartialEq)]
pub struct Reply {
    pub status: u16,
    pub body: String,
}

/// The mathematical value of a [`Reply`].
pub struct ReplyView {
    pub status: u16,
    pub body: Seq<char>,
}

impl View for Reply {
    type V = ReplyView;

    open spec fn view(&self) -> ReplyView {
        ReplyView { status: self.status, body: self.body@ }
    }
}

/// Whether a status code reports success: the codes from 200 to 299.
pub open spec fn is_success(status: u16) -> bool {
    200 <= status < 300
}

impl Reply {
    /// Whether the reply reports success.
    pub fn is_success(&self) -> (success: bool)
        ensures
            success == is_success(self.status),
    {
        200 <= self.status && self.status < 300
    }
}

/// The address of a route of the service.
pub open spec fn endpoint(route: Seq<char>) -> Seq<char> {
    API_BASE_URL@ + "/"@ + route
}

/// The address of a route of the service.
pub fn endpoint_url(route: &str) -> (url: String)
    ensures
        url@ == endpoint(route@),
{
    join(API_BASE_URL, "/").concat(route)
}

/// The `Cookie` header that carries a session token.
pub open spec fn session_cookie(token: Seq<char>) -> Seq<char> {
    "s="@ + token
}

/// The `Cookie` header that carries a session token.
pub fn session_cookie_header(token: &str) -> (cookie: String)
    ensures
        cookie@ == session_cookie(token@),
{
    join("s=", token)
}

/// A token without the cookie's name in front of it, however often it
/// stands there.
pub open spec fn bare_token(text: Seq<char>) -> Seq<char>
    decreases text.len(),
{
    if text.len() >= 2 && text[0] == 's' && text[1] == '=' {
        bare_token(text.skip(2))
    } else {
        text
    }
}

/// A bare token does not begin with the cookie's name, and baring it again
/// changes nothing.
pub proof fn lemma_bare_token_is_bare(text: Seq<char>)
    ensures
        !(bare_token(text).len() >= 2 && bare_token(text)[0] == 's' && bare_token(text)[1] == '='),
        bare_token(bare_token(text)) == bare_token(text),
    decreases text.len(),
{
    if text.len() >= 2 && text[0] == 's' && text[1] == '=' {
        lemma_bare_token_is_bare(text.skip(2));
    }
}

/// The token that a cookie header carries is the token it was made of, as
/// far as that was bare.
pub proof fn lemma_bare_token_of_cookie(token: Seq<char>)
    ensures
        bare_token(session_cookie(token)) == bare_token(token),
{
    reveal_strlit("s=");
    assert(session_cookie(token).skip(2) =~= token);
}

/// Strips the cookie's name from the front of a token.
pub fn strip_cookie_name(text: &str) -> (token: String)
    ensures
        token@ == bare_token(text@),
{
    let len = text.unicode_len();
    let mut start: usize = 0;
    assert(text@.skip(0) =~= text@);
    while len - start >= 2 && text.get_char(start) == 's' && text.get_char(start + 1) == '='
        invariant
            start <= len,
            len == text@.len(),
            bare_token(text@) == bare_token(text@.skip(start as int)),
        decreases len - start,
    {
        assert(text@.skip(start as int).skip(2) =~= text@.skip(start + 2));
        start += 2;
    }
    assert(text@.skip(start as int) =~= text@.subrange(start as int, len as int));
    String::from_str(text.substring_char(start, len))
}

} // verus!
