//! The authenticated client. It keeps the session token and plans each call
//! as two requests: the first refreshes the token, the second asks for the
//! resource with the token that the refresh handed out. A refresh that the
//! service refuses ends the call. The caller sends each request and hands
//! back what came of it.

use crate::error::Error;
use crate::http::{bare_token, endpoint, endpoint_url, is_success, session_cookie};
use crate::http::{session_cookie_header, strip_cookie_name};
use crate::http::{Method, Reply, ReplyView, Request, RequestView};
use crate::json::{Json, JsonView};
use crate::login::{issued_token, issued_token_in, token_reply, user_token_from};
use secrecy::{ExposeSecret, Secret};
use vstd::prelude::*;

verus! {

/// A session token, held in a `secrecy::Secret`, which keeps it out of
/// debug output and wipes it from memory when it is dropped.
#[verifier::external_body]
pub struct SessionToken {
    secret: Secret<String>,
}

/// The text of a session token.
pub uninterp spec fn token_text(token: SessionToken) -> Seq<char>;

/// Calls `Secret::new`, which takes ownership of the text: the token
/// holds exactly that text.
#[verifier::external_body]
fn seal(text: String) -> (token: SessionToken)
    ensures
        token_text(token) == text@,
{
    SessionToken { secret: Secret::new(text) }
}

/// Calls `ExposeSecret::expose_secret`, which lends out the text that the
/// secret holds.
#[verifier::external_body]
fn expose(token: &SessionToken) -> (text: &String)
    ensures
        text@ == token_text(*token),
{
    token.secret.expose_secret()
}

/// A client of the service, for one session.
pub struct Client {
    user_token: SessionToken,
}

/// What a call is to ask of the service once the token is refreshed.
pub struct PlanView {
    pub method: Method,
    pub route: Seq<char>,
    pub body: Option<JsonView>,
}

/// A call under way.
#[derive(Debug, PartialEq)]
pub enum Call {
    /// The refresh request is out; the resource request is still to be made.
    Refreshing { method: Method, route: String, body: Option<Json> },
    /// The resource request is out.
    Fetching,
}

/// The mathematical value of a [`Call`].
pub enum CallView {
    Refreshing(PlanView),
    Fetching,
}

impl View for Call {
    type V = CallView;

    open spec fn view(&self) -> CallView {
        match self {
            Call::Refreshing { method, route, body } => CallView::Refreshing(
                PlanView {
                    method: *method,
                    route: route@,
                    body: match body {
                        Some(body) => Some(body@),
                        None => None,
                    },
                },
            ),
            Call::Fetching => CallView::Fetching,
        }
    }
}

/// What the caller is to do next.
#[derive(Debug, PartialEq)]
pub enum Step {
    /// Send the request, and resume the call with what comes of it.
    Send(Call, Request),
    /// The call is over, with this result.
    Done(Result<Reply, Error>),
}

/// The mathematical value of a [`Step`].
pub enum StepView {
    Send(CallView, RequestView),
    Done(Result<ReplyView, Error>),
}

/// The view of what came of a request.
pub open spec fn outcome_view(outcome: Result<Reply, Error>) -> Result<ReplyView, Error> {
    match outcome {
        Ok(reply) => Ok(reply@),
        Err(error) => Err(error),
    }
}

impl View for Step {
    type V = StepView;

    open spec fn view(&self) -> StepView {
        match self {
            Step::Send(call, request) => StepView::Send(call@, request@),
            Step::Done(outcome) => StepView::Done(outcome_view(*outcome)),
        }
    }
}

/// The request that refreshes a session token: a post to the route
/// `login/refresh`, with the token as the session cookie and no body.
pub open spec fn refresh_request_for(token: Seq<char>) -> RequestView {
    RequestView {
        method: Method::Post,
        url: endpoint("login/refresh"@),
        cookie: Some(session_cookie(token)),
        body: None,
    }
}

/// The request for a resource, with the token as the session cookie.
pub open spec fn resource_request_for(plan: PlanView, token: Seq<char>) -> RequestView {
    RequestView {
        method: plan.method,
        url: endpoint(plan.route),
        cookie: Some(session_cookie(token)),
        body: plan.body,
    }
}

/// The first step of a call: the refresh request goes out.
pub open spec fn begun(token: Seq<char>, plan: PlanView) -> StepView {
    StepView::Send(CallView::Refreshing(plan), refresh_request_for(token))
}

/// The token that the reply to a refresh request puts in place of the old
/// one: a reply whose status reports no success is refused with
/// [`Error::Status`], whatever its body holds; one that reports success
/// gives the token that its body hands out, bare, or [`Error::Decode`]
/// where it hands out none.
pub open spec fn refreshed_token(reply: ReplyView) -> Result<Seq<char>, Error> {
    match token_reply(reply) {
        Ok(issued) => Ok(bare_token(issued)),
        Err(error) => Err(error),
    }
}

/// The token that the client keeps, and its next step, once a request of a
/// call has come to an end.
///
/// While the token is refreshed: a reply that puts a new token in place has
/// the client keep that token and send the resource request with it; a
/// reply that is refused ends the call with its error, and so does a
/// request that failed, and the client keeps the token it had. Once the
/// resource request is out, what comes of it is the result of the call.
pub open spec fn resumed(token: Seq<char>, call: CallView, outcome: Result<ReplyView, Error>) -> (
    Seq<char>,
    StepView,
) {
    match call {
        CallView::Refreshing(plan) => match outcome {
            Ok(reply) => match refreshed_token(reply) {
                Ok(fresh) => (
                    fresh,
                    StepView::Send(CallView::Fetching, resource_request_for(plan, fresh)),
                ),
                Err(error) => (token, StepView::Done(Err(error))),
            },
            Err(error) => (token, StepView::Done(Err(error))),
        },
        CallView::Fetching => (token, StepView::Done(outcome)),
    }
}

/// The requests that go out in the course of a call, in their order, from
/// the step at which the call stands: `outcomes` tells what comes of each
/// request that is sent from there on.
pub open spec fn requests_sent(
    token: Seq<char>,
    step: StepView,
    outcomes: Seq<Result<ReplyView, Error>>,
) -> Seq<RequestView>
    decreases outcomes.len(),
{
    match step {
        StepView::Done(_) => Seq::empty(),
        StepView::Send(call, request) => if outcomes.len() == 0 {
            seq![request]
        } else {
            let next = resumed(token, call, outcomes[0]);
            seq![request] + requests_sent(next.0, next.1, outcomes.skip(1))
        },
    }
}

/// Every call refreshes the token before it asks for its resource: the
/// first request that goes out is the refresh request, with the token that
/// the client keeps when the call begins. A second request goes out only
/// where the reply to the first reported success and handed out a token;
/// it is the request for the resource, it carries that token, bare, and no
/// request follows it.
pub proof fn lemma_refresh_precedes_resource(
    token: Seq<char>,
    plan: PlanView,
    outcomes: Seq<Result<ReplyView, Error>>,
)
    ensures
        ({
            let sent = requests_sent(token, begun(token, plan), outcomes);
            &&& 1 <= sent.len() <= 2
            &&& sent[0] == refresh_request_for(token)
            &&& sent.len() == 2 ==> {
                &&& outcomes.len() >= 1
                &&& outcomes[0] is Ok
                &&& is_success(outcomes[0]->Ok_0.status)
                &&& issued_token_in(outcomes[0]->Ok_0.body) is Some
                &&& sent[1] == resource_request_for(
                    plan,
                    bare_token(issued_token_in(outcomes[0]->Ok_0.body)->0),
                )
            }
        }),
{
    reveal_with_fuel(requests_sent, 3);
}

/// A refresh that is refused leaves the call without a resource request,
/// and the client with the token it had.
pub proof fn lemma_refused_refresh_ends_call(token: Seq<char>, plan: PlanView, reply: ReplyView)
    requires
        !is_success(reply.status),
    ensures
        resumed(token, CallView::Refreshing(plan), Ok(reply)) == (
            token,
            StepView::Done(Err(Error::Status)),
        ),
        requests_sent(token, begun(token, plan), seq![Ok(reply)]) == seq![
            refresh_request_for(token),
        ],
{
    reveal_with_fuel(requests_sent, 3);
    assert(requests_sent(token, begun(token, plan), seq![Ok(reply)]) =~= seq![
        refresh_request_for(token),
    ]);
}

impl Client {
    /// The session token that the client keeps.
    pub closed spec fn token(self) -> Seq<char> {
        token_text(self.user_token)
    }

    /// A client that starts out with the given session token.
    pub fn new(user_token: &str) -> (client: Client)
        ensures
            client.token() == user_token@,
    {
        Client { user_token: seal(String::from_str(user_token)) }
    }

    /// The `Cookie` header that carries the client's token.
    pub fn user_token_as_cookie(&self) -> (cookie: String)
        ensures
            cookie@ == session_cookie(self.token()),
    {
        session_cookie_header(expose(&self.user_token).as_str())
    }

    /// The request that refreshes the client's token.
    pub fn refresh_request(&self) -> (request: Request)
        ensures
            request@ == refresh_request_for(self.token()),
    {
        Request {
            method: Method::Post,
            url: endpoint_url("login/refresh"),
            cookie: Some(self.user_token_as_cookie()),
            body: None,
        }
    }

    /// Takes the token that a reply hands out, and keeps it, bare, in place
    /// of the old one. Where the reply hands out none, the client keeps
    /// its token and the call fails with [`Error::Decode`].
    pub fn keep_issued_token(&mut self, reply: Json) -> (kept: Result<(), Error>)
        ensures
            match issued_token(reply@) {
                Some(issued) => kept is Ok && final(self).token() == bare_token(issued),
                None => kept == Err::<(), Error>(Error::Decode) && final(self).token() == old(
                    self,
                ).token(),
            },
    {
        match user_token_from(reply) {
            Ok(issued) => {
                self.user_token = seal(strip_cookie_name(issued.as_str()));
                Ok(())
            },
            Err(error) => Err(error),
        }
    }

    /// Reads the reply to a refresh request, and keeps the token that it
    /// puts in place of the old one. Where the reply is refused, because
    /// its status reports no success or its body hands out no token, the
    /// client keeps its token and the call fails with the error of the
    /// refusal.
    pub fn refresh_user_token(&mut self, reply: &Reply) -> (kept: Result<(), Error>)
        ensures
            match refreshed_token(reply@) {
                Ok(fresh) => kept is Ok && final(self).token() == fresh,
                Err(error) => kept == Err::<(), Error>(error) && final(self).token() == old(
                    self,
                ).token(),
            },
    {
        if !reply.is_success() {
            return Err(Error::Status);
        }
        match Json::parse(reply.body.as_str()) {
            Some(document) => self.keep_issued_token(document),
            None => Err(Error::Decode),
        }
    }

    /// Begins a call that gets a route, with an optional JSON body.
    pub fn get(&self, route: &str, body: Option<Json>) -> (step: Step)
        ensures
            step@ == begun(
                self.token(),
                PlanView {
                    method: Method::Get,
                    route: route@,
                    body: match body {
                        Some(body) => Some(body@),
                        None => None,
                    },
                },
            ),
    {
        Step::Send(
            Call::Refreshing { method: Method::Get, route: String::from_str(route), body },
            self.refresh_request(),
        )
    }

    /// Begins a call that posts to a route. The body is the given document,
    /// or `null` where none is given.
    pub fn post(&self, route: &str, body: Option<Json>) -> (step: Step)
        ensures
            step@ == begun(
                self.token(),
                PlanView {
                    method: Method::Post,
                    route: route@,
                    body: Some(
                        match body {
                            Some(body) => body@,
                            None => JsonView::Null,
                        },
                    ),
                },
            ),
    {
        let body = match body {
            Some(body) => body,
            None => Json::Null,
        };
        Step::Send(
            Call::Refreshing {
                method: Method::Post,
                route: String::from_str(route),
                body: Some(body),
            },
            self.refresh_request(),
        )
    }

    /// Goes on with a call, given what came of the request that was sent
    /// last: the reply, or the error that kept it from coming.
    pub fn resume(&mut self, call: Call, outcome: Result<Reply, Error>) -> (step: Step)
        ensures
            (final(self).token(), step@) == resumed(old(self).token(), call@, outcome_view(outcome)),
    {
        match call {
            Call::Refreshing { method, route, body } => match outcome {
                Ok(reply) => match self.refresh_user_token(&reply) {
                    Ok(()) => Step::Send(
                        Call::Fetching,
                        Request {
                            method,
                            url: endpoint_url(route.as_str()),
                            cookie: Some(self.user_token_as_cookie()),
                            body,
                        },
                    ),
                    Err(error) => Step::Done(Err(error)),
                },
                Err(error) => Step::Done(Err(error)),
            },
            Call::Fetching => Step::Done(outcome),
        }
    }
}

} // verus!
