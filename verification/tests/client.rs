use eero_client::client::{Call, Client, Step};
use eero_client::error::Error;
use eero_client::http::{Method, Reply, Request};
use eero_client::json::Json;

fn reply(status: u16, body: &str) -> Reply {
    Reply { status, body: body.to_string() }
}

fn refresh_request(token: &str) -> Request {
    Request {
        method: Method::Post,
        url: "https://api-user.e2ro.com/2.2/login/refresh".to_string(),
        cookie: Some(format!("s={token}")),
        body: None,
    }
}

fn sent(step: Step) -> (Call, Request) {
    match step {
        Step::Send(call, request) => (call, request),
        Step::Done(result) => panic!("the call ended with {result:?}"),
    }
}

#[test]
fn client_keeps_the_token_it_is_made_with() {
    assert_eq!(Client::new("abc").user_token_as_cookie(), "s=abc");
    assert_eq!(Client::new("").user_token_as_cookie(), "s=");
    assert_eq!(Client::new("s=abc").user_token_as_cookie(), "s=s=abc");
}

#[test]
fn refresh_request_carries_the_current_token() {
    assert_eq!(Client::new("old").refresh_request(), refresh_request("old"));
}

#[test]
fn refresh_replaces_the_token() {
    let mut client = Client::new("old");
    assert_eq!(client.refresh_user_token(&reply(200, "{\"data\":{\"user_token\":\"new\"}}")), Ok(()));
    assert_eq!(client.user_token_as_cookie(), "s=new");
}

#[test]
fn refresh_strips_the_cookie_name() {
    let mut client = Client::new("old");
    assert_eq!(client.refresh_user_token(&reply(200, "{\"data\":{\"user_token\":\"s=new\"}}")), Ok(()));
    assert_eq!(client.user_token_as_cookie(), "s=new");
    assert_eq!(client.refresh_user_token(&reply(204, "{\"data\":{\"user_token\":\"s=s=newer\"}}")), Ok(()));
    assert_eq!(client.user_token_as_cookie(), "s=newer");
}

#[test]
fn failed_refresh_keeps_the_token() {
    let mut client = Client::new("old");
    assert_eq!(client.refresh_user_token(&reply(200, "no json")), Err(Error::Decode));
    assert_eq!(client.user_token_as_cookie(), "s=old");
    assert_eq!(client.refresh_user_token(&reply(200, "{\"data\":{}}")), Err(Error::Decode));
    assert_eq!(client.user_token_as_cookie(), "s=old");
    assert_eq!(client.keep_issued_token(Json::Null), Err(Error::Decode));
    assert_eq!(client.user_token_as_cookie(), "s=old");
}

#[test]
fn keep_issued_token_takes_a_document() {
    let mut client = Client::new("old");
    let issued = Json::single("data", Json::single("user_token", Json::Text("s=t".to_string())));
    assert_eq!(client.keep_issued_token(issued), Ok(()));
    assert_eq!(client.user_token_as_cookie(), "s=t");
}

#[test]
fn call_refreshes_before_it_asks_for_the_resource() {
    let mut client = Client::new("old");
    let (call, first) = sent(client.get("account", None));
    assert_eq!(first, refresh_request("old"));
    assert_eq!(
        call,
        Call::Refreshing { method: Method::Get, route: "account".to_string(), body: None }
    );
    let (call, second) =
        sent(client.resume(call, Ok(reply(200, "{\"data\":{\"user_token\":\"new\"}}"))));
    assert_eq!(call, Call::Fetching);
    assert_eq!(
        second,
        Request {
            method: Method::Get,
            url: "https://api-user.e2ro.com/2.2/account".to_string(),
            cookie: Some("s=new".to_string()),
            body: None,
        }
    );
    assert_eq!(client.user_token_as_cookie(), "s=new");
    let answer = reply(200, "{\"data\":{}}");
    assert_eq!(client.resume(call, Ok(answer.clone())), Step::Done(Ok(answer)));
    assert_eq!(client.user_token_as_cookie(), "s=new");
}

#[test]
fn refused_refresh_keeps_the_token() {
    let mut client = Client::new("t0");
    let body = "{\"data\":{\"user_token\":\"t1\"}}";
    assert_eq!(client.refresh_user_token(&reply(401, body)), Err(Error::Status));
    assert_eq!(client.user_token_as_cookie(), "s=t0");
    assert_eq!(client.refresh_user_token(&reply(500, body)), Err(Error::Status));
    assert_eq!(client.refresh_user_token(&reply(199, body)), Err(Error::Status));
    assert_eq!(client.refresh_user_token(&reply(300, body)), Err(Error::Status));
    assert_eq!(client.refresh_user_token(&reply(403, "denied")), Err(Error::Status));
    assert_eq!(client.user_token_as_cookie(), "s=t0");
}

#[test]
fn refused_refresh_ends_the_call() {
    let mut client = Client::new("t0");
    let (call, _) = sent(client.get("account", None));
    assert_eq!(
        client.resume(call, Ok(reply(401, "{\"data\":{\"user_token\":\"t1\"}}"))),
        Step::Done(Err(Error::Status))
    );
    assert_eq!(client.user_token_as_cookie(), "s=t0");
    let (call, _) = sent(client.post("account", None));
    assert_eq!(
        client.resume(call, Ok(reply(500, "{\"data\":{\"user_token\":\"t1\"}}"))),
        Step::Done(Err(Error::Status))
    );
    assert_eq!(client.user_token_as_cookie(), "s=t0");
}

#[test]
fn call_ends_where_the_refresh_fails() {
    let mut client = Client::new("old");
    let (call, _) = sent(client.get("account", None));
    assert_eq!(client.resume(call, Err(Error::Transport)), Step::Done(Err(Error::Transport)));
    assert_eq!(client.user_token_as_cookie(), "s=old");
    let (call, _) = sent(client.get("account", None));
    assert_eq!(
        client.resume(call, Ok(reply(200, "{\"error\":\"expired\"}"))),
        Step::Done(Err(Error::Decode))
    );
    assert_eq!(client.user_token_as_cookie(), "s=old");
}

#[test]
fn call_hands_on_what_came_of_the_resource_request() {
    let mut client = Client::new("old");
    assert_eq!(
        client.resume(Call::Fetching, Err(Error::Transport)),
        Step::Done(Err(Error::Transport))
    );
    let denied = reply(403, "denied");
    assert_eq!(client.resume(Call::Fetching, Ok(denied.clone())), Step::Done(Ok(denied)));
    assert_eq!(client.user_token_as_cookie(), "s=old");
}

#[test]
fn get_may_carry_a_body() {
    let mut client = Client::new("old");
    let body = Json::single("limit", Json::Bool(true));
    let (call, _) = sent(client.get("account", Some(Json::single("limit", Json::Bool(true)))));
    let (_, second) = sent(client.resume(call, Ok(reply(200, "{\"data\":[\"new\"]}"))));
    assert_eq!(second.method, Method::Get);
    assert_eq!(second.body, Some(body));
    assert_eq!(second.cookie, Some("s=new".to_string()));
}

#[test]
fn post_sends_null_where_no_body_is_given() {
    let mut client = Client::new("old");
    let (call, first) = sent(client.post("networks/42/reboot", None));
    assert_eq!(first, refresh_request("old"));
    let (_, second) =
        sent(client.resume(call, Ok(reply(200, "{\"data\":{\"user_token\":\"new\"}}"))));
    assert_eq!(
        second,
        Request {
            method: Method::Post,
            url: "https://api-user.e2ro.com/2.2/networks/42/reboot".to_string(),
            cookie: Some("s=new".to_string()),
            body: Some(Json::Null),
        }
    );
    let (call, _) = sent(client.post("x", Some(Json::Bool(false))));
    let (_, second) =
        sent(client.resume(call, Ok(reply(200, "{\"data\":{\"user_token\":\"newer\"}}"))));
    assert_eq!(second.body, Some(Json::Bool(false)));
    assert_eq!(second.cookie, Some("s=newer".to_string()));
}
