use eero_client::client::{Call, Client, Step};
use eero_client::error::Error;
use eero_client::http::{Method, Reply, Request};
use eero_client::json::{Json, JsonNumber};
use eero_client::resources::{devices_from, network_ids_from};
use eero_client::schema::{AccountSummary, Device, Network, NetworksCollection};

fn reply(status: u16, body: &str) -> Reply {
    Reply { status, body: body.to_string() }
}

const ACCOUNT: &str = "{\"meta\":{\"code\":200},\"data\":{\"name\":\"A\",\"networks\":{\"count\":2,\"data\":[\
    {\"name\":\"Home\",\"url\":\"/2.2/networks/42\"},\
    {\"name\":\"Office\",\"url\":\"/2.2/networks/9126368\"}]}}}";

#[test]
fn account_summary_call_gets_the_account_route() {
    let client = Client::new("t");
    match client.request_account_summary() {
        Step::Send(call, request) => {
            assert_eq!(
                call,
                Call::Refreshing { method: Method::Get, route: "account".to_string(), body: None }
            );
            assert_eq!(request.url, "https://api-user.e2ro.com/2.2/login/refresh");
        }
        Step::Done(_) => panic!("the call ended before it began"),
    }
}

#[test]
fn account_summary_is_the_document_of_the_body() {
    assert_eq!(
        Client::get_account_summary(&reply(200, "{\"a\": [1, -2]}")),
        Ok(Json::Object(vec![(
            "a".to_string(),
            Json::Array(vec![
                Json::Number(JsonNumber::Unsigned(1)),
                Json::Number(JsonNumber::Negative(-2)),
            ])
        )]))
    );
    assert_eq!(Client::get_account_summary(&reply(204, "null")), Ok(Json::Null));
}

#[test]
fn account_summary_fails_where_the_body_is_no_json() {
    assert_eq!(Client::get_account_summary(&reply(200, "")), Err(Error::Decode));
    assert_eq!(Client::get_account_summary(&reply(200, "<html></html>")), Err(Error::Decode));
}

#[test]
fn account_summary_refuses_a_reply_without_success() {
    assert_eq!(
        Client::get_account_summary(&reply(401, "{\"error\":\"unauthorized\"}")),
        Err(Error::Status)
    );
    assert_eq!(Client::get_account_summary(&reply(500, ACCOUNT)), Err(Error::Status));
    assert_eq!(Client::get_account_summary(&reply(199, ACCOUNT)), Err(Error::Status));
    assert_eq!(Client::get_account_summary(&reply(300, ACCOUNT)), Err(Error::Status));
    assert_eq!(Client::get_account_summary(&reply(404, "no json")), Err(Error::Status));
}

#[test]
fn network_ids_of_the_enveloped_account() {
    let body = "{\"data\":{\"networks\":{\"count\":1,\"data\":[{\"name\":\"home\",\"url\":\"/2.2/networks/42\"}]}}}";
    assert_eq!(Client::get_network_ids(&reply(200, body)), Ok(vec!["42".to_string()]));
    assert_eq!(network_ids_from(Json::parse(body).unwrap()), Ok(vec!["42".to_string()]));
}

#[test]
fn network_ids_after_a_refresh() {
    let mut client = Client::new("t0");
    let call = match client.request_account_summary() {
        Step::Send(call, _) => call,
        Step::Done(_) => panic!("the call ended before it began"),
    };
    let call = match client.resume(call, Ok(reply(200, "{\"data\":{\"user_token\":\"t1\"}}"))) {
        Step::Send(call, request) => {
            assert_eq!(request.cookie, Some("s=t1".to_string()));
            call
        }
        Step::Done(_) => panic!("the call ended before its resource was asked for"),
    };
    let body = "{\"data\":{\"networks\":{\"count\":1,\"data\":[{\"name\":\"home\",\"url\":\"/2.2/networks/42\"}]}}}";
    match client.resume(call, Ok(reply(200, body))) {
        Step::Done(Ok(answer)) => {
            assert_eq!(Client::get_network_ids(&answer), Ok(vec!["42".to_string()]))
        }
        _ => panic!("the call gave no reply"),
    }
}

#[test]
fn network_ids_refuse_a_reply_without_success() {
    assert_eq!(Client::get_network_ids(&reply(401, ACCOUNT)), Err(Error::Status));
    assert_eq!(Client::get_network_ids(&reply(503, "")), Err(Error::Status));
}

#[test]
fn network_ids_are_not_read_from_outside_the_envelope() {
    let bare = "{\"networks\":{\"count\":1,\"data\":[{\"name\":\"home\",\"url\":\"/n/42\"}]}}";
    assert_eq!(Client::get_network_ids(&reply(200, bare)), Err(Error::Decode));
}

#[test]
fn network_ids_are_the_last_segments_of_the_urls() {
    assert_eq!(
        Client::get_network_ids(&reply(200, ACCOUNT)),
        Ok(vec!["42".to_string(), "9126368".to_string()])
    );
}

#[test]
fn network_ids_of_an_account_without_networks() {
    assert_eq!(
        Client::get_network_ids(&reply(200, "{\"data\":{\"networks\":{\"count\":0,\"data\":[]}}}")),
        Ok(vec![])
    );
}

#[test]
fn network_ids_fail_on_a_malformed_summary() {
    assert_eq!(Client::get_network_ids(&reply(200, "oops")), Err(Error::Decode));
    assert_eq!(Client::get_network_ids(&reply(200, "{}")), Err(Error::Decode));
    assert_eq!(
        Client::get_network_ids(&reply(
            200,
            "{\"data\":{\"networks\":{\"count\":1,\"data\":[{\"name\":\"x\"}]}}}"
        )),
        Err(Error::Decode)
    );
    assert_eq!(Client::get_network_ids(&reply(200, "{\"data\":null}")), Err(Error::Decode));
    assert_eq!(network_ids_from(Json::Null), Err(Error::Decode));
}

#[test]
fn network_ids_of_a_typed_summary() {
    let summary = AccountSummary {
        networks: NetworksCollection {
            count: 3,
            data: vec![
                Network { name: "a".to_string(), url: "https://host/2.2/networks/42".to_string() },
                Network { name: "b".to_string(), url: "no-slash".to_string() },
                Network { name: "c".to_string(), url: "trailing/".to_string() },
            ],
        },
    };
    assert_eq!(
        summary.network_ids(),
        vec!["42".to_string(), "no-slash".to_string(), String::new()]
    );
}

#[test]
fn devices_call_gets_the_route_of_the_network() {
    let mut client = Client::new("t");
    let call = match client.request_devices_for_network("42") {
        Step::Send(call, _) => call,
        Step::Done(_) => panic!("the call ended before it began"),
    };
    assert_eq!(
        call,
        Call::Refreshing {
            method: Method::Get,
            route: "networks/42/devices".to_string(),
            body: None
        }
    );
    let next = client.resume(call, Ok(reply(200, "{\"data\":{\"user_token\":\"u\"}}")));
    assert_eq!(
        next,
        Step::Send(
            Call::Fetching,
            Request {
                method: Method::Get,
                url: "https://api-user.e2ro.com/2.2/networks/42/devices".to_string(),
                cookie: Some("s=u".to_string()),
                body: None,
            }
        )
    );
}

#[test]
fn devices_keep_only_the_well_formed() {
    let body = "{\"data\":[\
        {\"display_name\":\"Laptop\",\"hostname\":\"laptop\",\"connected\":true,\"ip\":\"10.0.0.2\"},\
        {\"display_name\":\"Broken\",\"hostname\":\"broken\"}]}";
    assert_eq!(
        Client::get_devices_for_network(&reply(200, body)),
        Ok(vec![Device {
            display_name: "Laptop".to_string(),
            hostname: Some("laptop".to_string()),
            connected: true,
        }])
    );
}

#[test]
fn devices_of_an_empty_list() {
    assert_eq!(Client::get_devices_for_network(&reply(200, "{\"data\":[]}")), Ok(vec![]));
    assert_eq!(Client::get_devices_for_network(&reply(200, "{\"data\":[1, null]}")), Ok(vec![]));
}

#[test]
fn devices_are_unsupported_on_any_other_status() {
    let body = "{\"data\":[{\"display_name\":\"Laptop\",\"connected\":true}]}";
    assert_eq!(Client::get_devices_for_network(&reply(404, body)), Err(Error::Unsupported));
    assert_eq!(Client::get_devices_for_network(&reply(401, "")), Err(Error::Unsupported));
    assert_eq!(Client::get_devices_for_network(&reply(500, "oops")), Err(Error::Unsupported));
    assert_eq!(Client::get_devices_for_network(&reply(199, body)), Err(Error::Unsupported));
    assert_eq!(Client::get_devices_for_network(&reply(300, body)), Err(Error::Unsupported));
}

#[test]
fn devices_fail_on_a_malformed_reply() {
    assert_eq!(Client::get_devices_for_network(&reply(200, "")), Err(Error::Decode));
    assert_eq!(Client::get_devices_for_network(&reply(200, "[]")), Err(Error::Decode));
    assert_eq!(Client::get_devices_for_network(&reply(200, "{\"data\":{}}")), Err(Error::Decode));
    assert_eq!(Client::get_devices_for_network(&reply(200, "{\"data\":null}")), Err(Error::Decode));
    assert_eq!(devices_from(Json::Null), Err(Error::Decode));
}

#[test]
fn devices_from_a_document() {
    let list = Json::Array(vec![
        Json::Text("junk".to_string()),
        Json::Object(vec![
            ("connected".to_string(), Json::Bool(false)),
            ("display_name".to_string(), Json::Text("TV".to_string())),
            ("hostname".to_string(), Json::Null),
        ]),
    ]);
    assert_eq!(
        devices_from(Json::single("data", list)),
        Ok(vec![Device { display_name: "TV".to_string(), hostname: None, connected: false }])
    );
}
