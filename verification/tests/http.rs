use opa_client::http::decision;
use opa_client::http::policy_joined;
use opa_client::http::policy_url;
use opa_client::http::prefix_joined;
use opa_client::http::strip_leading_slash;
use opa_client::http::Exchange;
use opa_client::http::Method;
use opa_client::http::OpenPolicyAgentHttpClient;
use opa_client::http::PATH_PREFIX;
use opa_client::json::frame;
use opa_client::Input;
use opa_client::OpaClientError;
use opa_client::Output;
use serde_json::Value;
use url::Url;

fn person(user: &str, groups: &[&str]) -> Value {
    let mut fields = serde_json::Map::new();
    fields.insert("user".to_string(), Value::String(user.to_string()));
    fields.insert(
        "groups".to_string(),
        Value::Array(groups.iter().map(|g| Value::String(g.to_string())).collect()),
    );
    Value::Object(fields)
}

fn replied(status: u16, body: &str) -> Exchange<Value> {
    Exchange::replied(status, body)
}

#[test]
fn http_input_serialization() {
    let input = person("bob", &["tall", "virginia"]);

    let input = Input::new(&input);

    let json = input.wire_text();

    assert_eq!(
        json,
        "{\"input\":{\"user\":\"bob\",\"groups\":[\"tall\",\"virginia\"]}}"
    );
}

#[test]
fn frame_wraps_the_input_text() {
    assert_eq!(frame("{\"user\":\"bob\"}"), "{\"input\":{\"user\":\"bob\"}}");
    assert_eq!(frame(""), "{\"input\":}");
}

#[test]
fn path_prefix_is_the_data_api() {
    assert_eq!(PATH_PREFIX, "/v1/data/");
}

#[test]
fn request_path_is_built_under_the_prefix() {
    let client = OpenPolicyAgentHttpClient::new(b"http://localhost:8181/").unwrap();
    let input = person("bob", &["tall", "virginia"]);
    let request = client.request("/basic/allow", &input, &()).unwrap();
    assert_eq!(request.url.as_str(), "http://localhost:8181/v1/data/basic/allow");
    assert_eq!(request.method, Method::Post);
    assert_eq!(
        request.body,
        "{\"input\":{\"user\":\"bob\",\"groups\":[\"tall\",\"virginia\"]}}"
    );
}

#[test]
fn leading_slash_is_stripped_once() {
    assert_eq!(strip_leading_slash("/basic/allow"), "basic/allow");
    assert_eq!(strip_leading_slash("basic/allow"), "basic/allow");
    assert_eq!(strip_leading_slash("//basic"), "/basic");
    assert_eq!(strip_leading_slash("/"), "");
    assert_eq!(strip_leading_slash(""), "");
    assert_eq!(strip_leading_slash("é/"), "é/");
}

#[test]
fn policy_without_slash_gives_the_same_path() {
    let base = Url::parse("http://localhost:8181/").unwrap();
    let with = policy_url(&base, "/basic/allow").unwrap();
    let without = policy_url(&base, "basic/allow").unwrap();
    assert_eq!(with, without);
    assert_eq!(with.as_str(), "http://localhost:8181/v1/data/basic/allow");
}

#[test]
fn prefix_replaces_the_path_of_the_base() {
    let base = Url::parse("https://opa.example.net/some/where?x=1").unwrap();
    let url = policy_url(&base, "/license/allow").unwrap();
    assert_eq!(url.as_str(), "https://opa.example.net/v1/data/license/allow");
}

#[test]
fn traversal_is_left_to_the_join() {
    let base = Url::parse("http://localhost:8181/").unwrap();
    let url = policy_url(&base, "../../health").unwrap();
    assert_eq!(url.as_str(), "http://localhost:8181/health");
}

#[test]
fn base_that_cannot_be_joined_is_a_policy_error() {
    let base = Url::parse("mailto:opa@example.net").unwrap();
    assert_eq!(policy_url(&base, "/basic/allow"), Err(OpaClientError::PolicyError));
}

#[test]
fn policy_that_cannot_be_joined_is_a_json_error() {
    let base = Url::parse("http://localhost:8181/").unwrap();
    assert_eq!(policy_url(&base, "http://[::1"), Err(OpaClientError::JsonError));
}

#[test]
fn join_outcomes_map_to_their_errors() {
    let url = Url::parse("http://localhost:8181/v1/data/").unwrap();
    let failure = Url::parse("no url").unwrap_err();
    assert_eq!(prefix_joined(Ok(url.clone())), Ok(url.clone()));
    assert_eq!(policy_joined(Ok(url.clone())), Ok(url));
    assert_eq!(prefix_joined(Err(failure)), Err(OpaClientError::PolicyError));
    assert_eq!(policy_joined(Err(failure)), Err(OpaClientError::JsonError));
}

#[test]
fn client_is_made_from_the_bytes_of_a_url() {
    let client = OpenPolicyAgentHttpClient::new(b"http://localhost:8181").unwrap();
    assert_eq!(client.base_url().as_str(), "http://localhost:8181/");
}

#[test]
fn bytes_that_are_not_utf8_are_a_utf8_error() {
    let made = OpenPolicyAgentHttpClient::new(&[0x68, 0x74, 0xff, 0x70]);
    assert_eq!(made.err(), Some(OpaClientError::Utf8Error));
}

#[test]
fn text_that_is_no_url_is_a_parse_error() {
    let made = OpenPolicyAgentHttpClient::new(b"localhost:8181/");
    assert!(made.is_ok());
    let made = OpenPolicyAgentHttpClient::new(b"/only/a/path");
    assert_eq!(made.err(), Some(OpaClientError::ParseError));
    let made = OpenPolicyAgentHttpClient::new(b"");
    assert_eq!(made.err(), Some(OpaClientError::ParseError));
}

#[test]
fn query_over_http_mixed_cases() {
    let client = OpenPolicyAgentHttpClient::new(b"http://localhost:8181/").unwrap();

    let input = person("bob", &["tall", "virginia"]);
    let request = client.request("/basic/allow", &input, &()).unwrap();
    assert_eq!(request.url.as_str(), "http://localhost:8181/v1/data/basic/allow");
    let result = decision(replied(200, "{\"result\":true}"));
    assert_eq!(Value::Bool(true), result.unwrap().unwrap());

    let input = person("melissa", &["short", "virginia"]);
    let request = client.request("/basic/allow", &input, &()).unwrap();
    assert_eq!(
        request.body,
        "{\"input\":{\"user\":\"melissa\",\"groups\":[\"short\",\"virginia\"]}}"
    );
    let result = decision(replied(200, "{}"));
    assert!(result.is_ok());
    assert!(result.unwrap().is_none());
}

#[test]
fn same_query_twice_gives_the_same_request_and_decision() {
    let client = OpenPolicyAgentHttpClient::new(b"http://localhost:8181/").unwrap();
    let input = person("bob", &["tall", "virginia"]);
    let first = client.request("/basic/allow", &input, &()).unwrap();
    let second = client.request("/basic/allow", &input, &()).unwrap();
    assert_eq!(first.method, second.method);
    assert_eq!(first.url, second.url);
    assert_eq!(first.body, second.body);
    assert_eq!(
        decision(replied(200, "{\"result\":false}")),
        decision(replied(200, "{\"result\":false}"))
    );
}

#[test]
fn data_document_is_not_sent() {
    let client = OpenPolicyAgentHttpClient::new(b"http://localhost:8181/").unwrap();
    let input = person("bob", &["tall", "virginia"]);
    let plain = client.request("/basic/allow", &input, &()).unwrap();
    let with_data = client.request("/basic/allow", &input, &person("x", &["y"])).unwrap();
    assert_eq!(plain.body, with_data.body);
    assert_eq!(plain.url, with_data.url);
}

#[test]
fn reply_without_success_is_a_policy_error() {
    assert_eq!(decision(replied(404, "{\"result\":true}")), Err(OpaClientError::PolicyError));
    assert_eq!(decision(replied(500, "{}")), Err(OpaClientError::PolicyError));
    assert_eq!(decision(replied(199, "{\"result\":true}")), Err(OpaClientError::PolicyError));
    assert_eq!(decision(replied(300, "{\"result\":true}")), Err(OpaClientError::PolicyError));
    assert_eq!(decision(replied(299, "{\"result\":true}")), Ok(Some(Value::Bool(true))));
    assert_eq!(decision(replied(204, "{\"result\":7}")), Ok(Some(Value::from(7))));
}

#[test]
fn missing_reply_is_a_policy_error() {
    assert_eq!(decision(Exchange::<Value>::Unreachable), Err(OpaClientError::PolicyError));
}

#[test]
fn malformed_reply_body_is_a_policy_error() {
    assert_eq!(decision(replied(200, "<html>")), Err(OpaClientError::PolicyError));
    assert_eq!(decision(replied(200, "")), Err(OpaClientError::PolicyError));
    assert_eq!(decision(replied(200, "[true]")), Err(OpaClientError::PolicyError));
    assert_eq!(decision(replied(200, "true")), Err(OpaClientError::PolicyError));
}

#[test]
fn decision_is_generic_in_its_value() {
    let reply = Exchange::Replied { status: 200, body: Some(Output { result: Some(3u8) }) };
    assert_eq!(decision(reply), Ok(Some(3u8)));
    let reply: Exchange<u8> = Exchange::Replied { status: 200, body: Some(Output { result: None }) };
    assert_eq!(decision(reply), Ok(None));
    let reply: Exchange<u8> = Exchange::Replied { status: 200, body: None };
    assert_eq!(decision(reply), Err(OpaClientError::PolicyError));
}

#[test]
fn copy_of_a_client_asks_the_same_server() {
    let client = OpenPolicyAgentHttpClient::new(b"https://opa.example.net:8443/base/").unwrap();
    let copy = client.clone();
    assert_eq!(copy.base_url(), client.base_url());
    let input = person("bob", &[]);
    let first = client.request("a/b", &input, &()).unwrap();
    let second = copy.request("a/b", &input, &()).unwrap();
    assert_eq!(first.url, second.url);
    assert_eq!(first.url.as_str(), "https://opa.example.net:8443/v1/data/a/b");
}
