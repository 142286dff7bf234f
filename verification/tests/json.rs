use opa_client::json::parse_document;
use opa_client::Input;
use opa_client::OpaClientError;
use opa_client::Output;
use serde_json::Number;
use serde_json::Value;

#[test]
fn document_is_read_from_its_text() {
    let mut expected = serde_json::Map::new();
    expected.insert("user".to_string(), Value::String("bob".to_string()));
    expected.insert("age".to_string(), Value::Number(Number::from(41)));
    assert_eq!(
        parse_document("{\"user\": \"bob\", \"age\": 41}"),
        Ok(Value::Object(expected))
    );
    assert_eq!(parse_document("{}"), Ok(Value::Object(serde_json::Map::new())));
    assert_eq!(parse_document(" null "), Ok(Value::Null));
}

#[test]
fn malformed_input_text_is_a_json_error() {
    assert_eq!(parse_document("user: bob"), Err(OpaClientError::JsonError));
    assert_eq!(parse_document(""), Err(OpaClientError::JsonError));
    assert_eq!(parse_document("{\"user\": }"), Err(OpaClientError::JsonError));
    assert_eq!(parse_document("{} {}"), Err(OpaClientError::JsonError));
}

#[test]
fn wire_form_reads_back_as_the_input() {
    let text = "{\"user\":\"bob\",\"groups\":[\"tall\",\"virginia\"],\"n\":1.5,\"deep\":{\"z\":null,\"a\":[]}}";
    let input = parse_document(text).unwrap();
    let wire = Input::new(&input).wire_text();
    assert_eq!(
        wire,
        "{\"input\":{\"user\":\"bob\",\"groups\":[\"tall\",\"virginia\"],\"n\":1.5,\"deep\":{\"z\":null,\"a\":[]}}}"
    );
    let back = parse_document(&wire).unwrap();
    assert_eq!(back.get("input"), Some(&input));
    assert_eq!(back.as_object().unwrap().len(), 1);
}

#[test]
fn reply_envelope_is_read_from_an_object() {
    let reply = Output::from_wire("{\"result\":true}").unwrap();
    assert_eq!(reply.result, Some(Value::Bool(true)));
    let reply = Output::from_wire("{\"result\":{\"allow\":false}}").unwrap();
    assert_eq!(reply.into_result().unwrap().get("allow"), Some(&Value::Bool(false)));
    let reply = Output::from_wire("{\"decision_id\":\"4\",\"result\":[1]}").unwrap();
    assert_eq!(reply.result, Some(Value::Array(vec![Value::from(1)])));
}

#[test]
fn reply_without_result_carries_no_decision() {
    assert_eq!(Output::from_wire("{}").unwrap().result, None);
    assert_eq!(Output::from_wire("{\"result\":null}").unwrap().result, None);
    assert_eq!(Output::from_wire("{\"results\":true}").unwrap().result, None);
}

#[test]
fn reply_that_is_no_object_is_no_envelope() {
    assert!(Output::from_wire("[true]").is_none());
    assert!(Output::from_wire("true").is_none());
    assert!(Output::from_wire("null").is_none());
    assert!(Output::from_wire("\"result\"").is_none());
    assert!(Output::from_wire("{\"result\":").is_none());
    assert!(Output::from_value(&Value::Array(vec![])).is_none());
    assert!(Output::from_value(&Value::Object(serde_json::Map::new())).is_some());
}
