use unetic_core::api::{ApiMethod, dispatch_parsed, dispatch_request, parse_json, text_field};
use unetic_core::errors::{ErrorCode, ErrorStage};
use unetic_core::json::Json;
use unetic_core::tools::ping_target;

#[test]
fn a_request_text_is_read_as_json() {
    let value = parse_json(r#"{"b": [1, 2.5, "x"], "a": null, "c": true}"#).unwrap();
    let expected = Json::Object(vec![
        ("a".to_string(), Json::Null),
        (
            "b".to_string(),
            Json::Array(vec![
                Json::Number("1".to_string()),
                Json::Number("2.5".to_string()),
                Json::Text("x".to_string()),
            ]),
        ),
        ("c".to_string(), Json::Bool(true)),
    ]);
    assert_eq!(value, expected);
    assert!(parse_json("{").is_err());
    assert!(parse_json("").is_err());
}

#[test]
fn text_that_is_not_json_is_refused_before_the_method_is_looked_at() {
    let err = dispatch_request("state", "{not json").unwrap_err();
    assert_eq!(err.code, ErrorCode::InvalidArgument);
    assert_eq!(err.stage, ErrorStage::Validate);
    assert!(err.message.starts_with("invalid JSON request: "));
    assert!(err.message.len() > "invalid JSON request: ".len());
    let err = dispatch_request("no.such.method", "{not json").unwrap_err();
    assert!(err.message.starts_with("invalid JSON request: "));
}

#[test]
fn a_known_method_comes_back_with_its_request() {
    let (method, request) = dispatch_request("wan.set_config", r#"{"request_id": "r1"}"#).unwrap();
    assert_eq!(method, ApiMethod::WanSet);
    assert_eq!(request, Json::Object(vec![("request_id".to_string(), Json::Text("r1".to_string()))]));
    let (method, request) = dispatch_request("state", "{}").unwrap();
    assert_eq!(method, ApiMethod::State);
    assert_eq!(request, Json::Object(vec![]));
}

#[test]
fn an_unknown_method_with_valid_json_is_refused() {
    let err = dispatch_request("wifi.explode", "{}").unwrap_err();
    assert_eq!(err.code, ErrorCode::InvalidArgument);
    assert_eq!(err.message, "unknown Unetic method: wifi.explode");
}

#[test]
fn dispatch_of_a_read_value_or_a_read_failure() {
    let err = dispatch_parsed("state", Err("EOF while parsing".to_string())).unwrap_err();
    assert_eq!(err.message, "invalid JSON request: EOF while parsing");
    let (method, request) = dispatch_parsed("health.get", Ok(Json::Null)).unwrap();
    assert_eq!(method, ApiMethod::HealthGet);
    assert_eq!(request, Json::Null);
}

#[test]
fn a_ping_request_names_its_host() {
    let (method, request) = dispatch_request("tools.ping", r#"{"host":"127.0.0.1"}"#).unwrap();
    assert_eq!(method, ApiMethod::ToolsPing);
    let host = text_field(&request, "host").unwrap();
    assert_eq!(ping_target(&host).unwrap(), "127.0.0.1");

    let (_, request) = dispatch_request("tools.ping", r#"{"host":""}"#).unwrap();
    let host = text_field(&request, "host").unwrap();
    assert_eq!(ping_target(&host).unwrap_err().code, ErrorCode::InvalidArgument);
}

#[test]
fn a_text_field_is_read_only_where_text_stands() {
    let (_, request) = dispatch_request("maintenance.enter", r#"{"reason":"firmware","n":3}"#).unwrap();
    assert_eq!(text_field(&request, "reason").as_deref(), Some("firmware"));
    assert_eq!(text_field(&request, "n"), None);
    assert_eq!(text_field(&request, "missing"), None);
    assert_eq!(text_field(&Json::Text("reason".to_string()), "reason"), None);
}
