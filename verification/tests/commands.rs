use serde_json::Value;
use tauri_python_sidecar::commands::{
    after_exchange, is_long_running, is_method_allowed, parse_jsonrpc_response, request_text,
    response_outcome, sidecar_request, ErrorMember, ServerOutcome,
};
use tauri_python_sidecar::exchange::{Action, Phase};

fn value(text: &str) -> Value {
    serde_json::from_str(text).unwrap()
}

#[test]
fn test_is_method_allowed_accepts_known_methods() {
    assert!(is_method_allowed("ping"));
    assert!(is_method_allowed("echo"));
    assert!(is_method_allowed("get_status"));
}

#[test]
fn test_is_method_allowed_rejects_unknown_methods() {
    assert!(!is_method_allowed("definitely_not_a_method"));
    assert!(!is_method_allowed(""));
    assert!(!is_method_allowed("eval"));
    assert!(!is_method_allowed("PING")); // case-sensitive
}

#[test]
fn test_parse_jsonrpc_response_extracts_result() {
    let response_str = r#"{"jsonrpc":"2.0","id":1,"result":{"echo":"abc123"}}"#;
    let result = parse_jsonrpc_response(response_str).unwrap();
    assert_eq!(result["echo"], "abc123");
}

#[test]
fn test_parse_jsonrpc_response_returns_error() {
    let response_str =
        r#"{"jsonrpc":"2.0","id":1,"error":{"code":-32602,"message":"Invalid params"}}"#;
    let err = parse_jsonrpc_response(response_str).unwrap_err();
    assert!(err.contains("-32602"));
    assert!(err.contains("Invalid params"));
}

#[test]
fn test_parse_jsonrpc_response_missing_result() {
    let response_str = r#"{"jsonrpc":"2.0","id":1}"#;
    let err = parse_jsonrpc_response(response_str).unwrap_err();
    assert!(err.contains("Missing result"));
}

#[test]
fn test_parse_jsonrpc_response_ignores_null_error() {
    let response_str = r#"{"jsonrpc":"2.0","id":1,"error":null,"result":{"ok":true}}"#;
    let result = parse_jsonrpc_response(response_str).unwrap();
    assert_eq!(result["ok"], true);
}

#[test]
fn response_errors_are_compact_and_win_over_results() {
    let err =
        parse_jsonrpc_response(r#"{"result": 1, "error": { "code" : 7 , "a": [1, 2] }}"#).unwrap_err();
    assert!(err == r#"{"code":7,"a":[1,2]}"# || err == r#"{"a":[1,2],"code":7}"#);
    assert_eq!(parse_jsonrpc_response(r#"{"error":false,"result":1}"#).unwrap_err(), "false");
    assert_eq!(
        parse_jsonrpc_response("[1,2]").unwrap_err(),
        "Missing result in JSON-RPC response"
    );
    assert_eq!(parse_jsonrpc_response(r#"{"result":null}"#).unwrap(), Value::Null);
}

#[test]
fn response_that_is_no_json_is_an_error() {
    let err = parse_jsonrpc_response("nonsense").unwrap_err();
    assert_eq!(err, "Failed to parse JSON response: expected ident at line 1 column 2");
}

#[test]
fn outcome_prefers_an_error_that_is_not_null() {
    let error = |is_null: bool| Some(ErrorMember { is_null, text: "boom".to_string() });
    assert_eq!(response_outcome(error(false), Some(value("1"))), Err("boom".to_string()));
    assert_eq!(response_outcome(error(true), Some(value("1"))), Ok(value("1")));
    assert_eq!(response_outcome(None, Some(value("2"))), Ok(value("2")));
    assert_eq!(
        response_outcome(None, None),
        Err("Missing result in JSON-RPC response".to_string())
    );
}

#[test]
fn request_holds_method_and_params() {
    let text = request_text("echo", &value(r#"{"text":"a\nb"}"#));
    assert!(!text.contains('\n'));
    let parsed = value(&text);
    assert_eq!(parsed["jsonrpc"], "2.0");
    assert_eq!(parsed["id"], 1);
    assert_eq!(parsed["method"], "echo");
    assert_eq!(parsed["params"]["text"], "a\nb");
    assert_eq!(parsed.as_object().unwrap().len(), 4);
}

#[test]
fn allowed_request_starts_an_exchange() {
    let start = sidecar_request("ping", &value("{}")).unwrap();
    assert_eq!(start.exchange.request, start.request);
    assert_eq!(start.exchange.read_timeout_secs, 30);
    assert!(!start.exchange.streaming);
    assert_eq!(start.exchange.phase, Phase::Connecting);
    match start.action {
        Action::Connect { address, timeout_secs } => {
            assert_eq!(address, "127.0.0.1:9124");
            assert_eq!(timeout_secs, 2);
        }
        other => panic!("unexpected action {:?}", other),
    }
}

#[test]
fn disallowed_request_is_rejected() {
    let reason = sidecar_request("eval", &value("{}")).unwrap_err();
    assert_eq!(reason, "Method not allowed: eval");
    assert!(!is_long_running("ping"));
    assert!(!is_long_running(""));
}

#[test]
fn only_a_connect_error_falls_back() {
    assert!(matches!(
        after_exchange(Err("[connect] Failed to connect to sidecar: refused".to_string())),
        ServerOutcome::FallBack
    ));
    match after_exchange(Err("Failed to read response: timed out".to_string())) {
        ServerOutcome::Settled(Err(reason)) => {
            assert_eq!(reason, "Failed to read response: timed out")
        }
        other => panic!("unexpected outcome {:?}", other),
    }
    match after_exchange(Err("connect] [connect] ".to_string())) {
        ServerOutcome::Settled(Err(_)) => {}
        other => panic!("unexpected outcome {:?}", other),
    }
    match after_exchange(Ok(r#"{"result":{"pong":true}}"#.to_string())) {
        ServerOutcome::Settled(Ok(result)) => assert_eq!(result["pong"], true),
        other => panic!("unexpected outcome {:?}", other),
    }
}
