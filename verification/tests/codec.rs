use tuicr::codec::decode_request;
use tuicr::json::Json;
use tuicr::protocol::{JsonRpcError, JsonRpcId, JsonRpcResponse};

#[test]
fn json_rpc_request_deserializes() {
    let json = r#"{"jsonrpc":"2.0","id":1,"method":"initialize","params":{}}"#;
    let req = decode_request(json).unwrap();
    assert_eq!(req.jsonrpc, "2.0");
    assert_eq!(req.method, "initialize");
    assert_eq!(req.id, Some(JsonRpcId::Number(1)));
}

#[test]
fn json_rpc_request_with_string_id() {
    let json = r#"{"jsonrpc":"2.0","id":"abc-123","method":"test"}"#;
    let req = decode_request(json).unwrap();
    assert_eq!(req.id, Some(JsonRpcId::String("abc-123".to_string())));
}

#[test]
fn json_rpc_request_without_id() {
    let json = r#"{"jsonrpc":"2.0","method":"initialized"}"#;
    let req = decode_request(json).unwrap();
    assert_eq!(req.id, None);
}

#[test]
fn json_rpc_response_success_serializes() {
    let mut result = tuicr::json::ObjectBuilder::new();
    result.put("result", Json::text("ok"));
    let response = JsonRpcResponse::success(Some(JsonRpcId::Number(1)), result.finish());
    let json = response.encode();
    assert!(json.contains(r#""jsonrpc":"2.0""#));
    assert!(json.contains(r#""id":1"#));
    assert!(json.contains(r#""result""#));
    assert!(!json.contains(r#""error""#));
}

#[test]
fn json_rpc_response_error_serializes() {
    let response = JsonRpcResponse::error(
        Some(JsonRpcId::Number(1)),
        JsonRpcError::method_not_found("unknown"),
    );
    let json = response.encode();
    assert!(json.contains(r#""error""#));
    assert!(json.contains(r#""code":-32601"#));
    assert!(!json.contains(r#""result""#));
}

#[test]
fn json_rpc_error_codes_are_correct() {
    assert_eq!(JsonRpcError::parse_error().code, -32700);
    assert_eq!(JsonRpcError::invalid_request("test").code, -32600);
    assert_eq!(JsonRpcError::method_not_found("test").code, -32601);
    assert_eq!(JsonRpcError::invalid_params("test").code, -32602);
    assert_eq!(JsonRpcError::internal_error("test").code, -32603);
}
