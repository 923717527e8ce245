use tuicr::codec::decode_request;
use tuicr::json::{ArrayBuilder, Json, ObjectBuilder};
use tuicr::protocol::{
    JsonRpcError, JsonRpcId, JsonRpcNotification, JsonRpcRequest, JsonRpcResponse,
};
use tuicr::text::{decimal, join, str_eq};

#[test]
fn parse_tells_the_kinds_of_numbers_apart() {
    assert!(matches!(Json::parse("0"), Some(Json::Int(0))));
    assert!(matches!(Json::parse("-9223372036854775808"), Some(Json::Int(i64::MIN))));
    assert!(matches!(Json::parse("9223372036854775807"), Some(Json::Int(i64::MAX))));
    assert!(matches!(Json::parse("9223372036854775808"), Some(Json::UInt(9223372036854775808))));
    match Json::parse("1.5") {
        Some(Json::Float(text)) => assert_eq!(text, "1.5"),
        other => panic!("expected a float, got {:?}", other),
    }
    assert!(matches!(Json::parse("null"), Some(Json::Null)));
    assert!(matches!(Json::parse("true"), Some(Json::Bool(true))));
    assert!(Json::parse("").is_none());
    assert!(Json::parse("{\"a\":}").is_none());
    assert!(Json::parse("1 2").is_none());
}

#[test]
fn parse_keeps_members_in_order_and_the_last_of_a_repeated_key() {
    let doc = Json::parse(r#"{"b": 1, "a": [true, null, "x"], "b": 2}"#).unwrap();
    assert_eq!(doc.to_text(), r#"{"b":2,"a":[true,null,"x"]}"#);
    assert_eq!(doc.get("b").unwrap().as_i64(), Some(2));
    assert!(doc.get("c").is_none());
    assert!(doc.get("a").unwrap().get("b").is_none());
}

#[test]
fn text_is_not_handed_back_unchanged() {
    let doc = Json::text("a\"b");
    assert_eq!(doc.to_text(), r#""a\"b""#);
    assert_eq!(Json::Float("2.5e3".to_string()).to_text(), "2500.0");
    assert_eq!(Json::Float("not a number".to_string()).to_text(), "null");
    assert_eq!(Json::UInt(u64::MAX).to_text(), "18446744073709551615");
    assert_eq!(Json::Int(-5).to_text(), "-5");
}

#[test]
fn pretty_text_is_indented() {
    let mut b = ObjectBuilder::new();
    b.put("pid", Json::Int(1));
    let mut items = ArrayBuilder::new();
    items.push(Json::Bool(false));
    b.put("list", items.finish());
    assert_eq!(b.finish().to_text_pretty(), "{\n  \"pid\": 1,\n  \"list\": [\n    false\n  ]\n}");
}

#[test]
fn accessors_read_only_their_kind() {
    assert_eq!(Json::UInt(7).as_i64(), Some(7));
    assert_eq!(Json::UInt(u64::MAX).as_i64(), None);
    assert_eq!(Json::text("7").as_i64(), None);
    assert_eq!(Json::Int(7).as_str(), None);
    assert_eq!(Json::Int(1).as_bool(), None);
    assert!(Json::Null.is_null());
    assert!(!Json::Bool(false).is_null());
    assert!(ObjectBuilder::new().finish().is_object());
    assert!(!ArrayBuilder::new().finish().is_object());
    let mut b = ObjectBuilder::new();
    b.put("a", Json::Null);
    b.put_optional("b", None);
    b.put_optional("c", Some(Json::Int(1)));
    let doc = b.finish();
    assert!(doc.get("a").is_some());
    assert!(doc.get_optional("a").is_none());
    assert!(doc.get("b").is_none());
    assert_eq!(doc.get_optional("c").unwrap().as_i64(), Some(1));
    assert_eq!(doc.get_str("c"), None);
}

#[test]
fn duplicate_is_a_deep_copy() {
    let doc = Json::parse(r#"{"a": {"b": [1, 2.5, "x", null, {"c": false}]}, "d": 18446744073709551615}"#)
        .unwrap();
    let copy = doc.duplicate();
    assert_eq!(copy.to_text(), doc.to_text());
    assert_eq!(doc.clone().to_text(), r#"{"a":{"b":[1,2.5,"x",null,{"c":false}]},"d":18446744073709551615}"#);
}

#[test]
fn request_round_trip_through_text() {
    let requests = vec![
        JsonRpcRequest {
            jsonrpc: "2.0".to_string(),
            id: Some(JsonRpcId::Number(-7)),
            method: "tools/call".to_string(),
            params: Some(Json::parse(r#"{"name":"openFile","arguments":{"filePath":"a","line":1}}"#).unwrap()),
        },
        JsonRpcRequest {
            jsonrpc: "2.0".to_string(),
            id: Some(JsonRpcId::String("abc".to_string())),
            method: "ping".to_string(),
            params: None,
        },
        JsonRpcRequest {
            jsonrpc: "1.0".to_string(),
            id: None,
            method: "".to_string(),
            params: Some(Json::Array(vec![Json::Int(1)])),
        },
    ];
    for req in requests {
        let text = req.encode();
        let back = decode_request(&text).unwrap();
        assert_eq!(back.jsonrpc, req.jsonrpc);
        assert_eq!(back.id, req.id);
        assert_eq!(back.method, req.method);
        assert_eq!(back.params.map(|p| p.to_text()), req.params.map(|p| p.to_text()));
    }
    let req = JsonRpcRequest {
        jsonrpc: "2.0".to_string(),
        id: None,
        method: "m".to_string(),
        params: None,
    };
    assert_eq!(req.encode(), r#"{"jsonrpc":"2.0","id":null,"method":"m","params":null}"#);
}

#[test]
fn response_round_trip_through_text() {
    let responses = vec![
        JsonRpcResponse::success(Some(JsonRpcId::Number(1)), Json::parse(r#"{"ok":[1,2]}"#).unwrap()),
        JsonRpcResponse::error(None, JsonRpcError::parse_error()),
        JsonRpcResponse::error(
            Some(JsonRpcId::String("x".to_string())),
            JsonRpcError {
                code: -32603,
                message: "Internal error: boom".to_string(),
                data: Some(Json::text("detail")),
            },
        ),
    ];
    for resp in responses {
        let text = resp.encode();
        let back = JsonRpcResponse::from_json(&Json::parse(&text).unwrap()).unwrap();
        assert_eq!(back.jsonrpc, resp.jsonrpc);
        assert_eq!(back.id, resp.id);
        assert_eq!(back.result.map(|r| r.to_text()), resp.result.map(|r| r.to_text()));
        match (back.error, resp.error) {
            (Some(a), Some(b)) => {
                assert_eq!(a.code, b.code);
                assert_eq!(a.message, b.message);
                assert_eq!(a.data.map(|d| d.to_text()), b.data.map(|d| d.to_text()));
            }
            (None, None) => {}
            other => panic!("error was lost or made up: {:?}", other),
        }
    }
}

#[test]
fn notification_round_trip_through_text() {
    let n = JsonRpcNotification::new("selection/changed", Some(Json::parse(r#"{"line":3}"#).unwrap()));
    let text = n.encode();
    assert_eq!(text, r#"{"jsonrpc":"2.0","method":"selection/changed","params":{"line":3}}"#);
    let back = JsonRpcNotification::from_json(&Json::parse(&text).unwrap()).unwrap();
    assert_eq!(back.jsonrpc, "2.0");
    assert_eq!(back.method, "selection/changed");
    assert_eq!(back.params.unwrap().to_text(), r#"{"line":3}"#);

    let bare = JsonRpcNotification::new("files/changed", None);
    assert_eq!(bare.encode(), r#"{"jsonrpc":"2.0","method":"files/changed"}"#);
    let back = JsonRpcNotification::from_json(&Json::parse(&bare.encode()).unwrap()).unwrap();
    assert!(back.params.is_none());
}

#[test]
fn null_parameters_are_read_as_absent() {
    let req = decode_request(r#"{"jsonrpc":"2.0","id":null,"method":"m","params":null}"#).unwrap();
    assert!(req.id.is_none());
    assert!(req.params.is_none());
}

#[test]
fn error_messages_name_their_cause() {
    assert_eq!(JsonRpcError::parse_error().message, "Parse error");
    assert_eq!(JsonRpcError::invalid_request("x").message, "Invalid request: x");
    assert_eq!(JsonRpcError::method_not_found("m/n").message, "Method not found: m/n");
    assert_eq!(JsonRpcError::invalid_params("p").message, "Invalid params: p");
    assert_eq!(JsonRpcError::internal_error("e").message, "Internal error: e");
    assert!(JsonRpcError::internal_error("e").data.is_none());
}

#[test]
fn error_object_with_a_code_beyond_32_bits_is_rejected() {
    let doc = Json::parse(r#"{"code": 2147483648, "message": "m"}"#).unwrap();
    assert!(JsonRpcError::from_json(&doc).is_none());
    let doc = Json::parse(r#"{"code": -2147483648, "message": "m"}"#).unwrap();
    assert_eq!(JsonRpcError::from_json(&doc).unwrap().code, i32::MIN);
    let doc = Json::parse(r#"{"code": 1.0, "message": "m"}"#).unwrap();
    assert!(JsonRpcError::from_json(&doc).is_none());
}

#[test]
fn decimal_numerals() {
    assert_eq!(decimal(0), "0");
    assert_eq!(decimal(9), "9");
    assert_eq!(decimal(10), "10");
    assert_eq!(decimal(65535), "65535");
    assert_eq!(decimal(1000000007), "1000000007");
    assert_eq!(decimal(u64::MAX), "18446744073709551615");
    assert_eq!(join("ab", "cd"), "abcd");
    assert!(str_eq("a", "a"));
    assert!(!str_eq("a", "A"));
    assert!(!str_eq("a", "ab"));
}
