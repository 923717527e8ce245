use tuicr::command::IdeCommand;
use tuicr::handlers::{
    command_handled, dispatch_tool, handle_initialize, handle_method, handle_ping,
    handle_tools_call, handle_tools_list, MethodStep,
};
use tuicr::json::{Json, ObjectBuilder};
use tuicr::mcp::{ToolContent, ToolsCallResult};
use tuicr::protocol::{JsonRpcId, JsonRpcResponse};
use tuicr::state::IdeState;
use tuicr::tools::{command_sent, ToolStep};

fn respond(step: MethodStep) -> JsonRpcResponse {
    match step {
        MethodStep::Respond(r) => r,
        other => panic!("expected a response, got {:?}", other),
    }
}

fn done(step: ToolStep) -> ToolsCallResult {
    match step {
        ToolStep::Done(r) => r,
        other => panic!("expected an answer, got {:?}", other),
    }
}

fn first_text(result: &ToolsCallResult) -> &str {
    match &result.content[0] {
        ToolContent::Text { text } => text,
    }
}

fn parse(text: &str) -> Json {
    Json::parse(text).unwrap()
}

#[test]
fn handle_initialize_returns_server_info() {
    let params = parse(
        r#"{"protocolVersion": "2024-11-05", "capabilities": {}, "clientInfo": {"name": "test-client"}}"#,
    );

    let response = handle_initialize(Some(params), Some(JsonRpcId::Number(1)));

    assert!(response.error.is_none());
    assert!(response.result.is_some());

    let result = response.result.unwrap();
    assert_eq!(result.get("protocolVersion").unwrap().as_str(), Some("2024-11-05"));
    assert_eq!(
        result.get("serverInfo").unwrap().get("name").unwrap().as_str(),
        Some("tuicr")
    );
}

#[test]
fn handle_initialize_without_params_returns_error() {
    let response = handle_initialize(None, Some(JsonRpcId::Number(1)));

    assert!(response.error.is_some());
    assert_eq!(response.error.unwrap().code, -32602);
}

#[test]
fn handle_ping_returns_empty_object() {
    let response = handle_ping(Some(JsonRpcId::Number(1)));

    assert!(response.error.is_none());
    assert_eq!(response.result.unwrap().to_text(), "{}");
}

#[test]
fn handle_tools_list_returns_all_tools() {
    let response = handle_tools_list(Some(JsonRpcId::Number(1)));

    assert!(response.error.is_none());
    let result = response.result.unwrap();
    let tools = match result.get("tools").unwrap() {
        Json::Array(items) => items,
        other => panic!("expected an array, got {:?}", other),
    };

    assert_eq!(tools.len(), 5);

    let tool_names: Vec<&str> =
        tools.iter().map(|t| t.get("name").unwrap().as_str().unwrap()).collect();
    assert!(tool_names.contains(&"getCurrentSelection"));
    assert!(tool_names.contains(&"getOpenEditors"));
    assert!(tool_names.contains(&"getWorkspaceFolders"));
    assert!(tool_names.contains(&"getDiagnostics"));
    assert!(tool_names.contains(&"openFile"));
}

#[test]
fn handle_method_returns_none_for_notifications() {
    let state = IdeState::new();

    let response = handle_method("initialized", None, None, &state);
    assert!(matches!(response, MethodStep::NoResponse));

    let response = handle_method("notifications/cancelled", None, None, &state);
    assert!(matches!(response, MethodStep::NoResponse));
}

#[test]
fn handle_method_returns_error_for_unknown_method() {
    let state = IdeState::new();

    let response = handle_method("unknown/method", None, Some(JsonRpcId::Number(1)), &state);

    let resp = respond(response);
    assert!(resp.error.is_some());
    assert_eq!(resp.error.unwrap().code, -32601);
}

#[test]
fn handle_tools_call_with_missing_params_returns_error() {
    let state = IdeState::new();

    let response = handle_method("tools/call", None, Some(JsonRpcId::Number(1)), &state);

    let resp = respond(response);
    assert!(resp.error.is_some());
    assert_eq!(resp.error.unwrap().code, -32602);
}

#[test]
fn dispatch_unknown_tool_returns_error() {
    let state = IdeState::new();

    let result = done(dispatch_tool("unknownTool", &Vec::new(), &state));

    assert!(result.is_error);
    assert!(first_text(&result).contains("Unknown tool"));
    assert_eq!(first_text(&result), r#"{"error": "Unknown tool: unknownTool"}"#);
}

#[test]
fn dispatch_get_current_selection_when_no_selection() {
    let state = IdeState::new();

    let result = done(dispatch_tool("getCurrentSelection", &Vec::new(), &state));

    assert!(!result.is_error);
    assert!(first_text(&result).contains("No selection"));
}

#[test]
fn dispatch_get_open_editors_returns_empty_list() {
    let state = IdeState::new();

    let result = done(dispatch_tool("getOpenEditors", &Vec::new(), &state));

    assert!(!result.is_error);
    assert_eq!(first_text(&result), "[]");
}

#[test]
fn dispatch_get_workspace_folders_returns_empty_list() {
    let state = IdeState::new();

    let result = done(dispatch_tool("getWorkspaceFolders", &Vec::new(), &state));

    assert!(!result.is_error);
    assert_eq!(first_text(&result), "[]");
}

#[test]
fn dispatch_open_file_without_path_returns_error() {
    let state = IdeState::new();

    let result = done(dispatch_tool("openFile", &Vec::new(), &state));

    assert!(result.is_error);
    assert!(first_text(&result).contains("Missing required parameter"));
}

#[test]
fn dispatch_open_file_sends_command() {
    let state = IdeState::new();

    let args = vec![
        ("filePath".to_string(), Json::text("test.rs")),
        ("line".to_string(), Json::Int(42)),
    ];

    let step = dispatch_tool("openFile", &args, &state);

    let result = command_sent(None);
    assert!(!result.is_error);

    match step {
        ToolStep::Send(IdeCommand::OpenFile { path, line }) => {
            assert_eq!(path, "test.rs");
            assert_eq!(line, Some(42));
        }
        other => panic!("expected a command, got {:?}", other),
    }
}

#[test]
fn tools_call_with_unusable_params_is_invalid_params() {
    let state = IdeState::new();
    for params in [
        r#"{}"#,
        r#"{"name": 5}"#,
        r#"{"name": "openFile", "arguments": []}"#,
        r#"{"name": "openFile", "arguments": null}"#,
        r#"[1, 2]"#,
        r#""openFile""#,
    ] {
        let step = handle_tools_call(Some(parse(params)), Some(JsonRpcId::Number(3)), &state);
        let resp = respond(step);
        assert!(resp.result.is_none());
        assert_eq!(resp.error.unwrap().code, -32602);
        assert_eq!(resp.id, Some(JsonRpcId::Number(3)));
    }
}

#[test]
fn tools_call_of_open_file_without_path_is_a_successful_response() {
    let state = IdeState::new();
    let step = handle_method(
        "tools/call",
        Some(parse(r#"{"name": "openFile", "arguments": {"line": 3}}"#)),
        Some(JsonRpcId::String("a".to_string())),
        &state,
    );
    let resp = respond(step);
    assert!(resp.error.is_none());
    let result = resp.result.unwrap();
    assert_eq!(result.get("isError").unwrap().as_bool(), Some(true));
    let text = match result.get("content").unwrap() {
        Json::Array(items) => items[0].get("text").unwrap().as_str().unwrap().to_string(),
        other => panic!("expected an array, got {:?}", other),
    };
    assert_eq!(text, r#"{"success":false,"error":"Missing required parameter: filePath"}"#);
}

#[test]
fn tools_call_of_open_file_hands_the_command_over_with_the_id() {
    let state = IdeState::new();
    let step = handle_method(
        "tools/call",
        Some(parse(r#"{"name": "openFile", "arguments": {"filePath": "src/main.rs"}}"#)),
        Some(JsonRpcId::Number(9)),
        &state,
    );
    match step {
        MethodStep::Send { id, command: IdeCommand::OpenFile { path, line } } => {
            assert_eq!(id, JsonRpcId::Number(9));
            assert_eq!(path, "src/main.rs");
            assert_eq!(line, None);
        }
        other => panic!("expected a command, got {:?}", other),
    }
}

#[test]
fn command_handled_reports_success_and_failure() {
    let ok = command_handled(JsonRpcId::Number(1), None);
    assert!(ok.error.is_none());
    assert_eq!(
        ok.encode(),
        r#"{"jsonrpc":"2.0","id":1,"result":{"content":[{"type":"text","text":"{\"success\":true}"}]}}"#
    );

    let failed = command_handled(JsonRpcId::Number(1), Some("channel closed"));
    assert!(failed.error.is_none());
    let result = failed.result.unwrap();
    assert_eq!(result.get("isError").unwrap().as_bool(), Some(true));
    let text = match result.get("content").unwrap() {
        Json::Array(items) => items[0].get("text").unwrap().as_str().unwrap().to_string(),
        other => panic!("expected an array, got {:?}", other),
    };
    assert_eq!(text, r#"{"success":false,"error":"Failed to send command: channel closed"}"#);
}

#[test]
fn initialize_with_unusable_params_is_invalid_params() {
    for params in [
        r#"{}"#,
        r#"{"protocolVersion": "2024-11-05", "capabilities": {}}"#,
        r#"{"protocolVersion": 1, "capabilities": {}, "clientInfo": {"name": "c"}}"#,
        r#"{"protocolVersion": "2024-11-05", "capabilities": 3, "clientInfo": {"name": "c"}}"#,
        r#"{"protocolVersion": "2024-11-05", "capabilities": {"roots": {"listChanged": "yes"}}, "clientInfo": {"name": "c"}}"#,
        r#"{"protocolVersion": "2024-11-05", "capabilities": {}, "clientInfo": {"version": "1"}}"#,
        r#"{"protocolVersion": "2024-11-05", "capabilities": {}, "clientInfo": {"name": "c", "version": 2}}"#,
    ] {
        let response = handle_initialize(Some(parse(params)), Some(JsonRpcId::Number(1)));
        assert!(response.result.is_none(), "{params}");
        assert_eq!(response.error.unwrap().code, -32602, "{params}");
    }
}

#[test]
fn initialize_accepts_optional_parts() {
    let params = parse(
        r#"{"protocolVersion": "2024-11-05", "capabilities": {"roots": {"listChanged": true}, "sampling": {"x": 1.5}}, "clientInfo": {"name": "c", "version": null}, "extra": [1]}"#,
    );
    let response = handle_initialize(Some(params), None);
    assert!(response.error.is_none());
    assert_eq!(
        response.encode(),
        "{\"jsonrpc\":\"2.0\",\"result\":{\"protocolVersion\":\"2024-11-05\",\"capabilities\":{\"tools\":{\"listChanged\":false}},\"serverInfo\":{\"name\":\"tuicr\",\"version\":\"0.7.2\"},\"instructions\":\"tuicr is a TUI code review tool. You can query the current selection, open files, workspace, and review comments (diagnostics). Use openFile to navigate to specific files in the diff viewer.\"}}"
    );
}

#[test]
fn ping_with_an_id_is_answered() {
    let state = IdeState::new();
    let resp = respond(handle_method("ping", None, Some(JsonRpcId::Number(0)), &state));
    assert_eq!(resp.encode(), r#"{"jsonrpc":"2.0","id":0,"result":{}}"#);
}

#[test]
fn method_without_id_is_not_answered() {
    let state = IdeState::new();
    let initialize = r#"{"protocolVersion": "2024-11-05", "capabilities": {}, "clientInfo": {"name": "c"}}"#;
    let cases: Vec<(&str, Option<Json>)> = vec![
        ("ping", None),
        ("initialize", Some(parse(initialize))),
        ("initialize", None),
        ("initialized", None),
        ("tools/list", None),
        ("tools/call", None),
        ("tools/call", Some(parse(r#"{"name": 5}"#))),
        ("tools/call", Some(parse(r#"{"name": "getOpenEditors"}"#))),
        ("tools/call", Some(parse(r#"{"name": "getWorkspaceFolders"}"#))),
        ("tools/call", Some(parse(r#"{"name": "openFile"}"#))),
        ("tools/call", Some(parse(r#"{"name": "noSuchTool"}"#))),
        ("notifications/cancelled", None),
        ("unknown/method", None),
        ("", None),
    ];
    for (method, params) in cases {
        let step = handle_method(method, params, None, &state);
        assert!(matches!(step, MethodStep::NoResponse), "{method}: {:?}", step);
    }
}

#[test]
fn open_file_without_id_is_performed_and_not_answered() {
    let state = IdeState::new();
    let params = parse(r#"{"name": "openFile", "arguments": {"filePath": "a.rs", "line": 3}}"#);
    match handle_method("tools/call", Some(params), None, &state) {
        MethodStep::Perform { command: IdeCommand::OpenFile { path, line } } => {
            assert_eq!(path, "a.rs");
            assert_eq!(line, Some(3));
        }
        other => panic!("expected a command without a response, got {:?}", other),
    }
    let params = parse(r#"{"name": "openFile", "arguments": {"filePath": "a.rs"}}"#);
    assert!(matches!(
        handle_tools_call(Some(params), None, &state),
        MethodStep::Perform { .. }
    ));
}

#[test]
fn empty_object_is_built_by_the_builder() {
    assert_eq!(ObjectBuilder::new().finish().to_text(), "{}");
}
