use tuicr::handlers::SERVER_VERSION;
use tuicr::json::{find_member, Json};
use tuicr::lockfile::{
    io_failure, lock_dir, lock_file_location, lock_file_name, plan_lock_file, transport_address,
    LockFileAction, LockFileError, LOCK_DIR_NAME,
};
use tuicr::mcp::{
    InitializeParams, InitializeResult, ServerCapabilities, ServerInfo, ToolContent,
    ToolsCallParams, ToolsCallResult, ToolsCapability, MCP_PROTOCOL_VERSION,
};
use tuicr::payloads::{
    Diagnostic, DiagnosticSeverity, LockFileContent, Position, SelectionRange, SelectionResult,
};

#[test]
fn initialize_params_deserializes() {
    let json = r#"{
            "protocolVersion": "2024-11-05",
            "capabilities": {},
            "clientInfo": {"name": "ide-client", "version": "1.0"}
        }"#;
    let params = InitializeParams::from_json(&Json::parse(json).unwrap()).unwrap();
    assert_eq!(params.protocol_version, "2024-11-05");
    assert_eq!(params.client_info.name, "ide-client");
}

#[test]
fn initialize_result_serializes() {
    let result = InitializeResult {
        protocol_version: MCP_PROTOCOL_VERSION.to_string(),
        capabilities: ServerCapabilities {
            tools: Some(ToolsCapability { list_changed: false }),
            resources: None,
            prompts: None,
        },
        server_info: ServerInfo { name: "tuicr".to_string(), version: Some("1.0".to_string()) },
        instructions: Some("test".to_string()),
    };
    let json = result.to_json().to_text();
    assert!(json.contains(r#""protocolVersion":"2024-11-05""#));
    assert!(json.contains(r#""name":"tuicr""#));
}

#[test]
fn tools_call_params_deserializes() {
    let json = r#"{"name": "getCurrentSelection", "arguments": {"key": "value"}}"#;
    let params = ToolsCallParams::from_json(&Json::parse(json).unwrap()).unwrap();
    assert_eq!(params.name, "getCurrentSelection");
    assert_eq!(find_member(&params.arguments, "key").unwrap().as_str(), Some("value"));
}

#[test]
fn tools_call_params_with_empty_arguments() {
    let json = r#"{"name": "getOpenEditors"}"#;
    let params = ToolsCallParams::from_json(&Json::parse(json).unwrap()).unwrap();
    assert_eq!(params.name, "getOpenEditors");
    assert!(params.arguments.is_empty());
}

#[test]
fn tool_content_text_serializes() {
    let content = ToolContent::text("hello");
    let json = content.to_json().to_text();
    assert!(json.contains(r#""type":"text""#));
    assert!(json.contains(r#""text":"hello""#));
}

#[test]
fn tools_call_result_serializes() {
    let result = ToolsCallResult { content: vec![ToolContent::text("result")], is_error: false };
    let json = result.to_json().to_text();
    assert!(json.contains(r#""content""#));
    assert!(!json.contains(r#""isError""#));
}

#[test]
fn tools_call_result_with_error_serializes() {
    let result =
        ToolsCallResult { content: vec![ToolContent::text("error message")], is_error: true };
    let json = result.to_json().to_text();
    assert!(json.contains(r#""isError":true"#));
}

#[test]
fn selection_result_serializes() {
    let result = SelectionResult {
        file_path: "/path/to/file.rs".to_string(),
        text: "selected text".to_string(),
        selection: SelectionRange {
            start: Position { line: 10, character: 0 },
            end: Position { line: 15, character: 0 },
        },
    };
    let json = result.to_json().to_text();
    assert!(json.contains(r#""filePath":"/path/to/file.rs""#));
    assert!(json.contains(r#""line":10"#));
}

#[test]
fn diagnostic_severity_serializes() {
    let diag = Diagnostic {
        file_path: "test.rs".to_string(),
        range: SelectionRange {
            start: Position { line: 1, character: 0 },
            end: Position { line: 1, character: 0 },
        },
        message: "test".to_string(),
        severity: DiagnosticSeverity::Error,
        source: Some("tuicr".to_string()),
    };
    let json = diag.to_json().to_text();
    assert!(json.contains(r#""severity":"error""#));
}

#[test]
fn lock_file_content_serializes() {
    let content = LockFileContent {
        pid: 12345,
        workspace_path: "/path/to/repo".to_string(),
        transport: "ws://127.0.0.1:8080".to_string(),
        ide_name: "tuicr".to_string(),
        ide_version: Some("0.7.2".to_string()),
    };
    let json = content.to_json().to_text();
    assert!(json.contains(r#""pid":12345"#));
    assert!(json.contains(r#""workspacePath":"/path/to/repo""#));
    assert!(json.contains(r#""ideName":"tuicr""#));
}

#[test]
fn lock_file_error_display() {
    let err = LockFileError::NoHomeDir;
    assert_eq!(err.message(), "Could not determine home directory");

    let err = LockFileError::Io("test error".to_string());
    assert!(err.message().contains("test error"));

    let err = LockFileError::Serialize("serialize error".to_string());
    assert!(err.message().contains("serialize error"));
}

#[test]
fn lock_file_create_and_cleanup() {
    let content = LockFileContent {
        pid: 4242,
        workspace_path: "/test/path".to_string(),
        transport: "ws://127.0.0.1:12345".to_string(),
        ide_name: "tuicr".to_string(),
        ide_version: Some("0.7.2".to_string()),
    };
    let json = content.file_text();

    assert!(json.contains("tuicr"));
    assert!(json.contains("/test/path"));
    assert!(json.contains("ws://127.0.0.1:12345"));

    let parsed = LockFileContent::from_json(&Json::parse(&json).unwrap()).unwrap();
    assert_eq!(parsed.ide_name, "tuicr");
    assert_eq!(parsed.workspace_path, "/test/path");
    assert_eq!(parsed.pid, 4242);
    assert_eq!(parsed.ide_version.as_deref(), Some(SERVER_VERSION));
}

#[test]
fn lock_dir_returns_path() {
    let client_dir = ".client";
    let dir = lock_dir(Some("/home/ada"), client_dir);
    assert!(dir.is_some());
    let dir = dir.unwrap();
    assert_eq!(dir.len(), 3);
    assert!(dir.ends_with(&[client_dir.to_string(), "ide".to_string()]));
    assert_eq!(dir, vec!["/home/ada", ".client", "ide"]);
    assert!(lock_dir(None, client_dir).is_none());
}

#[test]
fn discovery_record_lies_below_the_home_directory() {
    assert_eq!(LOCK_DIR_NAME, "ide");
    assert_eq!(lock_file_name(8080), "8080.lock");
    assert_eq!(lock_file_name(0), "0.lock");
    assert_eq!(lock_file_name(65535), "65535.lock");
    assert_eq!(transport_address(65535), "ws://127.0.0.1:65535");
    assert_eq!(
        lock_file_location(Some("/home/ada"), ".client", 4711).unwrap(),
        vec!["/home/ada", ".client", "ide", "4711.lock"]
    );
    assert_eq!(
        lock_file_location(Some("/root"), ".other", 1).unwrap(),
        vec!["/root", ".other", "ide", "1.lock"]
    );
    assert!(matches!(
        lock_file_location(None, ".client", 4711),
        Err(LockFileError::NoHomeDir)
    ));
}

#[test]
fn discovery_plan_holds_the_place_and_the_record() {
    let plan = plan_lock_file(Some("/home/ada"), ".client", 99, 4711, "/work/repo").unwrap();
    assert_eq!(plan.location, vec!["/home/ada", ".client", "ide", "4711.lock"]);
    assert_eq!(
        plan.text,
        "{\n  \"pid\": 99,\n  \"workspacePath\": \"/work/repo\",\n  \"transport\": \"ws://127.0.0.1:4711\",\n  \"ideName\": \"tuicr\",\n  \"ideVersion\": \"0.7.2\"\n}"
    );
    assert!(matches!(
        plan_lock_file(None, ".client", 99, 4711, "/work/repo"),
        Err(LockFileError::NoHomeDir)
    ));
}

#[test]
fn io_failures_name_what_failed() {
    let text = |action| match io_failure(action, "denied") {
        LockFileError::Io(msg) => msg,
        other => panic!("expected an I/O error, got {:?}", other),
    };
    assert_eq!(text(LockFileAction::CreateDirectory), "Failed to create lock directory: denied");
    assert_eq!(text(LockFileAction::Write), "Failed to write lock file: denied");
    assert_eq!(text(LockFileAction::Remove), "Failed to remove lock file: denied");
    assert_eq!(
        io_failure(LockFileAction::Write, "denied").message(),
        "Lock file I/O error: Failed to write lock file: denied"
    );
}
