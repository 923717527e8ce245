use tuicr::command::IdeCommand;
use tuicr::protocol::JsonRpcId;
use tuicr::server::{
    command_reply, handle_message, on_frame, ConnectionError, FrameAction, Incoming, MessageStep,
    ServerError, ServerState,
};
use tuicr::state::IdeState;

fn reply(step: MessageStep) -> String {
    match step {
        MessageStep::Reply(text) => text,
        other => panic!("expected a reply, got {:?}", other),
    }
}

#[test]
fn malformed_message_yields_parse_error() {
    let state = IdeState::new();
    for text in ["", "{", "not json", "[1,2]", "42", r#"{"jsonrpc":"2.0"}"#, r#"{"method":"ping"}"#]
    {
        assert_eq!(
            reply(handle_message(text, &state)),
            r#"{"jsonrpc":"2.0","error":{"code":-32700,"message":"Parse error"}}"#,
            "{text}"
        );
    }
}

#[test]
fn id_that_is_neither_integer_nor_string_yields_parse_error() {
    let state = IdeState::new();
    for text in [
        r#"{"jsonrpc":"2.0","id":1.5,"method":"ping"}"#,
        r#"{"jsonrpc":"2.0","id":true,"method":"ping"}"#,
        r#"{"jsonrpc":"2.0","id":{},"method":"ping"}"#,
        r#"{"jsonrpc":"2.0","id":18446744073709551615,"method":"ping"}"#,
    ] {
        assert_eq!(
            reply(handle_message(text, &state)),
            r#"{"jsonrpc":"2.0","error":{"code":-32700,"message":"Parse error"}}"#,
            "{text}"
        );
    }
}

#[test]
fn mismatched_version_yields_invalid_request() {
    let state = IdeState::new();
    assert_eq!(
        reply(handle_message(r#"{"jsonrpc":"1.0","id":7,"method":"ping"}"#, &state)),
        r#"{"jsonrpc":"2.0","id":7,"error":{"code":-32600,"message":"Invalid request: Expected jsonrpc version 2.0"}}"#
    );
}

#[test]
fn ping_is_answered_with_an_empty_result() {
    let state = IdeState::new();
    assert_eq!(
        reply(handle_message(r#"{"jsonrpc":"2.0","id":"p-1","method":"ping"}"#, &state)),
        r#"{"jsonrpc":"2.0","id":"p-1","result":{}}"#
    );
    assert_eq!(
        reply(handle_message(
            r#"{"jsonrpc":"2.0","id":-3,"method":"ping","params":null}"#,
            &state
        )),
        r#"{"jsonrpc":"2.0","id":-3,"result":{}}"#
    );
}

#[test]
fn unknown_method_yields_method_not_found() {
    let state = IdeState::new();
    assert_eq!(
        reply(handle_message(r#"{"jsonrpc":"2.0","id":1,"method":"resources/list"}"#, &state)),
        r#"{"jsonrpc":"2.0","id":1,"error":{"code":-32601,"message":"Method not found: resources/list"}}"#
    );
    assert_eq!(
        reply(handle_message(r#"{"jsonrpc":"2.0","id":"x","method":"Ping"}"#, &state)),
        r#"{"jsonrpc":"2.0","id":"x","error":{"code":-32601,"message":"Method not found: Ping"}}"#
    );
}

#[test]
fn notifications_get_no_reply() {
    let state = IdeState::new();
    assert!(matches!(
        handle_message(r#"{"jsonrpc":"2.0","method":"initialized"}"#, &state),
        MessageStep::NoReply
    ));
    assert!(matches!(
        handle_message(
            r#"{"jsonrpc":"2.0","id":4,"method":"notifications/cancelled","params":{"requestId":1}}"#,
            &state
        ),
        MessageStep::NoReply
    ));
}

#[test]
fn open_file_call_asks_for_the_command_to_be_sent() {
    let state = IdeState::new();
    let step = handle_message(
        r#"{"jsonrpc":"2.0","id":5,"method":"tools/call","params":{"name":"openFile","arguments":{"filePath":"src/lib.rs","line":42}}}"#,
        &state,
    );
    match step {
        MessageStep::Send { id, command: IdeCommand::OpenFile { path, line } } => {
            assert_eq!(id, JsonRpcId::Number(5));
            assert_eq!(path, "src/lib.rs");
            assert_eq!(line, Some(42));
        }
        other => panic!("expected a command, got {:?}", other),
    }
    assert_eq!(
        command_reply(JsonRpcId::Number(5), None),
        r#"{"jsonrpc":"2.0","id":5,"result":{"content":[{"type":"text","text":"{\"success\":true}"}]}}"#
    );
    assert_eq!(
        command_reply(JsonRpcId::Number(5), Some("channel closed")),
        r#"{"jsonrpc":"2.0","id":5,"result":{"content":[{"type":"text","text":"{\"success\":false,\"error\":\"Failed to send command: channel closed\"}"}],"isError":true}}"#
    );
}

#[test]
fn tools_list_reply_lists_five_tools() {
    let state = IdeState::new();
    let text = reply(handle_message(r#"{"jsonrpc":"2.0","id":1,"method":"tools/list"}"#, &state));
    let parsed: serde_json::Value = serde_json::from_str(&text).unwrap();
    let tools = parsed["result"]["tools"].as_array().unwrap();
    assert_eq!(tools.len(), 5);
    for tool in tools {
        assert!(!tool["description"].as_str().unwrap().is_empty());
        assert_eq!(tool["inputSchema"]["type"], "object");
    }
    assert_eq!(tools[4]["name"], "openFile");
    assert_eq!(tools[4]["inputSchema"]["required"][0], "filePath");
}

#[test]
fn frames_are_answered_by_their_kind() {
    let state = IdeState::new();
    match on_frame(Incoming::Ping(vec![1, 2, 3]), &state) {
        FrameAction::Pong(data) => assert_eq!(data, vec![1, 2, 3]),
        other => panic!("expected a pong, got {:?}", other),
    }
    match on_frame(Incoming::Ping(Vec::new()), &state) {
        FrameAction::Pong(data) => assert!(data.is_empty()),
        other => panic!("expected a pong, got {:?}", other),
    }
    assert!(matches!(on_frame(Incoming::Close, &state), FrameAction::Hangup));
    assert!(matches!(on_frame(Incoming::Failed, &state), FrameAction::Hangup));
    assert!(matches!(on_frame(Incoming::Other, &state), FrameAction::Ignore));
    match on_frame(
        Incoming::Text(r#"{"jsonrpc":"2.0","id":1,"method":"ping"}"#.to_string()),
        &state,
    ) {
        FrameAction::Reply(text) => assert_eq!(text, r#"{"jsonrpc":"2.0","id":1,"result":{}}"#),
        other => panic!("expected a reply, got {:?}", other),
    }
    assert!(matches!(
        on_frame(Incoming::Text(r#"{"jsonrpc":"2.0","method":"initialized"}"#.to_string()), &state),
        FrameAction::Ignore
    ));
    assert!(matches!(
        on_frame(
            Incoming::Text(
                r#"{"jsonrpc":"2.0","id":1,"method":"tools/call","params":{"name":"openFile","arguments":{"filePath":"a"}}}"#
                    .to_string()
            ),
            &state
        ),
        FrameAction::Send { .. }
    ));
}

#[test]
fn registry_numbers_connections_from_one() {
    let mut registry: ServerState<u32> = ServerState::new();
    assert_eq!(registry.client_count(), 0);
    assert_eq!(registry.next_id(), 1);
    assert_eq!(registry.add_client(10), "client-1");
    assert_eq!(registry.add_client(20), "client-2");
    assert_eq!(registry.client_count(), 2);
    assert_eq!(registry.next_id(), 3);
    assert_eq!(registry.find("client-1"), Some(&10));
    assert_eq!(registry.find("client-2"), Some(&20));
    assert_eq!(registry.find("client-3"), None);
    assert_eq!(registry.channels(), vec![&10, &20]);
}

#[test]
fn registry_counts_in_decimal() {
    let mut registry: ServerState<u32> = ServerState::new();
    let mut last = String::new();
    for n in 0..12 {
        last = registry.add_client(n);
    }
    assert_eq!(last, "client-12");
    assert_eq!(registry.find("client-10"), Some(&9));
    assert_eq!(registry.find("client-1"), Some(&0));
}

#[test]
fn closing_one_connection_leaves_the_other() {
    let state = IdeState::new();
    let mut registry: ServerState<&str> = ServerState::new();
    let first = registry.add_client("queue of the first");
    let second = registry.add_client("queue of the second");

    registry.remove_client(&first);

    assert_eq!(registry.client_count(), 1);
    assert_eq!(registry.find(&first), None);
    assert_eq!(registry.find(&second), Some(&"queue of the second"));
    assert_eq!(registry.channels(), vec![&"queue of the second"]);
    assert_eq!(
        reply(handle_message(r#"{"jsonrpc":"2.0","id":2,"method":"ping"}"#, &state)),
        r#"{"jsonrpc":"2.0","id":2,"result":{}}"#
    );

    let third = registry.add_client("queue of the third");
    assert_eq!(third, "client-3");
    registry.remove_client("client-9");
    assert_eq!(registry.client_count(), 2);
    registry.remove_client(&second);
    registry.remove_client(&second);
    assert_eq!(registry.channels(), vec![&"queue of the third"]);
}

#[test]
fn server_errors_in_words() {
    assert_eq!(
        ServerError::Bind("address in use".to_string()).message(),
        "Failed to bind server: address in use"
    );
    assert_eq!(
        ServerError::LockFile("no home".to_string()).message(),
        "Lock file error: no home"
    );
    assert_eq!(
        ConnectionError::Handshake("bad request".to_string()).message(),
        "WebSocket handshake failed: bad request"
    );
}

#[test]
fn message_without_id_gets_no_reply() {
    let state = IdeState::new();
    for text in [
        r#"{"jsonrpc":"2.0","method":"ping"}"#,
        r#"{"jsonrpc":"2.0","id":null,"method":"ping"}"#,
        r#"{"jsonrpc":"2.0","method":"initialize","params":{"protocolVersion":"2024-11-05","capabilities":{},"clientInfo":{"name":"c"}}}"#,
        r#"{"jsonrpc":"2.0","method":"initialize"}"#,
        r#"{"jsonrpc":"2.0","method":"tools/list"}"#,
        r#"{"jsonrpc":"2.0","method":"tools/call"}"#,
        r#"{"jsonrpc":"2.0","method":"tools/call","params":{"name":"getDiagnostics"}}"#,
        r#"{"jsonrpc":"2.0","method":"tools/call","params":{"name":"openFile"}}"#,
        r#"{"jsonrpc":"2.0","method":"resources/list"}"#,
        r#"{"jsonrpc":"2.0","method":"initialized"}"#,
    ] {
        let step = handle_message(text, &state);
        assert!(matches!(step, MessageStep::NoReply), "{text}: {:?}", step);
        let action = on_frame(Incoming::Text(text.to_string()), &state);
        assert!(matches!(action, FrameAction::Ignore), "{text}: {:?}", action);
    }
}

#[test]
fn open_file_message_without_id_is_performed_without_reply() {
    let state = IdeState::new();
    let text = r#"{"jsonrpc":"2.0","method":"tools/call","params":{"name":"openFile","arguments":{"filePath":"src/lib.rs","line":42}}}"#;
    match handle_message(text, &state) {
        MessageStep::Perform { command: IdeCommand::OpenFile { path, line } } => {
            assert_eq!(path, "src/lib.rs");
            assert_eq!(line, Some(42));
        }
        other => panic!("expected a command without a reply, got {:?}", other),
    }
    assert!(matches!(
        on_frame(Incoming::Text(text.to_string()), &state),
        FrameAction::Perform { .. }
    ));
}

#[test]
fn mismatched_version_without_id_is_still_an_invalid_request() {
    let state = IdeState::new();
    assert_eq!(
        reply(handle_message(r#"{"jsonrpc":"1.0","method":"ping"}"#, &state)),
        r#"{"jsonrpc":"2.0","error":{"code":-32600,"message":"Invalid request: Expected jsonrpc version 2.0"}}"#
    );
}
