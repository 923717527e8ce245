//! The method dispatcher: from a method name, its parameters and the
//! session snapshot to the response, or to the command that must reach the
//! host loop before the response is known.

use vstd::prelude::*;
use crate::command::{CommandView, IdeCommand};
use crate::json::{members_view, Json, JsonValue, ObjectBuilder};
use crate::mcp::{
    initialize_params_from_json, initialize_result_json, text_result, tools_call_params_from_json,
    tools_call_result_json, tools_list_json, InitializeParams, InitializeResult,
    InitializeResultView, ServerCapabilities, ServerCapabilitiesView, ServerInfo, ServerInfoView,
    ToolsCallParams, ToolsCallResult, ToolsCallResultView, ToolsCapability, ToolsListResult,
    MCP_PROTOCOL_VERSION,
};
use crate::protocol::{
    ErrorView, IdView, JsonRpcError, JsonRpcId, JsonRpcResponse, ResponseView, INVALID_PARAMS,
    JSONRPC_VERSION, METHOD_NOT_FOUND,
};
use crate::state::{may_derive, IdeState, IdeStateView};
use crate::text::{join, str_eq};
use crate::tools::{
    all_tools, command_sent, diagnostics_answer, get_current_selection, get_diagnostics,
    get_open_editors, get_workspace_folders, open_file, open_file_answer, open_file_step,
    open_editors_answer, selection_answer, send_failure, tool_listing, workspace_folders_answer,
    ToolStep, ToolStepView, MISSING_FILE_PATH, SERVER_NAME,
};

verus! {

/// The version that the server announces.
pub const SERVER_VERSION: &'static str = "0.7.2";

/// What the server tells a client about itself.
pub const INSTRUCTIONS: &'static str =
    "tuicr is a TUI code review tool. You can query the current selection, open files, workspace, and review comments (diagnostics). Use openFile to navigate to specific files in the diff viewer.";

/// The response that carries `result`.
pub open spec fn success_response(id: Option<IdView>, result: JsonValue) -> ResponseView {
    ResponseView { jsonrpc: JSONRPC_VERSION@, id, result: Some(result), error: None }
}

/// The response that carries an error with this code and message.
pub open spec fn error_response(id: Option<IdView>, code: int, message: Seq<char>) -> ResponseView {
    ResponseView {
        jsonrpc: JSONRPC_VERSION@,
        id,
        result: None,
        error: Some(ErrorView { code, message, data: None }),
    }
}

/// The response to parameters that are missing or unusable.
pub open spec fn invalid_params_response(id: Option<IdView>, why: Seq<char>) -> ResponseView {
    error_response(id, INVALID_PARAMS as int, "Invalid params: "@ + why)
}

/// The response to a method that the server does not know.
pub open spec fn method_not_found_response(id: Option<IdView>, method: Seq<char>) -> ResponseView {
    error_response(id, METHOD_NOT_FOUND as int, "Method not found: "@ + method)
}

/// What the server answers to `initialize`: the protocol version, tools as
/// its only capability, its name and version, and the instructions.
pub open spec fn server_hello() -> InitializeResultView {
    InitializeResultView {
        protocol_version: MCP_PROTOCOL_VERSION@,
        capabilities: ServerCapabilitiesView {
            tools: Some(ToolsCapability { list_changed: false }),
            resources: None,
            prompts: None,
        },
        server_info: ServerInfoView { name: SERVER_NAME@, version: Some(SERVER_VERSION@) },
        instructions: Some(INSTRUCTIONS@),
    }
}

/// The response to `initialize`.
pub open spec fn initialize_response(params: Option<JsonValue>, id: Option<IdView>) -> ResponseView {
    match params {
        Some(p) => if initialize_params_from_json(p) is Some {
            success_response(id, initialize_result_json(server_hello()))
        } else {
            invalid_params_response(id, "Failed to parse initialize params"@)
        },
        None => invalid_params_response(id, "Missing initialize params"@),
    }
}

/// The answer to a call of a tool that does not exist.
pub open spec fn unknown_tool_answer(name: Seq<char>) -> ToolsCallResultView {
    text_result("{\"error\": \"Unknown tool: "@ + name + "\"}"@, true)
}

/// What a call of the tool `name` comes to. `derived` is the name that the
/// workspace path gives; only `getWorkspaceFolders` reads it.
pub open spec fn tool_step(
    name: Seq<char>,
    arguments: Seq<(Seq<char>, JsonValue)>,
    s: IdeStateView,
    derived: Option<Seq<char>>,
) -> ToolStepView {
    if name == "getCurrentSelection"@ {
        ToolStepView::Done(selection_answer(s))
    } else if name == "getOpenEditors"@ {
        ToolStepView::Done(open_editors_answer(s))
    } else if name == "getWorkspaceFolders"@ {
        ToolStepView::Done(workspace_folders_answer(s, derived))
    } else if name == "getDiagnostics"@ {
        ToolStepView::Done(diagnostics_answer(s, arguments))
    } else if name == "openFile"@ {
        open_file_step(arguments)
    } else {
        ToolStepView::Done(unknown_tool_answer(name))
    }
}

/// What the handling of a method comes to before anything is sent to the
/// host loop.
#[derive(Debug)]
pub enum MethodStep {
    /// Nothing is answered: the method is a notification, or the message
    /// carried no id.
    NoResponse,
    /// The response is known.
    Respond(JsonRpcResponse),
    /// The command is to be handed to the host loop; the response to the
    /// request with this id follows from whether that succeeded.
    Send { id: JsonRpcId, command: IdeCommand },
    /// The command is to be handed to the host loop and nothing is
    /// answered: the message carried no id.
    Perform { command: IdeCommand },
}

/// The model of a [`MethodStep`].
pub ghost enum MethodStepView {
    NoResponse,
    Respond(ResponseView),
    Send { id: IdView, command: CommandView },
    Perform { command: CommandView },
}

impl View for MethodStep {
    type V = MethodStepView;

    open spec fn view(&self) -> MethodStepView {
        match self {
            MethodStep::NoResponse => MethodStepView::NoResponse,
            MethodStep::Respond(r) => MethodStepView::Respond(r@),
            MethodStep::Send { id, command } => MethodStepView::Send { id: id@, command: command@ },
            MethodStep::Perform { command } => MethodStepView::Perform { command: command@ },
        }
    }
}

/// What becomes of a response: it is given to a request, which carries an
/// id; a message without an id is a notification and is never answered.
pub open spec fn answer_to(id: Option<IdView>, response: ResponseView) -> MethodStepView {
    if id is Some {
        MethodStepView::Respond(response)
    } else {
        MethodStepView::NoResponse
    }
}

/// What becomes of a command: it is handed to the host loop either way,
/// and the outcome is answered only to a request, which carries an id.
pub open spec fn hand_over(id: Option<IdView>, command: CommandView) -> MethodStepView {
    match id {
        Some(i) => MethodStepView::Send { id: i, command },
        None => MethodStepView::Perform { command },
    }
}

/// What `tools/call` comes to: invalid parameters where they are missing or
/// unusable; else the tool's answer inside a successful response, whether
/// or not the tool failed, or the tool's command. Without an id nothing is
/// answered.
pub open spec fn tools_call_step(
    params: Option<JsonValue>,
    id: Option<IdView>,
    s: IdeStateView,
    derived: Option<Seq<char>>,
) -> MethodStepView {
    match params {
        Some(p) => match tools_call_params_from_json(p) {
            Some(call) => match tool_step(call.name, call.arguments, s, derived) {
                ToolStepView::Done(answer) => answer_to(
                    id,
                    success_response(id, tools_call_result_json(answer)),
                ),
                ToolStepView::Send(command) => hand_over(id, command),
            },
            None => answer_to(
                id,
                invalid_params_response(id, "Failed to parse tools/call params"@),
            ),
        },
        None => answer_to(id, invalid_params_response(id, "Missing tools/call params"@)),
    }
}

/// Whether the server knows a method.
pub open spec fn is_known_method(method: Seq<char>) -> bool {
    ||| method == "initialize"@
    ||| method == "initialized"@
    ||| method == "ping"@
    ||| method == "tools/list"@
    ||| method == "tools/call"@
    ||| method == "notifications/cancelled"@
}

/// What a method comes to. A message without an id is a notification: it
/// is handled, and nothing is answered, whatever the method.
pub open spec fn method_step(
    method: Seq<char>,
    params: Option<JsonValue>,
    id: Option<IdView>,
    s: IdeStateView,
    derived: Option<Seq<char>>,
) -> MethodStepView {
    if method == "initialize"@ {
        answer_to(id, initialize_response(params, id))
    } else if method == "initialized"@ {
        MethodStepView::NoResponse
    } else if method == "ping"@ {
        answer_to(id, success_response(id, JsonValue::Object(Seq::empty())))
    } else if method == "tools/list"@ {
        answer_to(id, success_response(id, tools_list_json(tool_listing())))
    } else if method == "tools/call"@ {
        tools_call_step(params, id, s, derived)
    } else if method == "notifications/cancelled"@ {
        MethodStepView::NoResponse
    } else {
        answer_to(id, method_not_found_response(id, method))
    }
}

/// The response to `openFile` after the attempt to hand its command to the
/// host loop: a successful response either way, whose answer reports
/// success, or the failure with its reason.
pub open spec fn command_response(id: Option<IdView>, failure: Option<Seq<char>>) -> ResponseView {
    success_response(
        id,
        tools_call_result_json(
            open_file_answer(
                match failure {
                    Some(reason) => Some(send_failure(reason)),
                    None => None,
                },
            ),
        ),
    )
}

/// The response to an `initialize` request. Whether it is sent is for
/// [`handle_method`] to say: a message without an id gets none.
pub fn handle_initialize(params: Option<Json>, id: Option<JsonRpcId>) -> (r: JsonRpcResponse)
    ensures
        r@ == initialize_response(params.deep_view(), id.deep_view()),
{
    match params {
        Some(p) => match InitializeParams::from_json(&p) {
            Some(_) => {
                let result = InitializeResult {
                    protocol_version: MCP_PROTOCOL_VERSION.to_string(),
                    capabilities: ServerCapabilities {
                        tools: Some(ToolsCapability { list_changed: false }),
                        resources: None,
                        prompts: None,
                    },
                    server_info: ServerInfo {
                        name: SERVER_NAME.to_string(),
                        version: Some(SERVER_VERSION.to_string()),
                    },
                    instructions: Some(INSTRUCTIONS.to_string()),
                };
                JsonRpcResponse::success(id, result.to_json())
            },
            None => JsonRpcResponse::error(
                id,
                JsonRpcError::invalid_params("Failed to parse initialize params"),
            ),
        },
        None => JsonRpcResponse::error(id, JsonRpcError::invalid_params("Missing initialize params")),
    }
}

/// The response to a `ping` request: an empty object.
pub fn handle_ping(id: Option<JsonRpcId>) -> (r: JsonRpcResponse)
    ensures
        r@ == success_response(id.deep_view(), JsonValue::Object(Seq::empty())),
{
    JsonRpcResponse::success(id, ObjectBuilder::new().finish())
}

/// The response to a `tools/list` request: the listing of all tools.
pub fn handle_tools_list(id: Option<JsonRpcId>) -> (r: JsonRpcResponse)
    ensures
        r@ == success_response(id.deep_view(), tools_list_json(tool_listing())),
{
    let result = ToolsListResult { tools: all_tools() };
    JsonRpcResponse::success(id, result.to_json())
}

/// Calls the tool `name`.
pub fn dispatch_tool(name: &str, arguments: &Vec<(String, Json)>, state: &IdeState) -> (r:
    ToolStep)
    ensures
        exists|derived: Option<Seq<char>>|
            may_derive(state@, derived) && r@ == tool_step(
                name@,
                members_view(arguments@),
                state@,
                derived,
            ),
        name@ != "getWorkspaceFolders"@ ==> r@ == tool_step(
            name@,
            members_view(arguments@),
            state@,
            None,
        ),
{
    if str_eq(name, "getCurrentSelection") {
        let r = ToolStep::Done(get_current_selection(state));
        assert(may_derive(state@, None) && r@ == tool_step(
            name@,
            members_view(arguments@),
            state@,
            None,
        ));
        r
    } else if str_eq(name, "getOpenEditors") {
        let r = ToolStep::Done(get_open_editors(state));
        assert(may_derive(state@, None) && r@ == tool_step(
            name@,
            members_view(arguments@),
            state@,
            None,
        ));
        r
    } else if str_eq(name, "getWorkspaceFolders") {
        let result = get_workspace_folders(state);
        let ghost derived = choose|derived: Option<Seq<char>>|
            may_derive(state@, derived) && result@ == workspace_folders_answer(state@, derived);
        let r = ToolStep::Done(result);
        assert(may_derive(state@, derived) && r@ == tool_step(
            name@,
            members_view(arguments@),
            state@,
            derived,
        ));
        r
    } else if str_eq(name, "getDiagnostics") {
        let r = ToolStep::Done(get_diagnostics(state, arguments));
        assert(may_derive(state@, None) && r@ == tool_step(
            name@,
            members_view(arguments@),
            state@,
            None,
        ));
        r
    } else if str_eq(name, "openFile") {
        let r = open_file(arguments);
        assert(may_derive(state@, None) && r@ == tool_step(
            name@,
            members_view(arguments@),
            state@,
            None,
        ));
        r
    } else {
        let text = join(join("{\"error\": \"Unknown tool: ", name).as_str(), "\"}");
        let r = ToolStep::Done(ToolsCallResult::of_text(text, true));
        assert(may_derive(state@, None) && r@ == tool_step(
            name@,
            members_view(arguments@),
            state@,
            None,
        ));
        r
    }
}

/// Wraps a tool's answer in a successful response.
pub fn tool_response(id: Option<JsonRpcId>, answer: &ToolsCallResult) -> (r: JsonRpcResponse)
    ensures
        r@ == success_response(id.deep_view(), tools_call_result_json(answer@)),
{
    JsonRpcResponse::success(id, answer.to_json())
}

fn answer(response: JsonRpcResponse) -> (r: MethodStep)
    ensures
        r@ == answer_to(response@.id, response@),
{
    if response.id.is_some() {
        MethodStep::Respond(response)
    } else {
        MethodStep::NoResponse
    }
}

/// Handles `tools/call`.
pub fn handle_tools_call(params: Option<Json>, id: Option<JsonRpcId>, state: &IdeState) -> (r:
    MethodStep)
    ensures
        exists|derived: Option<Seq<char>>|
            may_derive(state@, derived) && r@ == tools_call_step(
                params.deep_view(),
                id.deep_view(),
                state@,
                derived,
            ),
{
    let ghost p = params.deep_view();
    let ghost i = id.deep_view();
    let ghost none = None::<Seq<char>>;
    let call = match params {
        Some(p) => match ToolsCallParams::from_json(&p) {
            Some(call) => call,
            None => {
                let r = answer(
                    JsonRpcResponse::error(
                        id,
                        JsonRpcError::invalid_params("Failed to parse tools/call params"),
                    ),
                );
                assert(may_derive(state@, none) && r@ == tools_call_step(
                    params.deep_view(),
                    i,
                    state@,
                    none,
                ));
                return r;
            },
        },
        None => {
            let r = answer(
                JsonRpcResponse::error(id, JsonRpcError::invalid_params("Missing tools/call params")),
            );
            assert(may_derive(state@, none) && r@ == tools_call_step(p, i, state@, none));
            return r;
        },
    };
    let step = dispatch_tool(call.name.as_str(), &call.arguments, state);
    let ghost derived = choose|derived: Option<Seq<char>>|
        may_derive(state@, derived) && step@ == tool_step(
            call.name@,
            members_view(call.arguments@),
            state@,
            derived,
        );
    let r = match step {
        ToolStep::Done(result) => answer(tool_response(id, &result)),
        ToolStep::Send(command) => match id {
            Some(id) => MethodStep::Send { id, command },
            None => MethodStep::Perform { command },
        },
    };
    assert(may_derive(state@, derived) && r@ == tools_call_step(p, i, state@, derived));
    r
}

/// Handles a method: answers the handshake methods and `tools/list`, calls
/// a tool for `tools/call`, stays silent on the two notifications, and
/// rejects every other method as not found. A message without an id is
/// handled in the same way and gets no answer.
pub fn handle_method(
    method: &str,
    params: Option<Json>,
    id: Option<JsonRpcId>,
    state: &IdeState,
) -> (r: MethodStep)
    ensures
        exists|derived: Option<Seq<char>>|
            may_derive(state@, derived) && r@ == method_step(
                method@,
                params.deep_view(),
                id.deep_view(),
                state@,
                derived,
            ),
        method@ != "tools/call"@ ==> r@ == method_step(
            method@,
            params.deep_view(),
            id.deep_view(),
            state@,
            None,
        ),
{
    let ghost p = params.deep_view();
    let ghost i = id.deep_view();
    let ghost none = None::<Seq<char>>;
    if str_eq(method, "initialize") {
        let r = answer(handle_initialize(params, id));
        assert(may_derive(state@, none) && r@ == method_step(method@, p, i, state@, none));
        r
    } else if str_eq(method, "initialized") {
        let r = MethodStep::NoResponse;
        assert(may_derive(state@, none) && r@ == method_step(method@, p, i, state@, none));
        r
    } else if str_eq(method, "ping") {
        let r = answer(handle_ping(id));
        assert(may_derive(state@, none) && r@ == method_step(method@, p, i, state@, none));
        r
    } else if str_eq(method, "tools/list") {
        let r = answer(handle_tools_list(id));
        assert(may_derive(state@, none) && r@ == method_step(method@, p, i, state@, none));
        r
    } else if str_eq(method, "tools/call") {
        let r = handle_tools_call(params, id, state);
        let ghost derived = choose|derived: Option<Seq<char>>|
            may_derive(state@, derived) && r@ == tools_call_step(p, i, state@, derived);
        assert(may_derive(state@, derived) && r@ == method_step(method@, p, i, state@, derived));
        r
    } else if str_eq(method, "notifications/cancelled") {
        let r = MethodStep::NoResponse;
        assert(may_derive(state@, none) && r@ == method_step(method@, p, i, state@, none));
        r
    } else {
        let r = answer(JsonRpcResponse::error(id, JsonRpcError::method_not_found(method)));
        assert(may_derive(state@, none) && r@ == method_step(method@, p, i, state@, none));
        r
    }
}

/// The response to the request with this id whose `openFile` command the
/// host loop was to be handed; `failure` is `None` where the command was
/// handed over, else the reason why it was not.
pub fn command_handled(id: JsonRpcId, failure: Option<&str>) -> (r: JsonRpcResponse)
    ensures
        r@ == command_response(
            Some(id@),
            match failure {
                Some(reason) => Some(reason@),
                None => None,
            },
        ),
{
    let result = command_sent(failure);
    tool_response(Some(id), &result)
}

/// A message without an id is never answered, whatever its method and
/// its parameters: it comes to nothing, or to a command for the host loop
/// that nobody is told the outcome of.
pub proof fn no_id_is_not_answered(
    method: Seq<char>,
    params: Option<JsonValue>,
    s: IdeStateView,
    derived: Option<Seq<char>>,
)
    ensures
        method_step(method, params, None, s, derived) is NoResponse || method_step(
            method,
            params,
            None,
            s,
            derived,
        ) is Perform,
{
}

/// A request for a method that the server does not know is answered with
/// the error `method not found`, whatever the parameters, the id and the
/// snapshot.
pub proof fn unknown_method_is_not_found(
    method: Seq<char>,
    params: Option<JsonValue>,
    id: IdView,
    s: IdeStateView,
    derived: Option<Seq<char>>,
)
    requires
        !is_known_method(method),
    ensures
        method_step(method, params, Some(id), s, derived) == MethodStepView::Respond(
            method_not_found_response(Some(id), method),
        ),
        method_not_found_response(Some(id), method).id == Some(id),
        method_not_found_response(Some(id), method).error is Some,
        method_not_found_response(Some(id), method).error->0.code == -32601,
        method_not_found_response(Some(id), method).result is None,
{
}

proof fn lemma_tools_call_is_no_other_method()
    ensures
        "tools/call"@ != "initialize"@,
        "tools/call"@ != "initialized"@,
        "tools/call"@ != "ping"@,
        "tools/call"@ != "tools/list"@,
{
    reveal_strlit("tools/call");
    reveal_strlit("initialize");
    reveal_strlit("initialized");
    reveal_strlit("ping");
    reveal_strlit("tools/list");
    assert("tools/call"@.len() == 10);
    assert("initialized"@.len() == 11);
    assert("ping"@.len() == 4);
    assert("tools/call"@[0] != "initialize"@[0]);
    assert("tools/call"@[6] != "tools/list"@[6]);
}

/// A `tools/call` request with parameters that are missing or unusable is
/// answered with the error `invalid params`: no tool is called, and nothing
/// is sent to the host loop.
pub proof fn bad_tools_call_is_invalid_params(
    params: Option<JsonValue>,
    id: IdView,
    s: IdeStateView,
    derived: Option<Seq<char>>,
)
    requires
        params is None || tools_call_params_from_json(params->0) is None,
    ensures
        method_step("tools/call"@, params, Some(id), s, derived) is Respond,
        method_step("tools/call"@, params, Some(id), s, derived)->Respond_0.error is Some,
        method_step("tools/call"@, params, Some(id), s, derived)->Respond_0.error->0.code
            == -32602,
        method_step("tools/call"@, params, Some(id), s, derived)->Respond_0.result is None,
{
    lemma_tools_call_is_no_other_method();
}

proof fn lemma_open_file_is_no_other_tool()
    ensures
        "openFile"@ != "getCurrentSelection"@,
        "openFile"@ != "getOpenEditors"@,
        "openFile"@ != "getWorkspaceFolders"@,
        "openFile"@ != "getDiagnostics"@,
{
    reveal_strlit("openFile");
    reveal_strlit("getCurrentSelection");
    reveal_strlit("getOpenEditors");
    reveal_strlit("getWorkspaceFolders");
    reveal_strlit("getDiagnostics");
    assert("openFile"@.len() == 8);
    assert("getCurrentSelection"@.len() == 19);
    assert("getOpenEditors"@.len() == 14);
    assert("getWorkspaceFolders"@.len() == 19);
    assert("getDiagnostics"@.len() == 14);
}

/// A request to call `openFile` without a string under `filePath` succeeds
/// as a request and fails as a tool: the response carries a result and no
/// error, and the answer in it is marked as a failure that names the
/// missing parameter.
pub proof fn open_file_without_path_is_a_tool_failure(
    params: JsonValue,
    id: IdView,
    s: IdeStateView,
    derived: Option<Seq<char>>,
)
    requires
        tools_call_params_from_json(params) is Some,
        tools_call_params_from_json(params)->0.name == "openFile"@,
        crate::tools::text_argument(tools_call_params_from_json(params)->0.arguments, "filePath"@)
            is None,
    ensures
        method_step("tools/call"@, Some(params), Some(id), s, derived) == MethodStepView::Respond(
            success_response(
                Some(id),
                tools_call_result_json(open_file_answer(Some(MISSING_FILE_PATH@))),
            ),
        ),
        open_file_answer(Some(MISSING_FILE_PATH@)).is_error,
{
    lemma_tools_call_is_no_other_method();
    lemma_open_file_is_no_other_tool();
}

/// A call of a tool that does not exist succeeds as a request and fails as
/// a tool.
pub proof fn unknown_tool_is_a_tool_failure(
    name: Seq<char>,
    arguments: Seq<(Seq<char>, JsonValue)>,
    s: IdeStateView,
    derived: Option<Seq<char>>,
)
    requires
        name != "getCurrentSelection"@,
        name != "getOpenEditors"@,
        name != "getWorkspaceFolders"@,
        name != "getDiagnostics"@,
        name != "openFile"@,
    ensures
        tool_step(name, arguments, s, derived) == ToolStepView::Done(unknown_tool_answer(name)),
        unknown_tool_answer(name).is_error,
{
}

} // verus!
