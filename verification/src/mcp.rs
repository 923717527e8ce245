//! The payloads of the handshake and of tool calls, with their JSON forms.

use vstd::prelude::*;
use crate::json::{
    cloned_part, members_view, optional_field, owned_part, push_optional, text_field,
    ArrayBuilder, Json, JsonValue, ObjectBuilder,
};

verus! {

/// The protocol version that the handshake announces.
pub const MCP_PROTOCOL_VERSION: &'static str = "2024-11-05";

/// Whether the client tells when its roots change.
#[derive(Debug, Clone, Copy, Default)]
pub struct RootsCapability {
    pub list_changed: bool,
}

/// What the client is able to do.
#[derive(Debug, Clone)]
pub struct ClientCapabilities {
    pub roots: Option<RootsCapability>,
    pub sampling: Option<Json>,
}

/// The model of [`ClientCapabilities`].
pub ghost struct ClientCapabilitiesView {
    pub roots: Option<RootsCapability>,
    pub sampling: Option<JsonValue>,
}

impl View for ClientCapabilities {
    type V = ClientCapabilitiesView;

    open spec fn view(&self) -> ClientCapabilitiesView {
        ClientCapabilitiesView { roots: self.roots, sampling: self.sampling.deep_view() }
    }
}

/// Name and version of the client.
#[derive(Debug, Clone)]
pub struct ClientInfo {
    pub name: String,
    pub version: Option<String>,
}

/// The model of a [`ClientInfo`].
pub ghost struct ClientInfoView {
    pub name: Seq<char>,
    pub version: Option<Seq<char>>,
}

impl View for ClientInfo {
    type V = ClientInfoView;

    open spec fn view(&self) -> ClientInfoView {
        ClientInfoView { name: self.name@, version: self.version.deep_view() }
    }
}

/// The parameters of `initialize`.
#[derive(Debug, Clone)]
pub struct InitializeParams {
    pub protocol_version: String,
    pub capabilities: ClientCapabilities,
    pub client_info: ClientInfo,
}

/// The model of [`InitializeParams`].
pub ghost struct InitializeParamsView {
    pub protocol_version: Seq<char>,
    pub capabilities: ClientCapabilitiesView,
    pub client_info: ClientInfoView,
}

impl View for InitializeParams {
    type V = InitializeParamsView;

    open spec fn view(&self) -> InitializeParamsView {
        InitializeParamsView {
            protocol_version: self.protocol_version@,
            capabilities: self.capabilities@,
            client_info: self.client_info@,
        }
    }
}

impl DeepView for InitializeParams {
    type V = InitializeParamsView;

    open spec fn deep_view(&self) -> InitializeParamsView {
        self@
    }
}

/// The roots capability that a document stands for: an object whose
/// `listChanged`, where present, is a boolean; absent, it is false.
pub open spec fn roots_from_json(doc: JsonValue) -> Option<RootsCapability> {
    if !(doc is Object) {
        None
    } else {
        match doc.field("listChanged"@) {
            Some(v) => match v.as_flag() {
                Some(b) => Some(RootsCapability { list_changed: b }),
                None => None,
            },
            None => Some(RootsCapability { list_changed: false }),
        }
    }
}

/// The client capabilities that a document stands for: an object whose
/// `roots`, where present and not `null`, is a roots capability.
pub open spec fn capabilities_from_json(doc: JsonValue) -> Option<ClientCapabilitiesView> {
    if !(doc is Object) {
        None
    } else {
        match optional_field(doc, "roots"@) {
            Some(r) => match roots_from_json(r) {
                Some(roots) => Some(
                    ClientCapabilitiesView {
                        roots: Some(roots),
                        sampling: optional_field(doc, "sampling"@),
                    },
                ),
                None => None,
            },
            None => Some(
                ClientCapabilitiesView { roots: None, sampling: optional_field(doc, "sampling"@) },
            ),
        }
    }
}

/// The client info that a document stands for: an object with a string
/// `name` whose `version`, where present and not `null`, is a string.
pub open spec fn client_info_from_json(doc: JsonValue) -> Option<ClientInfoView> {
    match text_field(doc, "name"@) {
        Some(name) => match optional_field(doc, "version"@) {
            Some(v) => match v.as_text() {
                Some(version) => Some(ClientInfoView { name, version: Some(version) }),
                None => None,
            },
            None => Some(ClientInfoView { name, version: None }),
        },
        None => None,
    }
}

/// The `initialize` parameters that a document stands for: an object with a
/// string `protocolVersion`, client capabilities under `capabilities` and a
/// client info under `clientInfo`.
pub open spec fn initialize_params_from_json(doc: JsonValue) -> Option<InitializeParamsView> {
    match (
        text_field(doc, "protocolVersion"@),
        doc.field("capabilities"@),
        doc.field("clientInfo"@),
    ) {
        (Some(protocol_version), Some(c), Some(i)) => match (
            capabilities_from_json(c),
            client_info_from_json(i),
        ) {
            (Some(capabilities), Some(client_info)) => Some(
                InitializeParamsView { protocol_version, capabilities, client_info },
            ),
            _ => None,
        },
        _ => None,
    }
}

impl RootsCapability {
    /// Reads a roots capability; `None` where the document is none.
    pub fn from_json(doc: &Json) -> (r: Option<RootsCapability>)
        ensures
            r == roots_from_json(doc@),
    {
        if !doc.is_object() {
            return None;
        }
        match doc.get("listChanged") {
            Some(v) => match v.as_bool() {
                Some(b) => Some(RootsCapability { list_changed: b }),
                None => None,
            },
            None => Some(RootsCapability { list_changed: false }),
        }
    }
}

impl ClientCapabilities {
    /// Reads client capabilities; `None` where the document holds none.
    pub fn from_json(doc: &Json) -> (r: Option<ClientCapabilities>)
        ensures
            match r {
                Some(c) => capabilities_from_json(doc@) == Some(c@),
                None => capabilities_from_json(doc@) is None,
            },
    {
        if !doc.is_object() {
            return None;
        }
        let roots = match doc.get_optional("roots") {
            Some(r) => match RootsCapability::from_json(r) {
                Some(roots) => Some(roots),
                None => {
                    return None;
                },
            },
            None => None,
        };
        let sampling = owned_part(doc.get_optional("sampling"));
        Some(ClientCapabilities { roots, sampling })
    }
}

impl ClientInfo {
    /// Reads a client info; `None` where the document is none.
    pub fn from_json(doc: &Json) -> (r: Option<ClientInfo>)
        ensures
            match r {
                Some(i) => client_info_from_json(doc@) == Some(i@),
                None => client_info_from_json(doc@) is None,
            },
    {
        let name = match doc.get_str("name") {
            Some(n) => n.to_string(),
            None => {
                return None;
            },
        };
        let version = match doc.get_optional("version") {
            Some(v) => match v.as_str() {
                Some(version) => Some(version.to_string()),
                None => {
                    return None;
                },
            },
            None => None,
        };
        Some(ClientInfo { name, version })
    }
}

impl InitializeParams {
    /// Reads `initialize` parameters; `None` where the document holds none.
    pub fn from_json(doc: &Json) -> (r: Option<InitializeParams>)
        ensures
            r.deep_view() == initialize_params_from_json(doc@),
    {
        let protocol_version = match doc.get_str("protocolVersion") {
            Some(v) => v.to_string(),
            None => {
                return None;
            },
        };
        let capabilities = match doc.get("capabilities") {
            Some(c) => match ClientCapabilities::from_json(c) {
                Some(capabilities) => capabilities,
                None => {
                    return None;
                },
            },
            None => {
                return None;
            },
        };
        let client_info = match doc.get("clientInfo") {
            Some(i) => match ClientInfo::from_json(i) {
                Some(info) => info,
                None => {
                    return None;
                },
            },
            None => {
                return None;
            },
        };
        Some(InitializeParams { protocol_version, capabilities, client_info })
    }
}

/// Whether the server tells when its tools change.
#[derive(Debug, Clone, Copy, Default)]
pub struct ToolsCapability {
    pub list_changed: bool,
}

/// What the server offers.
#[derive(Debug, Clone)]
pub struct ServerCapabilities {
    pub tools: Option<ToolsCapability>,
    pub resources: Option<Json>,
    pub prompts: Option<Json>,
}

/// The model of [`ServerCapabilities`].
pub ghost struct ServerCapabilitiesView {
    pub tools: Option<ToolsCapability>,
    pub resources: Option<JsonValue>,
    pub prompts: Option<JsonValue>,
}

impl View for ServerCapabilities {
    type V = ServerCapabilitiesView;

    open spec fn view(&self) -> ServerCapabilitiesView {
        ServerCapabilitiesView {
            tools: self.tools,
            resources: self.resources.deep_view(),
            prompts: self.prompts.deep_view(),
        }
    }
}

/// Name and version of the server.
#[derive(Debug, Clone)]
pub struct ServerInfo {
    pub name: String,
    pub version: Option<String>,
}

/// The model of a [`ServerInfo`].
pub ghost struct ServerInfoView {
    pub name: Seq<char>,
    pub version: Option<Seq<char>>,
}

impl View for ServerInfo {
    type V = ServerInfoView;

    open spec fn view(&self) -> ServerInfoView {
        ServerInfoView { name: self.name@, version: self.version.deep_view() }
    }
}

/// The result of `initialize`.
#[derive(Debug, Clone)]
pub struct InitializeResult {
    pub protocol_version: String,
    pub capabilities: ServerCapabilities,
    pub server_info: ServerInfo,
    pub instructions: Option<String>,
}

/// The model of an [`InitializeResult`].
pub ghost struct InitializeResultView {
    pub protocol_version: Seq<char>,
    pub capabilities: ServerCapabilitiesView,
    pub server_info: ServerInfoView,
    pub instructions: Option<Seq<char>>,
}

impl View for InitializeResult {
    type V = InitializeResultView;

    open spec fn view(&self) -> InitializeResultView {
        InitializeResultView {
            protocol_version: self.protocol_version@,
            capabilities: self.capabilities@,
            server_info: self.server_info@,
            instructions: self.instructions.deep_view(),
        }
    }
}

/// The JSON form of an optional text.
pub open spec fn optional_text_json(text: Option<Seq<char>>) -> Option<JsonValue> {
    match text {
        Some(t) => Some(JsonValue::Str(t)),
        None => None,
    }
}

/// The JSON form of a tools capability.
pub open spec fn tools_capability_json(c: ToolsCapability) -> JsonValue {
    JsonValue::Object(seq![("listChanged"@, JsonValue::Bool(c.list_changed))])
}

/// The JSON form of server capabilities; absent parts are left out.
pub open spec fn server_capabilities_json(c: ServerCapabilitiesView) -> JsonValue {
    JsonValue::Object(
        push_optional(
            push_optional(
                push_optional(
                    Seq::empty(),
                    "tools"@,
                    match c.tools {
                        Some(t) => Some(tools_capability_json(t)),
                        None => None,
                    },
                ),
                "resources"@,
                c.resources,
            ),
            "prompts"@,
            c.prompts,
        ),
    )
}

/// The JSON form of a server info; an absent version is left out.
pub open spec fn server_info_json(i: ServerInfoView) -> JsonValue {
    JsonValue::Object(
        push_optional(
            seq![("name"@, JsonValue::Str(i.name))],
            "version"@,
            optional_text_json(i.version),
        ),
    )
}

/// The JSON form of an `initialize` result; absent instructions are left
/// out.
pub open spec fn initialize_result_json(r: InitializeResultView) -> JsonValue {
    JsonValue::Object(
        push_optional(
            seq![
                ("protocolVersion"@, JsonValue::Str(r.protocol_version)),
                ("capabilities"@, server_capabilities_json(r.capabilities)),
                ("serverInfo"@, server_info_json(r.server_info)),
            ],
            "instructions"@,
            optional_text_json(r.instructions),
        ),
    )
}

/// An optional text as JSON.
pub fn optional_text_to_json(text: &Option<String>) -> (r: Option<Json>)
    ensures
        r.deep_view() == optional_text_json(text.deep_view()),
{
    match text {
        Some(t) => Some(Json::Str(t.clone())),
        None => None,
    }
}

impl ToolsCapability {
    /// The capability as JSON.
    pub fn to_json(&self) -> (r: Json)
        ensures
            r@ == tools_capability_json(*self),
    {
        let mut b = ObjectBuilder::new();
        b.put("listChanged", Json::Bool(self.list_changed));
        assert(b@ =~= seq![("listChanged"@, JsonValue::Bool(self.list_changed))]);
        b.finish()
    }
}

impl ServerCapabilities {
    /// The capabilities as JSON.
    pub fn to_json(&self) -> (r: Json)
        ensures
            r@ == server_capabilities_json(self@),
    {
        let mut b = ObjectBuilder::new();
        let tools = match &self.tools {
            Some(t) => Some(t.to_json()),
            None => None,
        };
        b.put_optional("tools", tools);
        b.put_optional("resources", cloned_part(&self.resources));
        b.put_optional("prompts", cloned_part(&self.prompts));
        b.finish()
    }
}

impl ServerInfo {
    /// The server info as JSON.
    pub fn to_json(&self) -> (r: Json)
        ensures
            r@ == server_info_json(self@),
    {
        let mut b = ObjectBuilder::new();
        b.put("name", Json::Str(self.name.clone()));
        assert(b@ =~= seq![("name"@, JsonValue::Str(self.name@))]);
        b.put_optional("version", optional_text_to_json(&self.version));
        b.finish()
    }
}

impl InitializeResult {
    /// The result as JSON.
    pub fn to_json(&self) -> (r: Json)
        ensures
            r@ == initialize_result_json(self@),
    {
        let mut b = ObjectBuilder::new();
        b.put("protocolVersion", Json::Str(self.protocol_version.clone()));
        b.put("capabilities", self.capabilities.to_json());
        b.put("serverInfo", self.server_info.to_json());
        assert(b@ =~= seq![
            ("protocolVersion"@, JsonValue::Str(self@.protocol_version)),
            ("capabilities"@, server_capabilities_json(self@.capabilities)),
            ("serverInfo"@, server_info_json(self@.server_info)),
        ]);
        b.put_optional("instructions", optional_text_to_json(&self.instructions));
        b.finish()
    }
}

/// A tool that the server offers: its name, what it does, and the schema of
/// its arguments.
#[derive(Debug, Clone)]
pub struct Tool {
    pub name: String,
    pub description: Option<String>,
    pub input_schema: Json,
}

/// The model of a [`Tool`].
pub ghost struct ToolView {
    pub name: Seq<char>,
    pub description: Option<Seq<char>>,
    pub input_schema: JsonValue,
}

impl View for Tool {
    type V = ToolView;

    open spec fn view(&self) -> ToolView {
        ToolView {
            name: self.name@,
            description: self.description.deep_view(),
            input_schema: self.input_schema@,
        }
    }
}

impl DeepView for Tool {
    type V = ToolView;

    open spec fn deep_view(&self) -> ToolView {
        self@
    }
}

/// The result of `tools/list`.
#[derive(Debug, Clone)]
pub struct ToolsListResult {
    pub tools: Vec<Tool>,
}

impl View for ToolsListResult {
    type V = Seq<ToolView>;

    open spec fn view(&self) -> Seq<ToolView> {
        self.tools.deep_view()
    }
}

/// The JSON form of a tool; an absent description is left out.
pub open spec fn tool_json(t: ToolView) -> JsonValue {
    JsonValue::Object(
        push_optional(
            seq![("name"@, JsonValue::Str(t.name))],
            "description"@,
            optional_text_json(t.description),
        ).push(("inputSchema"@, t.input_schema)),
    )
}

/// The JSON form of a tool listing: the tools in order under `tools`.
pub open spec fn tools_list_json(tools: Seq<ToolView>) -> JsonValue {
    JsonValue::Object(
        seq![("tools"@, JsonValue::Array(tools.map_values(|t: ToolView| tool_json(t))))],
    )
}

impl Tool {
    /// The tool as JSON.
    pub fn to_json(&self) -> (r: Json)
        ensures
            r@ == tool_json(self@),
    {
        let mut b = ObjectBuilder::new();
        b.put("name", Json::Str(self.name.clone()));
        assert(b@ =~= seq![("name"@, JsonValue::Str(self.name@))]);
        b.put_optional("description", optional_text_to_json(&self.description));
        b.put("inputSchema", self.input_schema.clone());
        b.finish()
    }
}

impl ToolsListResult {
    /// The listing as JSON.
    pub fn to_json(&self) -> (r: Json)
        ensures
            r@ == tools_list_json(self@),
    {
        let mut items = ArrayBuilder::new();
        let mut i: usize = 0;
        while i < self.tools.len()
            invariant
                i <= self.tools.len(),
                items@ == self@.take(i as int).map_values(|t: ToolView| tool_json(t)),
            decreases self.tools.len() - i,
        {
            items.push(self.tools[i].to_json());
            assert(items@ =~= self@.take(i as int + 1).map_values(|t: ToolView| tool_json(t)));
            i += 1;
        }
        assert(self@.take(i as int) =~= self@);
        let mut b = ObjectBuilder::new();
        b.put("tools", items.finish());
        assert(b@ =~= seq![
            ("tools"@, JsonValue::Array(self@.map_values(|t: ToolView| tool_json(t)))),
        ]);
        b.finish()
    }
}

/// The parameters of `tools/call`: the tool's name and its arguments by
/// name.
#[derive(Debug, Clone)]
pub struct ToolsCallParams {
    pub name: String,
    pub arguments: Vec<(String, Json)>,
}

/// The model of [`ToolsCallParams`].
pub ghost struct ToolsCallParamsView {
    pub name: Seq<char>,
    pub arguments: Seq<(Seq<char>, JsonValue)>,
}

impl View for ToolsCallParams {
    type V = ToolsCallParamsView;

    open spec fn view(&self) -> ToolsCallParamsView {
        ToolsCallParamsView { name: self.name@, arguments: members_view(self.arguments@) }
    }
}

impl DeepView for ToolsCallParams {
    type V = ToolsCallParamsView;

    open spec fn deep_view(&self) -> ToolsCallParamsView {
        self@
    }
}

/// The `tools/call` parameters that a document stands for: an object with a
/// string `name` whose `arguments`, where present, are an object; absent,
/// there are no arguments.
pub open spec fn tools_call_params_from_json(doc: JsonValue) -> Option<ToolsCallParamsView> {
    match text_field(doc, "name"@) {
        Some(name) => match doc.field("arguments"@) {
            Some(JsonValue::Object(arguments)) => Some(ToolsCallParamsView { name, arguments }),
            Some(_) => None,
            None => Some(ToolsCallParamsView { name, arguments: Seq::empty() }),
        },
        None => None,
    }
}

impl ToolsCallParams {
    /// Reads `tools/call` parameters; `None` where the document holds none.
    pub fn from_json(doc: &Json) -> (r: Option<ToolsCallParams>)
        ensures
            r.deep_view() == tools_call_params_from_json(doc@),
    {
        let name = match doc.get_str("name") {
            Some(n) => n.to_string(),
            None => {
                return None;
            },
        };
        let arguments = match doc.get("arguments") {
            Some(a) => match a.clone() {
                Json::Object(members) => members,
                _ => {
                    return None;
                },
            },
            None => Vec::new(),
        };
        Some(ToolsCallParams { name, arguments })
    }
}

/// One item of a tool's answer.
#[derive(Debug, Clone)]
pub enum ToolContent {
    Text { text: String },
}

/// The model of a [`ToolContent`].
pub ghost enum ToolContentView {
    Text { text: Seq<char> },
}

impl View for ToolContent {
    type V = ToolContentView;

    open spec fn view(&self) -> ToolContentView {
        match self {
            ToolContent::Text { text } => ToolContentView::Text { text: text@ },
        }
    }
}

impl DeepView for ToolContent {
    type V = ToolContentView;

    open spec fn deep_view(&self) -> ToolContentView {
        self@
    }
}

impl ToolContent {
    /// The text item that holds `s`.
    pub fn text(s: &str) -> (r: ToolContent)
        ensures
            r@ == (ToolContentView::Text { text: s@ }),
    {
        ToolContent::Text { text: s.to_string() }
    }

    /// The item as JSON.
    pub fn to_json(&self) -> (r: Json)
        ensures
            r@ == tool_content_json(self@),
    {
        match self {
            ToolContent::Text { text } => {
                let mut b = ObjectBuilder::new();
                b.put("type", Json::text("text"));
                b.put("text", Json::Str(text.clone()));
                assert(b@ =~= seq![
                    ("type"@, JsonValue::Str("text"@)),
                    ("text"@, JsonValue::Str(text@)),
                ]);
                b.finish()
            },
        }
    }
}

/// What a tool answers: its content and whether the tool failed.
#[derive(Debug, Clone)]
pub struct ToolsCallResult {
    pub content: Vec<ToolContent>,
    pub is_error: bool,
}

/// The model of a [`ToolsCallResult`].
pub ghost struct ToolsCallResultView {
    pub content: Seq<ToolContentView>,
    pub is_error: bool,
}

impl View for ToolsCallResult {
    type V = ToolsCallResultView;

    open spec fn view(&self) -> ToolsCallResultView {
        ToolsCallResultView { content: self.content.deep_view(), is_error: self.is_error }
    }
}

/// The JSON form of a content item.
pub open spec fn tool_content_json(c: ToolContentView) -> JsonValue {
    match c {
        ToolContentView::Text { text } => JsonValue::Object(
            seq![("type"@, JsonValue::Str("text"@)), ("text"@, JsonValue::Str(text))],
        ),
    }
}

/// The answer that holds one text item.
pub open spec fn text_result(text: Seq<char>, is_error: bool) -> ToolsCallResultView {
    ToolsCallResultView { content: seq![ToolContentView::Text { text }], is_error }
}

/// The JSON form of a tool's answer; `isError` is left out where the tool
/// did not fail.
pub open spec fn tools_call_result_json(r: ToolsCallResultView) -> JsonValue {
    JsonValue::Object(
        push_optional(
            seq![
                (
                    "content"@,
                    JsonValue::Array(r.content.map_values(|c: ToolContentView| tool_content_json(c))),
                ),
            ],
            "isError"@,
            if r.is_error {
                Some(JsonValue::Bool(true))
            } else {
                None
            },
        ),
    )
}

/// Whether a flag is off.
pub fn is_false(b: &bool) -> (r: bool)
    ensures
        r == !*b,
{
    !*b
}

impl ToolsCallResult {
    /// The answer that holds one text item.
    pub fn of_text(text: String, is_error: bool) -> (r: ToolsCallResult)
        ensures
            r@ == text_result(text@, is_error),
    {
        let mut content: Vec<ToolContent> = Vec::new();
        content.push(ToolContent::Text { text });
        let r = ToolsCallResult { content, is_error };
        assert(r@.content =~= seq![ToolContentView::Text { text: text@ }]);
        r
    }

    /// The answer as JSON.
    pub fn to_json(&self) -> (r: Json)
        ensures
            r@ == tools_call_result_json(self@),
    {
        let ghost content = self@.content;
        let mut items = ArrayBuilder::new();
        let mut i: usize = 0;
        while i < self.content.len()
            invariant
                i <= self.content.len(),
                content == self.content.deep_view(),
                items@ == content.take(i as int).map_values(
                    |c: ToolContentView| tool_content_json(c),
                ),
            decreases self.content.len() - i,
        {
            items.push(self.content[i].to_json());
            assert(items@ =~= content.take(i as int + 1).map_values(
                |c: ToolContentView| tool_content_json(c),
            ));
            i += 1;
        }
        assert(content.take(i as int) =~= content);
        let mut b = ObjectBuilder::new();
        b.put("content", items.finish());
        assert(b@ =~= seq![
            (
                "content"@,
                JsonValue::Array(content.map_values(|c: ToolContentView| tool_content_json(c))),
            ),
        ]);
        let flag = if is_false(&self.is_error) {
            None
        } else {
            Some(Json::Bool(true))
        };
        b.put_optional("isError", flag);
        b.finish()
    }
}

} // verus!
