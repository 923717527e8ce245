//! The five tools: what each is listed as and what each answers.

use vstd::prelude::*;
use crate::command::{CommandView, IdeCommand};
use crate::json::{
    find_member, lemma_lookup_push, lemma_lookup_two, lookup, members_view, ArrayBuilder, Json,
    JsonValue, ObjectBuilder,
};
use crate::json_text::compact_text;
use crate::mcp::{text_result, Tool, ToolView, ToolsCallResult, ToolsCallResultView};
use crate::payloads::{
    diagnostic_json, line_range, open_editor_json, open_file_result_json, selection_result_json,
    severity_of, workspace_folder_json, Diagnostic, DiagnosticEntry, DiagnosticSeverity,
    OpenEditor, OpenEditorView, OpenFileResult, OpenFileResultView, SelectionRange,
    SelectionResult, SelectionResultView, WorkspaceFolder, WorkspaceFolderEntry,
};
use crate::state::{
    diagnostics_for, may_derive, workspace_folders, DiagnosticView, IdeState, IdeStateView,
    OpenFileView,
    WorkspaceFolderView,
};
use crate::seq_laws::lemma_filter_none;
use crate::text::join;

verus! {

/// The name under which the server and its diagnostics are known.
pub const SERVER_NAME: &'static str = "tuicr";

/// What `getCurrentSelection` answers when nothing is selected.
pub const NO_SELECTION: &'static str =
    "{\"error\": \"No selection\", \"message\": \"No text is currently selected in the diff viewer\"}";

/// What `openFile` answers when it is given no file path.
pub const MISSING_FILE_PATH: &'static str = "Missing required parameter: filePath";

/// The schema of one argument.
pub open spec fn property_schema(kind: Seq<char>, description: Seq<char>) -> JsonValue {
    JsonValue::Object(
        seq![("type"@, JsonValue::Str(kind)), ("description"@, JsonValue::Str(description))],
    )
}

/// The schema of a tool's arguments: an object with these properties, of
/// which these are required.
pub open spec fn input_schema(
    properties: Seq<(Seq<char>, JsonValue)>,
    required: Seq<JsonValue>,
) -> JsonValue {
    JsonValue::Object(
        seq![
            ("type"@, JsonValue::Str("object"@)),
            ("properties"@, JsonValue::Object(properties)),
            ("required"@, JsonValue::Array(required)),
        ],
    )
}

/// The tools that the server offers, in the order of their listing.
pub open spec fn tool_listing() -> Seq<ToolView> {
    seq![
        ToolView {
            name: "getCurrentSelection"@,
            description: Some(
                "Get the currently selected text in the diff viewer. Returns the file path, selected text, and line range of the selection."@,
            ),
            input_schema: input_schema(Seq::empty(), Seq::empty()),
        },
        ToolView {
            name: "getOpenEditors"@,
            description: Some(
                "Get the list of files open in the current code review session. Each file includes its path, status (added/modified/deleted), and review state."@,
            ),
            input_schema: input_schema(Seq::empty(), Seq::empty()),
        },
        ToolView {
            name: "getWorkspaceFolders"@,
            description: Some(
                "Get the workspace folders (repository roots) for the current review session."@,
            ),
            input_schema: input_schema(Seq::empty(), Seq::empty()),
        },
        ToolView {
            name: "getDiagnostics"@,
            description: Some(
                "Get review comments as diagnostics. Issue-type comments are returned as errors, Suggestion-type as warnings, and Note/Praise as information."@,
            ),
            input_schema: input_schema(
                seq![
                    (
                        "filePath"@,
                        property_schema(
                            "string"@,
                            "Optional file path to filter diagnostics. If not provided, returns all diagnostics."@,
                        ),
                    ),
                ],
                Seq::empty(),
            ),
        },
        ToolView {
            name: "openFile"@,
            description: Some(
                "Navigate to a specific file in the diff viewer. Optionally jump to a specific line."@,
            ),
            input_schema: input_schema(
                seq![
                    ("filePath"@, property_schema("string"@, "Path to the file to open"@)),
                    ("line"@, property_schema("integer"@, "Optional line number to jump to"@)),
                ],
                seq![JsonValue::Str("filePath"@)],
            ),
        },
    ]
}

fn property(kind: &str, description: &str) -> (r: Json)
    ensures
        r@ == property_schema(kind@, description@),
{
    let mut b = ObjectBuilder::new();
    b.put("type", Json::text(kind));
    b.put("description", Json::text(description));
    assert(b@ =~= seq![
        ("type"@, JsonValue::Str(kind@)),
        ("description"@, JsonValue::Str(description@)),
    ]);
    b.finish()
}

fn schema(properties: ObjectBuilder, required: ArrayBuilder) -> (r: Json)
    ensures
        r@ == input_schema(properties@, required@),
{
    let mut b = ObjectBuilder::new();
    b.put("type", Json::text("object"));
    b.put("properties", properties.finish());
    b.put("required", required.finish());
    assert(b@ =~= seq![
        ("type"@, JsonValue::Str("object"@)),
        ("properties"@, JsonValue::Object(properties@)),
        ("required"@, JsonValue::Array(required@)),
    ]);
    b.finish()
}

fn tool(name: &str, description: &str, input_schema: Json) -> (r: Tool)
    ensures
        r@ == (ToolView {
            name: name@,
            description: Some(description@),
            input_schema: input_schema@,
        }),
{
    Tool { name: name.to_string(), description: Some(description.to_string()), input_schema }
}

/// Every listed tool has a description that is not empty and a schema of
/// type `object`; there are five of them, and the schema of `openFile`, the
/// last, requires `filePath`.
pub proof fn listing_is_well_formed()
    ensures
        tool_listing().len() == 5,
        forall|i: int|
            0 <= i < 5 ==> {
                &&& (#[trigger] tool_listing()[i]).description is Some
                &&& tool_listing()[i].description->0.len() > 0
                &&& tool_listing()[i].input_schema.field("type"@) == Some(
                    JsonValue::Str("object"@),
                )
            },
        tool_listing()[4].name == "openFile"@,
        tool_listing()[4].input_schema.field("required"@) == Some(
            JsonValue::Array(seq![JsonValue::Str("filePath"@)]),
        ),
{
    reveal_strlit("type");
    reveal_strlit("properties");
    reveal_strlit("required");
    assert("type"@.len() == 4);
    assert("properties"@.len() == 10);
    assert("required"@.len() == 8);
    reveal_strlit(
        "Get the currently selected text in the diff viewer. Returns the file path, selected text, and line range of the selection.",
    );
    reveal_strlit(
        "Get the list of files open in the current code review session. Each file includes its path, status (added/modified/deleted), and review state.",
    );
    reveal_strlit("Get the workspace folders (repository roots) for the current review session.");
    reveal_strlit(
        "Get review comments as diagnostics. Issue-type comments are returned as errors, Suggestion-type as warnings, and Note/Praise as information.",
    );
    reveal_strlit(
        "Navigate to a specific file in the diff viewer. Optionally jump to a specific line.",
    );
    assert forall|properties: Seq<(Seq<char>, JsonValue)>, required: Seq<JsonValue>|
        {
            &&& (#[trigger] input_schema(properties, required)).field("type"@) == Some(
                JsonValue::Str("object"@),
            )
            &&& input_schema(properties, required).field("required"@) == Some(
                JsonValue::Array(required),
            )
        } by {
        let two = seq![
            ("type"@, JsonValue::Str("object"@)),
            ("properties"@, JsonValue::Object(properties)),
        ];
        assert(seq![
            ("type"@, JsonValue::Str("object"@)),
            ("properties"@, JsonValue::Object(properties)),
            ("required"@, JsonValue::Array(required)),
        ] =~= two.push(("required"@, JsonValue::Array(required))));
        lemma_lookup_push(two, "required"@, JsonValue::Array(required), "type"@);
        lemma_lookup_push(two, "required"@, JsonValue::Array(required), "required"@);
        lemma_lookup_two(
            "type"@,
            JsonValue::Str("object"@),
            "properties"@,
            JsonValue::Object(properties),
            "type"@,
        );
    }
}

/// The tools that the server offers, with their schemas.
pub fn all_tools() -> (r: Vec<Tool>)
    ensures
        r.deep_view() == tool_listing(),
        r.len() == 5,
        forall|i: int|
            0 <= i < 5 ==> {
                &&& (#[trigger] r[i]).description is Some
                &&& r[i].description->0@.len() > 0
                &&& r[i].input_schema@.field("type"@) == Some(JsonValue::Str("object"@))
            },
        r[4].name@ == "openFile"@,
        r[4].input_schema@.field("required"@) == Some(
            JsonValue::Array(seq![JsonValue::Str("filePath"@)]),
        ),
{
    let mut tools: Vec<Tool> = Vec::new();
    tools.push(
        tool(
            "getCurrentSelection",
            "Get the currently selected text in the diff viewer. Returns the file path, selected text, and line range of the selection.",
            schema(ObjectBuilder::new(), ArrayBuilder::new()),
        ),
    );
    tools.push(
        tool(
            "getOpenEditors",
            "Get the list of files open in the current code review session. Each file includes its path, status (added/modified/deleted), and review state.",
            schema(ObjectBuilder::new(), ArrayBuilder::new()),
        ),
    );
    tools.push(
        tool(
            "getWorkspaceFolders",
            "Get the workspace folders (repository roots) for the current review session.",
            schema(ObjectBuilder::new(), ArrayBuilder::new()),
        ),
    );
    let mut filter = ObjectBuilder::new();
    filter.put(
        "filePath",
        property(
            "string",
            "Optional file path to filter diagnostics. If not provided, returns all diagnostics.",
        ),
    );
    assert(filter@ =~= seq![
        (
            "filePath"@,
            property_schema(
                "string"@,
                "Optional file path to filter diagnostics. If not provided, returns all diagnostics."@,
            ),
        ),
    ]);
    tools.push(
        tool(
            "getDiagnostics",
            "Get review comments as diagnostics. Issue-type comments are returned as errors, Suggestion-type as warnings, and Note/Praise as information.",
            schema(filter, ArrayBuilder::new()),
        ),
    );
    let mut target = ObjectBuilder::new();
    target.put("filePath", property("string", "Path to the file to open"));
    target.put("line", property("integer", "Optional line number to jump to"));
    assert(target@ =~= seq![
        ("filePath"@, property_schema("string"@, "Path to the file to open"@)),
        ("line"@, property_schema("integer"@, "Optional line number to jump to"@)),
    ]);
    let mut required = ArrayBuilder::new();
    required.push(Json::text("filePath"));
    assert(required@ =~= seq![JsonValue::Str("filePath"@)]);
    tools.push(
        tool(
            "openFile",
            "Navigate to a specific file in the diff viewer. Optionally jump to a specific line.",
            schema(target, required),
        ),
    );
    proof {
        assert(tools.deep_view() =~= tool_listing());
        listing_is_well_formed();
        assert forall|i: int| 0 <= i < 5 implies {
            &&& (#[trigger] tools[i]).description is Some
            &&& tools[i].description->0@.len() > 0
            &&& tools[i].input_schema@.field("type"@) == Some(JsonValue::Str("object"@))
        } by {
            assert(tools.deep_view()[i] == tools[i]@);
            assert(tool_listing()[i] == tools[i]@);
        }
        assert(tools.deep_view()[4] == tools[4]@);
    }
    tools
}

/// The entry that `getOpenEditors` gives for a file of the session.
pub open spec fn open_editor_of(f: OpenFileView) -> OpenEditorView {
    OpenEditorView {
        file_path: f.file_path,
        language_id: f.language_id,
        is_dirty: Some(f.is_dirty),
        is_active: Some(f.is_active),
    }
}

/// The entry that `getWorkspaceFolders` gives for a folder: its path as a
/// `file://` address, and its name.
pub open spec fn workspace_folder_of(f: WorkspaceFolderView) -> WorkspaceFolderEntry {
    WorkspaceFolderEntry { uri: "file://"@ + f.path, name: f.name }
}

/// The entry that `getDiagnostics` gives for a diagnostic of the session.
pub open spec fn diagnostic_of(d: DiagnosticView) -> DiagnosticEntry {
    DiagnosticEntry {
        file_path: d.file_path,
        range: line_range(d.start_line, d.end_line),
        message: d.message,
        severity: severity_of(d.severity),
        source: Some(SERVER_NAME@),
    }
}

/// The text argument under `key`; `None` where there is none or it is no
/// string.
pub open spec fn text_argument(arguments: Seq<(Seq<char>, JsonValue)>, key: Seq<char>) -> Option<
    Seq<char>,
> {
    match lookup(arguments, key) {
        Some(v) => v.as_text(),
        None => None,
    }
}

/// The line that the arguments name: the integer under `line`, cut to its
/// low 32 bits; `None` where there is none or it is no 64-bit signed
/// integer.
pub open spec fn line_argument(arguments: Seq<(Seq<char>, JsonValue)>) -> Option<u32> {
    match lookup(arguments, "line"@) {
        Some(v) => match v.as_integer() {
            Some(n) => Some(n as u32),
            None => None,
        },
        None => None,
    }
}

/// What `getCurrentSelection` answers: the selection as JSON text, or the
/// note that nothing is selected; never a failure.
pub open spec fn selection_answer(s: IdeStateView) -> ToolsCallResultView {
    match s.selection {
        Some(sel) => text_result(
            compact_text(
                selection_result_json(
                    SelectionResultView {
                        file_path: sel.file_path,
                        text: sel.text,
                        selection: line_range(sel.start_line, sel.end_line),
                    },
                ),
            ),
            false,
        ),
        None => text_result(NO_SELECTION@, false),
    }
}

/// What `getOpenEditors` answers: the files of the session, in order, as
/// JSON text.
pub open spec fn open_editors_answer(s: IdeStateView) -> ToolsCallResultView {
    text_result(
        compact_text(
            JsonValue::Array(
                s.open_files.map_values(|f: OpenFileView| open_editor_json(open_editor_of(f))),
            ),
        ),
        false,
    )
}

/// What `getWorkspaceFolders` answers, given the name derived from the
/// workspace path: the folders as JSON text.
pub open spec fn workspace_folders_answer(
    s: IdeStateView,
    derived: Option<Seq<char>>,
) -> ToolsCallResultView {
    text_result(
        compact_text(
            JsonValue::Array(
                workspace_folders(s, derived).map_values(
                    |f: WorkspaceFolderView| workspace_folder_json(workspace_folder_of(f)),
                ),
            ),
        ),
        false,
    )
}

/// The diagnostics that `getDiagnostics` answers with: those of the file
/// under `filePath`, or all where no such argument is a string.
pub open spec fn selected_diagnostics(
    s: IdeStateView,
    arguments: Seq<(Seq<char>, JsonValue)>,
) -> Seq<DiagnosticEntry> {
    diagnostics_for(s.diagnostics, text_argument(arguments, "filePath"@)).map_values(
        |d: DiagnosticView| diagnostic_of(d),
    )
}

/// What `getDiagnostics` answers: the selected diagnostics as JSON text.
pub open spec fn diagnostics_answer(
    s: IdeStateView,
    arguments: Seq<(Seq<char>, JsonValue)>,
) -> ToolsCallResultView {
    text_result(
        compact_text(
            JsonValue::Array(
                selected_diagnostics(s, arguments).map_values(
                    |d: DiagnosticEntry| diagnostic_json(d),
                ),
            ),
        ),
        false,
    )
}

/// The answer of `openFile` that reports success, or failure with its
/// reason.
pub open spec fn open_file_answer(error: Option<Seq<char>>) -> ToolsCallResultView {
    text_result(
        compact_text(open_file_result_json(OpenFileResultView { success: error is None, error })),
        error is Some,
    )
}

/// What a tool call comes to before anything is sent to the host loop.
#[derive(Debug)]
pub enum ToolStep {
    /// The tool has answered.
    Done(ToolsCallResult),
    /// The command is to be handed to the host loop; the answer follows
    /// from whether that succeeded.
    Send(IdeCommand),
}

/// The model of a [`ToolStep`].
pub ghost enum ToolStepView {
    Done(ToolsCallResultView),
    Send(CommandView),
}

impl View for ToolStep {
    type V = ToolStepView;

    open spec fn view(&self) -> ToolStepView {
        match self {
            ToolStep::Done(r) => ToolStepView::Done(r@),
            ToolStep::Send(c) => ToolStepView::Send(c@),
        }
    }
}

/// What `openFile` comes to: without a string under `filePath` the failure
/// that names the missing parameter, else the command to open that file at
/// the line the arguments name.
pub open spec fn open_file_step(arguments: Seq<(Seq<char>, JsonValue)>) -> ToolStepView {
    match text_argument(arguments, "filePath"@) {
        Some(path) => ToolStepView::Send(
            CommandView::OpenFile { path, line: line_argument(arguments) },
        ),
        None => ToolStepView::Done(open_file_answer(Some(MISSING_FILE_PATH@))),
    }
}

fn argument_text<'a>(arguments: &'a Vec<(String, Json)>, key: &str) -> (r: Option<&'a str>)
    ensures
        match r {
            Some(t) => text_argument(members_view(arguments@), key@) == Some(t@),
            None => text_argument(members_view(arguments@), key@) is None,
        },
{
    match find_member(arguments, key) {
        Some(v) => v.as_str(),
        None => None,
    }
}

/// The currently selected text of the diff viewer.
pub fn get_current_selection(state: &IdeState) -> (r: ToolsCallResult)
    ensures
        r@ == selection_answer(state@),
{
    match state.get_selection() {
        Some(sel) => {
            let result = SelectionResult {
                file_path: sel.file_path.clone(),
                text: sel.text.clone(),
                selection: SelectionRange::of_lines(sel.start_line, sel.end_line),
            };
            ToolsCallResult::of_text(result.to_json().to_text(), false)
        },
        None => ToolsCallResult::of_text(NO_SELECTION.to_string(), false),
    }
}

/// The files of the current review session.
pub fn get_open_editors(state: &IdeState) -> (r: ToolsCallResult)
    ensures
        r@ == open_editors_answer(state@),
{
    let editors = state.get_open_editors();
    let ghost files = state@.open_files;
    let mut items = ArrayBuilder::new();
    let mut i: usize = 0;
    while i < editors.len()
        invariant
            i <= editors.len(),
            files == editors.deep_view(),
            items@ == files.take(i as int).map_values(
                |f: OpenFileView| open_editor_json(open_editor_of(f)),
            ),
        decreases editors.len() - i,
    {
        let e = &editors[i];
        let entry = OpenEditor {
            file_path: e.file_path.clone(),
            language_id: e.language_id.clone(),
            is_dirty: Some(e.is_dirty),
            is_active: Some(e.is_active),
        };
        items.push(entry.to_json());
        assert(items@ =~= files.take(i as int + 1).map_values(
            |f: OpenFileView| open_editor_json(open_editor_of(f)),
        ));
        i += 1;
    }
    assert(files.take(i as int) =~= files);
    ToolsCallResult::of_text(items.finish().to_text(), false)
}

/// The workspace folders of the current review session. The name of a
/// workspace that was given none is derived from its path.
pub fn get_workspace_folders(state: &IdeState) -> (r: ToolsCallResult)
    ensures
        exists|derived: Option<Seq<char>>|
            may_derive(state@, derived) && r@ == workspace_folders_answer(state@, derived),
        state@.workspace_path is None || state@.workspace_name is Some ==> r@
            == workspace_folders_answer(state@, None),
{
    let folders = state.get_workspace_folders();
    let ghost derived = choose|derived: Option<Seq<char>>|
        may_derive(state@, derived) && folders.deep_view() == workspace_folders(state@, derived);
    let ghost listed = folders.deep_view();
    let mut items = ArrayBuilder::new();
    let mut i: usize = 0;
    while i < folders.len()
        invariant
            i <= folders.len(),
            listed == folders.deep_view(),
            items@ == listed.take(i as int).map_values(
                |f: WorkspaceFolderView| workspace_folder_json(workspace_folder_of(f)),
            ),
        decreases folders.len() - i,
    {
        let f = &folders[i];
        let entry = WorkspaceFolder { uri: join("file://", f.path.as_str()), name: f.name.clone() };
        items.push(entry.to_json());
        assert(items@ =~= listed.take(i as int + 1).map_values(
            |f: WorkspaceFolderView| workspace_folder_json(workspace_folder_of(f)),
        ));
        i += 1;
    }
    assert(listed.take(i as int) =~= listed);
    let r = ToolsCallResult::of_text(items.finish().to_text(), false);
    assert(may_derive(state@, derived) && r@ == workspace_folders_answer(state@, derived));
    r
}

/// The review comments as diagnostics: those of the file that the
/// arguments name under `filePath`, or all of them.
pub fn get_diagnostics(state: &IdeState, arguments: &Vec<(String, Json)>) -> (r: ToolsCallResult)
    ensures
        r@ == diagnostics_answer(state@, members_view(arguments@)),
{
    let filter = argument_text(arguments, "filePath");
    let found = state.get_diagnostics(filter);
    let ghost stored = found.deep_view();
    let ghost entries = stored.map_values(|d: DiagnosticView| diagnostic_of(d));
    assert(entries == selected_diagnostics(state@, members_view(arguments@)));
    let mut items = ArrayBuilder::new();
    let mut i: usize = 0;
    while i < found.len()
        invariant
            i <= found.len(),
            stored == found.deep_view(),
            entries == stored.map_values(|d: DiagnosticView| diagnostic_of(d)),
            items@ == entries.take(i as int).map_values(|d: DiagnosticEntry| diagnostic_json(d)),
        decreases found.len() - i,
    {
        let d = &found[i];
        let entry = Diagnostic {
            file_path: d.file_path.clone(),
            range: SelectionRange::of_lines(d.start_line, d.end_line),
            message: d.message.clone(),
            severity: DiagnosticSeverity::from_tag(d.severity.as_str()),
            source: Some(SERVER_NAME.to_string()),
        };
        assert(entry@ == entries[i as int]);
        items.push(entry.to_json());
        assert(items@ =~= entries.take(i as int + 1).map_values(
            |d: DiagnosticEntry| diagnostic_json(d),
        ));
        i += 1;
    }
    assert(entries.take(i as int) =~= entries);
    ToolsCallResult::of_text(items.finish().to_text(), false)
}

/// The answer of `openFile` once the command was handed over: success
/// without an error, failure with the error's text as the reason.
pub fn open_file_answered(error: Option<String>) -> (r: ToolsCallResult)
    ensures
        r@ == open_file_answer(error.deep_view()),
{
    let is_error = error.is_some();
    let result = OpenFileResult { success: !is_error, error };
    ToolsCallResult::of_text(result.to_json().to_text(), is_error)
}

/// The reason that `openFile` gives when the host loop could not be
/// handed the command.
pub open spec fn send_failure(reason: Seq<char>) -> Seq<char> {
    "Failed to send command: "@ + reason
}

/// The answer of `openFile` after the attempt to hand its command to the
/// host loop: success where `failure` is `None`, else the failure that
/// carries this reason.
pub fn command_sent(failure: Option<&str>) -> (r: ToolsCallResult)
    ensures
        r@ == open_file_answer(
            match failure {
                Some(reason) => Some(send_failure(reason@)),
                None => None,
            },
        ),
{
    match failure {
        Some(reason) => open_file_answered(Some(join("Failed to send command: ", reason))),
        None => open_file_answered(None),
    }
}

/// Navigates to a file of the diff viewer: checks the arguments and gives
/// the command for the host loop, or the failure that names the missing
/// parameter.
pub fn open_file(arguments: &Vec<(String, Json)>) -> (r: ToolStep)
    ensures
        r@ == open_file_step(members_view(arguments@)),
{
    let path = match argument_text(arguments, "filePath") {
        Some(path) => path.to_string(),
        None => {
            return ToolStep::Done(open_file_answered(Some(MISSING_FILE_PATH.to_string())));
        },
    };
    let line = match find_member(arguments, "line") {
        Some(v) => match v.as_i64() {
            Some(l) => Some(#[verifier::truncate] (l as u32)),
            None => None,
        },
        None => None,
    };
    ToolStep::Send(IdeCommand::OpenFile { path, line })
}

/// `getCurrentSelection` never fails, and on a snapshot without a selection
/// it answers with the note that nothing is selected, which says `No
/// selection`.
pub proof fn selection_answer_is_no_error(s: IdeStateView)
    ensures
        !selection_answer(s).is_error,
        s.selection is None ==> selection_answer(s) == text_result(NO_SELECTION@, false),
        crate::text::occurs_in(NO_SELECTION@, "No selection"@),
{
    reveal_strlit(
        "{\"error\": \"No selection\", \"message\": \"No text is currently selected in the diff viewer\"}",
    );
    reveal_strlit("No selection");
    assert("No selection"@.len() == 12);
    assert(NO_SELECTION@.subrange(11, 11 + "No selection"@.len() as int) =~= "No selection"@);
}

/// Without a string under `filePath`, `openFile` sends nothing: it fails
/// with the reason that names the missing parameter, which begins with
/// `Missing required parameter`.
pub proof fn open_file_needs_a_path(arguments: Seq<(Seq<char>, JsonValue)>)
    requires
        text_argument(arguments, "filePath"@) is None,
    ensures
        open_file_step(arguments) == ToolStepView::Done(
            open_file_answer(Some(MISSING_FILE_PATH@)),
        ),
        open_file_answer(Some(MISSING_FILE_PATH@)).is_error,
        MISSING_FILE_PATH@.subrange(0, "Missing required parameter"@.len() as int)
            == "Missing required parameter"@,
{
    reveal_strlit("Missing required parameter: filePath");
    reveal_strlit("Missing required parameter");
    assert(MISSING_FILE_PATH@.subrange(0, "Missing required parameter"@.len() as int)
        =~= "Missing required parameter"@);
}

/// With a string under `filePath`, `openFile` gives the command that
/// carries exactly that path; its line is absent where the arguments have
/// no `line`, and is the number under `line` where that is an integer that
/// fits 32 bits unsigned.
pub proof fn open_file_carries_path_and_line(
    arguments: Seq<(Seq<char>, JsonValue)>,
    path: Seq<char>,
)
    requires
        lookup(arguments, "filePath"@) == Some(JsonValue::Str(path)),
    ensures
        open_file_step(arguments) == ToolStepView::Send(
            CommandView::OpenFile { path, line: line_argument(arguments) },
        ),
        lookup(arguments, "line"@) is None ==> line_argument(arguments) is None,
        forall|n: int|
            0 <= n <= u32::MAX && lookup(arguments, "line"@) == Some(JsonValue::Int(n))
                ==> line_argument(arguments) == Some(n as u32) && (n as u32) as int == n,
{
}

/// Without a string under `filePath`, `getDiagnostics` answers with every
/// diagnostic of the snapshot, in order.
pub proof fn unfiltered_diagnostics_are_all(
    s: IdeStateView,
    arguments: Seq<(Seq<char>, JsonValue)>,
)
    requires
        text_argument(arguments, "filePath"@) is None,
    ensures
        selected_diagnostics(s, arguments) == s.diagnostics.map_values(
            |d: DiagnosticView| diagnostic_of(d),
        ),
        selected_diagnostics(s, arguments).len() == s.diagnostics.len(),
{
}

/// With a file path that no diagnostic of the snapshot carries,
/// `getDiagnostics` answers with none.
pub proof fn unmatched_filter_selects_nothing(
    s: IdeStateView,
    arguments: Seq<(Seq<char>, JsonValue)>,
    path: Seq<char>,
)
    requires
        text_argument(arguments, "filePath"@) == Some(path),
        forall|i: int| 0 <= i < s.diagnostics.len() ==> s.diagnostics[i].file_path != path,
    ensures
        selected_diagnostics(s, arguments) == Seq::<DiagnosticEntry>::empty(),
{
    lemma_filter_none(s.diagnostics, |d: DiagnosticView| d.file_path == path);
    assert(selected_diagnostics(s, arguments) =~= Seq::<DiagnosticEntry>::empty());
}

/// The tags `error`, `warning` and `hint` are answered as themselves, every
/// other tag as `information`.
pub proof fn severity_words(tag: Seq<char>)
    ensures
        crate::payloads::severity_word(severity_of(tag)) == if tag == "error"@ || tag == "warning"@
            || tag == "hint"@ {
            tag
        } else {
            "information"@
        },
{
}

} // verus!
