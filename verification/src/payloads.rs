//! What the tools answer with, and the record that lets a client find the
//! server, with their JSON forms.

use vstd::prelude::*;
use crate::json::{
    optional_field, push_optional, text_field, Json, JsonValue, ObjectBuilder,
};
use crate::mcp::{optional_text_json, optional_text_to_json};

verus! {

/// A place in a file.
#[derive(Debug, Clone, Copy)]
pub struct Position {
    pub line: u32,
    pub character: u32,
}

/// A range in a file, from `start` to `end`.
#[derive(Debug, Clone, Copy)]
pub struct SelectionRange {
    pub start: Position,
    pub end: Position,
}

/// The range that covers the lines from `start_line` to `end_line`.
pub open spec fn line_range(start_line: u32, end_line: u32) -> SelectionRange {
    SelectionRange {
        start: Position { line: start_line, character: 0 },
        end: Position { line: end_line, character: 0 },
    }
}

/// The JSON form of a position.
pub open spec fn position_json(p: Position) -> JsonValue {
    JsonValue::Object(
        seq![
            ("line"@, JsonValue::Int(p.line as int)),
            ("character"@, JsonValue::Int(p.character as int)),
        ],
    )
}

/// The JSON form of a range.
pub open spec fn range_json(r: SelectionRange) -> JsonValue {
    JsonValue::Object(seq![("start"@, position_json(r.start)), ("end"@, position_json(r.end))])
}

impl Position {
    /// The position as JSON.
    pub fn to_json(&self) -> (r: Json)
        ensures
            r@ == position_json(*self),
    {
        let mut b = ObjectBuilder::new();
        b.put("line", Json::Int(self.line as i64));
        b.put("character", Json::Int(self.character as i64));
        assert(b@ =~= seq![
            ("line"@, JsonValue::Int(self.line as int)),
            ("character"@, JsonValue::Int(self.character as int)),
        ]);
        b.finish()
    }
}

impl SelectionRange {
    /// The range that covers the lines from `start_line` to `end_line`.
    pub fn of_lines(start_line: u32, end_line: u32) -> (r: SelectionRange)
        ensures
            r == line_range(start_line, end_line),
    {
        SelectionRange {
            start: Position { line: start_line, character: 0 },
            end: Position { line: end_line, character: 0 },
        }
    }

    /// The range as JSON.
    pub fn to_json(&self) -> (r: Json)
        ensures
            r@ == range_json(*self),
    {
        let mut b = ObjectBuilder::new();
        b.put("start", self.start.to_json());
        b.put("end", self.end.to_json());
        assert(b@ =~= seq![("start"@, position_json(self.start)), ("end"@, position_json(self.end))]);
        b.finish()
    }
}

/// The answer of `getCurrentSelection`.
#[derive(Debug, Clone)]
pub struct SelectionResult {
    pub file_path: String,
    pub text: String,
    pub selection: SelectionRange,
}

/// The model of a [`SelectionResult`].
pub ghost struct SelectionResultView {
    pub file_path: Seq<char>,
    pub text: Seq<char>,
    pub selection: SelectionRange,
}

impl View for SelectionResult {
    type V = SelectionResultView;

    open spec fn view(&self) -> SelectionResultView {
        SelectionResultView {
            file_path: self.file_path@,
            text: self.text@,
            selection: self.selection,
        }
    }
}

/// The JSON form of a selection.
pub open spec fn selection_result_json(s: SelectionResultView) -> JsonValue {
    JsonValue::Object(
        seq![
            ("filePath"@, JsonValue::Str(s.file_path)),
            ("text"@, JsonValue::Str(s.text)),
            ("selection"@, range_json(s.selection)),
        ],
    )
}

impl SelectionResult {
    /// The selection as JSON.
    pub fn to_json(&self) -> (r: Json)
        ensures
            r@ == selection_result_json(self@),
    {
        let mut b = ObjectBuilder::new();
        b.put("filePath", Json::Str(self.file_path.clone()));
        b.put("text", Json::Str(self.text.clone()));
        b.put("selection", self.selection.to_json());
        assert(b@ =~= seq![
            ("filePath"@, JsonValue::Str(self.file_path@)),
            ("text"@, JsonValue::Str(self.text@)),
            ("selection"@, range_json(self.selection)),
        ]);
        b.finish()
    }
}

/// One entry of the answer of `getOpenEditors`.
#[derive(Debug, Clone)]
pub struct OpenEditor {
    pub file_path: String,
    pub language_id: String,
    pub is_dirty: Option<bool>,
    pub is_active: Option<bool>,
}

/// The model of an [`OpenEditor`].
pub ghost struct OpenEditorView {
    pub file_path: Seq<char>,
    pub language_id: Seq<char>,
    pub is_dirty: Option<bool>,
    pub is_active: Option<bool>,
}

impl View for OpenEditor {
    type V = OpenEditorView;

    open spec fn view(&self) -> OpenEditorView {
        OpenEditorView {
            file_path: self.file_path@,
            language_id: self.language_id@,
            is_dirty: self.is_dirty,
            is_active: self.is_active,
        }
    }
}

/// The JSON form of an optional flag.
pub open spec fn optional_flag_json(flag: Option<bool>) -> Option<JsonValue> {
    match flag {
        Some(b) => Some(JsonValue::Bool(b)),
        None => None,
    }
}

/// The JSON form of an open editor; absent flags are left out.
pub open spec fn open_editor_json(e: OpenEditorView) -> JsonValue {
    JsonValue::Object(
        push_optional(
            push_optional(
                seq![
                    ("filePath"@, JsonValue::Str(e.file_path)),
                    ("languageId"@, JsonValue::Str(e.language_id)),
                ],
                "isDirty"@,
                optional_flag_json(e.is_dirty),
            ),
            "isActive"@,
            optional_flag_json(e.is_active),
        ),
    )
}

fn optional_flag_to_json(flag: Option<bool>) -> (r: Option<Json>)
    ensures
        r.deep_view() == optional_flag_json(flag),
{
    match flag {
        Some(b) => Some(Json::Bool(b)),
        None => None,
    }
}

impl OpenEditor {
    /// The entry as JSON.
    pub fn to_json(&self) -> (r: Json)
        ensures
            r@ == open_editor_json(self@),
    {
        let mut b = ObjectBuilder::new();
        b.put("filePath", Json::Str(self.file_path.clone()));
        b.put("languageId", Json::Str(self.language_id.clone()));
        assert(b@ =~= seq![
            ("filePath"@, JsonValue::Str(self.file_path@)),
            ("languageId"@, JsonValue::Str(self.language_id@)),
        ]);
        b.put_optional("isDirty", optional_flag_to_json(self.is_dirty));
        b.put_optional("isActive", optional_flag_to_json(self.is_active));
        b.finish()
    }
}

/// One entry of the answer of `getWorkspaceFolders`.
#[derive(Debug, Clone)]
pub struct WorkspaceFolder {
    pub uri: String,
    pub name: String,
}

/// The model of a [`WorkspaceFolder`].
pub ghost struct WorkspaceFolderEntry {
    pub uri: Seq<char>,
    pub name: Seq<char>,
}

impl View for WorkspaceFolder {
    type V = WorkspaceFolderEntry;

    open spec fn view(&self) -> WorkspaceFolderEntry {
        WorkspaceFolderEntry { uri: self.uri@, name: self.name@ }
    }
}

/// The JSON form of a workspace folder.
pub open spec fn workspace_folder_json(f: WorkspaceFolderEntry) -> JsonValue {
    JsonValue::Object(seq![("uri"@, JsonValue::Str(f.uri)), ("name"@, JsonValue::Str(f.name))])
}

impl WorkspaceFolder {
    /// The entry as JSON.
    pub fn to_json(&self) -> (r: Json)
        ensures
            r@ == workspace_folder_json(self@),
    {
        let mut b = ObjectBuilder::new();
        b.put("uri", Json::Str(self.uri.clone()));
        b.put("name", Json::Str(self.name.clone()));
        assert(b@ =~= seq![
            ("uri"@, JsonValue::Str(self.uri@)),
            ("name"@, JsonValue::Str(self.name@)),
        ]);
        b.finish()
    }
}

/// How grave a diagnostic is.
#[derive(Debug, Clone, Copy, PartialEq, Eq, Structural)]
pub enum DiagnosticSeverity {
    Error,
    Warning,
    Information,
    Hint,
}

/// The word that stands for a severity on the wire.
pub open spec fn severity_word(s: DiagnosticSeverity) -> Seq<char> {
    match s {
        DiagnosticSeverity::Error => "error"@,
        DiagnosticSeverity::Warning => "warning"@,
        DiagnosticSeverity::Information => "information"@,
        DiagnosticSeverity::Hint => "hint"@,
    }
}

/// The severity that a tag of the session stands for: `error`, `warning`
/// and `hint` stand for themselves, every other tag for information.
pub open spec fn severity_of(tag: Seq<char>) -> DiagnosticSeverity {
    if tag == "error"@ {
        DiagnosticSeverity::Error
    } else if tag == "warning"@ {
        DiagnosticSeverity::Warning
    } else if tag == "hint"@ {
        DiagnosticSeverity::Hint
    } else {
        DiagnosticSeverity::Information
    }
}

impl DiagnosticSeverity {
    /// The severity that a tag of the session stands for.
    pub fn from_tag(tag: &str) -> (r: DiagnosticSeverity)
        ensures
            r == severity_of(tag@),
    {
        if crate::text::str_eq(tag, "error") {
            DiagnosticSeverity::Error
        } else if crate::text::str_eq(tag, "warning") {
            DiagnosticSeverity::Warning
        } else if crate::text::str_eq(tag, "hint") {
            DiagnosticSeverity::Hint
        } else {
            DiagnosticSeverity::Information
        }
    }

    /// The word that stands for the severity on the wire.
    pub fn as_str(&self) -> (r: &'static str)
        ensures
            r@ == severity_word(*self),
    {
        match self {
            DiagnosticSeverity::Error => "error",
            DiagnosticSeverity::Warning => "warning",
            DiagnosticSeverity::Information => "information",
            DiagnosticSeverity::Hint => "hint",
        }
    }
}

/// One entry of the answer of `getDiagnostics`.
#[derive(Debug, Clone)]
pub struct Diagnostic {
    pub file_path: String,
    pub range: SelectionRange,
    pub message: String,
    pub severity: DiagnosticSeverity,
    pub source: Option<String>,
}

/// The model of a [`Diagnostic`].
pub ghost struct DiagnosticEntry {
    pub file_path: Seq<char>,
    pub range: SelectionRange,
    pub message: Seq<char>,
    pub severity: DiagnosticSeverity,
    pub source: Option<Seq<char>>,
}

impl View for Diagnostic {
    type V = DiagnosticEntry;

    open spec fn view(&self) -> DiagnosticEntry {
        DiagnosticEntry {
            file_path: self.file_path@,
            range: self.range,
            message: self.message@,
            severity: self.severity,
            source: self.source.deep_view(),
        }
    }
}

/// The JSON form of a diagnostic; an absent source is left out.
pub open spec fn diagnostic_json(d: DiagnosticEntry) -> JsonValue {
    JsonValue::Object(
        push_optional(
            seq![
                ("filePath"@, JsonValue::Str(d.file_path)),
                ("range"@, range_json(d.range)),
                ("message"@, JsonValue::Str(d.message)),
                ("severity"@, JsonValue::Str(severity_word(d.severity))),
            ],
            "source"@,
            optional_text_json(d.source),
        ),
    )
}

impl Diagnostic {
    /// The entry as JSON.
    pub fn to_json(&self) -> (r: Json)
        ensures
            r@ == diagnostic_json(self@),
    {
        let mut b = ObjectBuilder::new();
        b.put("filePath", Json::Str(self.file_path.clone()));
        b.put("range", self.range.to_json());
        b.put("message", Json::Str(self.message.clone()));
        b.put("severity", Json::text(self.severity.as_str()));
        assert(b@ =~= seq![
            ("filePath"@, JsonValue::Str(self.file_path@)),
            ("range"@, range_json(self.range)),
            ("message"@, JsonValue::Str(self.message@)),
            ("severity"@, JsonValue::Str(severity_word(self.severity))),
        ]);
        b.put_optional("source", optional_text_to_json(&self.source));
        b.finish()
    }
}

/// The answer of `openFile`.
#[derive(Debug, Clone)]
pub struct OpenFileResult {
    pub success: bool,
    pub error: Option<String>,
}

/// The model of an [`OpenFileResult`].
pub ghost struct OpenFileResultView {
    pub success: bool,
    pub error: Option<Seq<char>>,
}

impl View for OpenFileResult {
    type V = OpenFileResultView;

    open spec fn view(&self) -> OpenFileResultView {
        OpenFileResultView { success: self.success, error: self.error.deep_view() }
    }
}

/// The JSON form of an `openFile` answer; an absent error is left out.
pub open spec fn open_file_result_json(r: OpenFileResultView) -> JsonValue {
    JsonValue::Object(
        push_optional(
            seq![("success"@, JsonValue::Bool(r.success))],
            "error"@,
            optional_text_json(r.error),
        ),
    )
}

impl OpenFileResult {
    /// The answer as JSON.
    pub fn to_json(&self) -> (r: Json)
        ensures
            r@ == open_file_result_json(self@),
    {
        let mut b = ObjectBuilder::new();
        b.put("success", Json::Bool(self.success));
        assert(b@ =~= seq![("success"@, JsonValue::Bool(self.success))]);
        b.put_optional("error", optional_text_to_json(&self.error));
        b.finish()
    }
}

/// The record by which a client finds a running server.
#[derive(Debug, Clone)]
pub struct LockFileContent {
    pub pid: u32,
    pub workspace_path: String,
    pub transport: String,
    pub ide_name: String,
    pub ide_version: Option<String>,
}

/// The model of a [`LockFileContent`].
pub ghost struct LockFileContentView {
    pub pid: u32,
    pub workspace_path: Seq<char>,
    pub transport: Seq<char>,
    pub ide_name: Seq<char>,
    pub ide_version: Option<Seq<char>>,
}

impl View for LockFileContent {
    type V = LockFileContentView;

    open spec fn view(&self) -> LockFileContentView {
        LockFileContentView {
            pid: self.pid,
            workspace_path: self.workspace_path@,
            transport: self.transport@,
            ide_name: self.ide_name@,
            ide_version: self.ide_version.deep_view(),
        }
    }
}

impl DeepView for LockFileContent {
    type V = LockFileContentView;

    open spec fn deep_view(&self) -> LockFileContentView {
        self@
    }
}

/// The JSON form of a discovery record; an absent version is left out.
pub open spec fn lock_file_content_json(c: LockFileContentView) -> JsonValue {
    JsonValue::Object(
        push_optional(
            seq![
                ("pid"@, JsonValue::Int(c.pid as int)),
                ("workspacePath"@, JsonValue::Str(c.workspace_path)),
                ("transport"@, JsonValue::Str(c.transport)),
                ("ideName"@, JsonValue::Str(c.ide_name)),
            ],
            "ideVersion"@,
            optional_text_json(c.ide_version),
        ),
    )
}

/// Whether an integer fits `u32`.
pub open spec fn fits_u32(n: int) -> bool {
    0 <= n <= u32::MAX
}

/// The discovery record that a document stands for: an object with an
/// integer `pid` that fits 32 bits unsigned and strings `workspacePath`,
/// `transport` and `ideName`; `ideVersion`, where present and not `null`, is
/// a string.
pub open spec fn lock_file_content_from_json(doc: JsonValue) -> Option<LockFileContentView> {
    match (
        doc.field("pid"@),
        text_field(doc, "workspacePath"@),
        text_field(doc, "transport"@),
        text_field(doc, "ideName"@),
    ) {
        (Some(pid), Some(workspace_path), Some(transport), Some(ide_name)) => match (
            pid.as_integer(),
            optional_field(doc, "ideVersion"@),
        ) {
            (Some(n), Some(v)) => if fits_u32(n) && v.as_text() is Some {
                Some(
                    LockFileContentView {
                        pid: n as u32,
                        workspace_path,
                        transport,
                        ide_name,
                        ide_version: v.as_text(),
                    },
                )
            } else {
                None
            },
            (Some(n), None) => if fits_u32(n) {
                Some(
                    LockFileContentView {
                        pid: n as u32,
                        workspace_path,
                        transport,
                        ide_name,
                        ide_version: None,
                    },
                )
            } else {
                None
            },
            _ => None,
        },
        _ => None,
    }
}

impl LockFileContent {
    /// The record as JSON.
    pub fn to_json(&self) -> (r: Json)
        ensures
            r@ == lock_file_content_json(self@),
    {
        let mut b = ObjectBuilder::new();
        b.put("pid", Json::Int(self.pid as i64));
        b.put("workspacePath", Json::Str(self.workspace_path.clone()));
        b.put("transport", Json::Str(self.transport.clone()));
        b.put("ideName", Json::Str(self.ide_name.clone()));
        assert(b@ =~= seq![
            ("pid"@, JsonValue::Int(self.pid as int)),
            ("workspacePath"@, JsonValue::Str(self.workspace_path@)),
            ("transport"@, JsonValue::Str(self.transport@)),
            ("ideName"@, JsonValue::Str(self.ide_name@)),
        ]);
        b.put_optional("ideVersion", optional_text_to_json(&self.ide_version));
        b.finish()
    }

    /// Reads a discovery record; `None` where the document is none.
    pub fn from_json(doc: &Json) -> (r: Option<LockFileContent>)
        ensures
            r.deep_view() == lock_file_content_from_json(doc@),
    {
        let pid = match doc.get("pid") {
            Some(p) => match p.as_i64() {
                Some(n) => if 0 <= n && n <= 4294967295i64 {
                    n as u32
                } else {
                    return None;
                },
                None => {
                    return None;
                },
            },
            None => {
                return None;
            },
        };
        let workspace_path = match doc.get_str("workspacePath") {
            Some(t) => t.to_string(),
            None => {
                return None;
            },
        };
        let transport = match doc.get_str("transport") {
            Some(t) => t.to_string(),
            None => {
                return None;
            },
        };
        let ide_name = match doc.get_str("ideName") {
            Some(t) => t.to_string(),
            None => {
                return None;
            },
        };
        let ide_version = match doc.get_optional("ideVersion") {
            Some(v) => match v.as_str() {
                Some(t) => Some(t.to_string()),
                None => {
                    return None;
                },
            },
            None => None,
        };
        Some(LockFileContent { pid, workspace_path, transport, ide_name, ide_version })
    }
}

} // verus!
