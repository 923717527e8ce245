//! The host loop's side: the snapshot that it publishes for the tools, and
//! what it does with a command.

use vstd::prelude::*;
use crate::command::IdeCommand;
use crate::comment::{comment_type_name, Comment, CommentType, CommentView};
use crate::state::{
    with_active, DiagnosticInfo, DiagnosticView, IdeState, IdeStateView, OpenFileInfo,
    OpenFileView, Selection, SelectionView,
};
use crate::text::{contains_text, occurs_in, str_eq};

verus! {

/// How a file differs between the two sides of the review.
#[derive(Debug, Clone, Copy, PartialEq, Eq, Structural)]
pub enum FileStatus {
    Added,
    Modified,
    Deleted,
    Renamed,
    Copied,
}

/// The name of a file status.
pub open spec fn file_status_name(s: FileStatus) -> Seq<char> {
    match s {
        FileStatus::Added => "Added"@,
        FileStatus::Modified => "Modified"@,
        FileStatus::Deleted => "Deleted"@,
        FileStatus::Renamed => "Renamed"@,
        FileStatus::Copied => "Copied"@,
    }
}

impl FileStatus {
    /// The name of the status.
    pub fn name(&self) -> (r: &'static str)
        ensures
            r@ == file_status_name(*self),
    {
        match self {
            FileStatus::Added => "Added",
            FileStatus::Modified => "Modified",
            FileStatus::Deleted => "Deleted",
            FileStatus::Renamed => "Renamed",
            FileStatus::Copied => "Copied",
        }
    }
}

/// A path as the host hands it over: its text, and its extension where it
/// has one.
#[derive(Debug, Clone)]
pub struct FilePath {
    pub text: String,
    pub extension: Option<String>,
}

/// The model of a [`FilePath`].
pub ghost struct FilePathView {
    pub text: Seq<char>,
    pub extension: Option<Seq<char>>,
}

impl View for FilePath {
    type V = FilePathView;

    open spec fn view(&self) -> FilePathView {
        FilePathView { text: self.text@, extension: self.extension.deep_view() }
    }
}

impl DeepView for FilePath {
    type V = FilePathView;

    open spec fn deep_view(&self) -> FilePathView {
        self@
    }
}

/// One file of the diff under review.
#[derive(Debug, Clone)]
pub struct SessionFile {
    pub new_path: Option<FilePath>,
    pub old_path: Option<FilePath>,
    pub status: FileStatus,
    pub reviewed: bool,
}

/// The model of a [`SessionFile`].
pub ghost struct SessionFileView {
    pub new_path: Option<FilePathView>,
    pub old_path: Option<FilePathView>,
    pub status: FileStatus,
    pub reviewed: bool,
}

impl View for SessionFile {
    type V = SessionFileView;

    open spec fn view(&self) -> SessionFileView {
        SessionFileView {
            new_path: self.new_path.deep_view(),
            old_path: self.old_path.deep_view(),
            status: self.status,
            reviewed: self.reviewed,
        }
    }
}

impl DeepView for SessionFile {
    type V = SessionFileView;

    open spec fn deep_view(&self) -> SessionFileView {
        self@
    }
}

/// The comments on one line of a file.
#[derive(Debug, Clone)]
pub struct LineComments {
    pub line: u32,
    pub comments: Vec<Comment>,
}

/// The model of [`LineComments`].
pub ghost struct LineCommentsView {
    pub line: u32,
    pub comments: Seq<CommentView>,
}

impl View for LineComments {
    type V = LineCommentsView;

    open spec fn view(&self) -> LineCommentsView {
        LineCommentsView { line: self.line, comments: self.comments.deep_view() }
    }
}

impl DeepView for LineComments {
    type V = LineCommentsView;

    open spec fn deep_view(&self) -> LineCommentsView {
        self@
    }
}

/// The comments on one file: those on the file as a whole, then those on
/// its lines.
#[derive(Debug, Clone)]
pub struct FileReview {
    pub path: String,
    pub file_comments: Vec<Comment>,
    pub line_comments: Vec<LineComments>,
}

/// The model of a [`FileReview`].
pub ghost struct FileReviewView {
    pub path: Seq<char>,
    pub file_comments: Seq<CommentView>,
    pub line_comments: Seq<LineCommentsView>,
}

impl View for FileReview {
    type V = FileReviewView;

    open spec fn view(&self) -> FileReviewView {
        FileReviewView {
            path: self.path@,
            file_comments: self.file_comments.deep_view(),
            line_comments: self.line_comments.deep_view(),
        }
    }
}

impl DeepView for FileReview {
    type V = FileReviewView;

    open spec fn deep_view(&self) -> FileReviewView {
        self@
    }
}

/// What the host loop shows of its state when it publishes a snapshot.
#[derive(Debug, Clone)]
pub struct HostSnapshot {
    /// The root of the repository.
    pub root_path: String,
    /// The final component of the root, where it has one.
    pub root_name: Option<String>,
    /// The files of the diff, in order.
    pub files: Vec<SessionFile>,
    /// The index of the file that is being viewed.
    pub current_file_idx: usize,
    /// The comments of the session, file by file.
    pub reviews: Vec<FileReview>,
    /// Whether lines are being selected.
    pub visual_select: bool,
    /// The line at which the selection began.
    pub visual_anchor: Option<u32>,
}

/// The model of a [`HostSnapshot`].
pub ghost struct HostSnapshotView {
    pub root_path: Seq<char>,
    pub root_name: Option<Seq<char>>,
    pub files: Seq<SessionFileView>,
    pub current_file_idx: usize,
    pub reviews: Seq<FileReviewView>,
    pub visual_select: bool,
    pub visual_anchor: Option<u32>,
}

impl View for HostSnapshot {
    type V = HostSnapshotView;

    open spec fn view(&self) -> HostSnapshotView {
        HostSnapshotView {
            root_path: self.root_path@,
            root_name: self.root_name.deep_view(),
            files: self.files.deep_view(),
            current_file_idx: self.current_file_idx,
            reviews: self.reviews.deep_view(),
            visual_select: self.visual_select,
            visual_anchor: self.visual_anchor,
        }
    }
}

/// The language that a file extension stands for; `plaintext` for an
/// extension that is not known.
pub open spec fn language_for(extension: Seq<char>) -> Seq<char> {
    if extension == "rs"@ {
        "rust"@
    } else if extension == "py"@ {
        "python"@
    } else if extension == "js"@ {
        "javascript"@
    } else if extension == "ts"@ {
        "typescript"@
    } else if extension == "tsx"@ {
        "typescriptreact"@
    } else if extension == "jsx"@ {
        "javascriptreact"@
    } else if extension == "go"@ {
        "go"@
    } else if extension == "java"@ {
        "java"@
    } else if extension == "c"@ || extension == "h"@ {
        "c"@
    } else if extension == "cpp"@ || extension == "hpp"@ || extension == "cc"@ || extension
        == "cxx"@ {
        "cpp"@
    } else if extension == "rb"@ {
        "ruby"@
    } else if extension == "php"@ {
        "php"@
    } else if extension == "swift"@ {
        "swift"@
    } else if extension == "kt"@ || extension == "kts"@ {
        "kotlin"@
    } else if extension == "scala"@ {
        "scala"@
    } else if extension == "lua"@ {
        "lua"@
    } else if extension == "sh"@ || extension == "bash"@ {
        "shellscript"@
    } else if extension == "json"@ {
        "json"@
    } else if extension == "yaml"@ || extension == "yml"@ {
        "yaml"@
    } else if extension == "toml"@ {
        "toml"@
    } else if extension == "xml"@ {
        "xml"@
    } else if extension == "html"@ {
        "html"@
    } else if extension == "css"@ {
        "css"@
    } else if extension == "scss"@ {
        "scss"@
    } else if extension == "md"@ {
        "markdown"@
    } else {
        "plaintext"@
    }
}

/// The language that a file extension stands for.
pub fn language_id(extension: &str) -> (r: &'static str)
    ensures
        r@ == language_for(extension@),
{
    if str_eq(extension, "rs") {
        "rust"
    } else if str_eq(extension, "py") {
        "python"
    } else if str_eq(extension, "js") {
        "javascript"
    } else if str_eq(extension, "ts") {
        "typescript"
    } else if str_eq(extension, "tsx") {
        "typescriptreact"
    } else if str_eq(extension, "jsx") {
        "javascriptreact"
    } else if str_eq(extension, "go") {
        "go"
    } else if str_eq(extension, "java") {
        "java"
    } else if str_eq(extension, "c") || str_eq(extension, "h") {
        "c"
    } else if str_eq(extension, "cpp") || str_eq(extension, "hpp") || str_eq(extension, "cc")
        || str_eq(extension, "cxx") {
        "cpp"
    } else if str_eq(extension, "rb") {
        "ruby"
    } else if str_eq(extension, "php") {
        "php"
    } else if str_eq(extension, "swift") {
        "swift"
    } else if str_eq(extension, "kt") || str_eq(extension, "kts") {
        "kotlin"
    } else if str_eq(extension, "scala") {
        "scala"
    } else if str_eq(extension, "lua") {
        "lua"
    } else if str_eq(extension, "sh") || str_eq(extension, "bash") {
        "shellscript"
    } else if str_eq(extension, "json") {
        "json"
    } else if str_eq(extension, "yaml") || str_eq(extension, "yml") {
        "yaml"
    } else if str_eq(extension, "toml") {
        "toml"
    } else if str_eq(extension, "xml") {
        "xml"
    } else if str_eq(extension, "html") {
        "html"
    } else if str_eq(extension, "css") {
        "css"
    } else if str_eq(extension, "scss") {
        "scss"
    } else if str_eq(extension, "md") {
        "markdown"
    } else {
        "plaintext"
    }
}

/// The severity tag under which a comment of this type is published:
/// issues as errors, suggestions as warnings, notes as information, praise
/// as hints.
pub open spec fn severity_tag(t: CommentType) -> Seq<char> {
    match t {
        CommentType::Issue => "error"@,
        CommentType::Suggestion => "warning"@,
        CommentType::Note => "information"@,
        CommentType::Praise => "hint"@,
    }
}

/// The severity tag under which a comment of this type is published.
pub fn comment_type_to_severity(comment_type: &CommentType) -> (r: String)
    ensures
        r@ == severity_tag(*comment_type),
{
    match comment_type {
        CommentType::Issue => "error".to_string(),
        CommentType::Suggestion => "warning".to_string(),
        CommentType::Note => "information".to_string(),
        CommentType::Praise => "hint".to_string(),
    }
}

/// The path under which a file is shown: its new path, else its old path,
/// else the empty path.
pub open spec fn shown_path(f: SessionFileView) -> FilePathView {
    match f.new_path {
        Some(p) => p,
        None => match f.old_path {
            Some(p) => p,
            None => FilePathView { text: Seq::empty(), extension: None },
        },
    }
}

/// The extension of a path, empty where it has none.
pub open spec fn extension_or_empty(p: FilePathView) -> Seq<char> {
    match p.extension {
        Some(e) => e,
        None => Seq::empty(),
    }
}

/// What is published of a file: a file counts as dirty until it is
/// reviewed.
pub open spec fn open_file_of(f: SessionFileView, active: bool) -> OpenFileView {
    OpenFileView {
        file_path: shown_path(f).text,
        language_id: language_for(extension_or_empty(shown_path(f))),
        is_dirty: !f.reviewed,
        is_active: active,
        status: file_status_name(f.status),
        reviewed: f.reviewed,
    }
}

/// What is published of the files: each file in order, the current one
/// marked active.
pub open spec fn open_files_of(files: Seq<SessionFileView>, current: usize) -> Seq<OpenFileView> {
    Seq::new(files.len(), |i: int| open_file_of(files[i], i == current))
}

/// The diagnostic of a comment on a file as a whole: it stands at line 1.
pub open spec fn file_comment_diagnostic(path: Seq<char>, c: CommentView) -> DiagnosticView {
    DiagnosticView {
        file_path: path,
        start_line: 1,
        end_line: 1,
        message: c.content,
        severity: severity_tag(c.comment_type),
        comment_type: comment_type_name(c.comment_type),
    }
}

/// The diagnostic of a comment on a line: it spans the comment's range,
/// or the line where the comment has none.
pub open spec fn line_comment_diagnostic(path: Seq<char>, line: u32, c: CommentView) -> DiagnosticView {
    DiagnosticView {
        file_path: path,
        start_line: match c.line_range {
            Some(r) => r.start,
            None => line,
        },
        end_line: match c.line_range {
            Some(r) => r.end,
            None => line,
        },
        message: c.content,
        severity: severity_tag(c.comment_type),
        comment_type: comment_type_name(c.comment_type),
    }
}

/// The diagnostics of the comments on one line, in order.
pub open spec fn line_diagnostics(path: Seq<char>, group: LineCommentsView) -> Seq<DiagnosticView> {
    group.comments.map_values(|c: CommentView| line_comment_diagnostic(path, group.line, c))
}

/// The diagnostics of the comments on the lines of a file, line group by
/// line group.
pub open spec fn lines_diagnostics(path: Seq<char>, groups: Seq<LineCommentsView>) -> Seq<
    DiagnosticView,
>
    decreases groups.len(),
{
    if groups.len() == 0 {
        Seq::empty()
    } else {
        lines_diagnostics(path, groups.drop_last()) + line_diagnostics(path, groups.last())
    }
}

/// The diagnostics of one file: those of the comments on the file, then
/// those of the comments on its lines.
pub open spec fn review_diagnostics(r: FileReviewView) -> Seq<DiagnosticView> {
    r.file_comments.map_values(|c: CommentView| file_comment_diagnostic(r.path, c))
        + lines_diagnostics(r.path, r.line_comments)
}

/// The diagnostics of the session, file by file.
pub open spec fn session_diagnostics(reviews: Seq<FileReviewView>) -> Seq<DiagnosticView>
    decreases reviews.len(),
{
    if reviews.len() == 0 {
        Seq::empty()
    } else {
        session_diagnostics(reviews.drop_last()) + review_diagnostics(reviews.last())
    }
}

/// The selection that is published: the anchor line of the current file
/// while lines are being selected; none outside of line selection, without
/// an anchor, or without a current file.
pub open spec fn selection_of(app: HostSnapshotView) -> Option<SelectionView> {
    if app.visual_select && app.visual_anchor is Some && app.current_file_idx < app.files.len() {
        Some(
            SelectionView {
                file_path: shown_path(app.files[app.current_file_idx as int]).text,
                text: Seq::empty(),
                start_line: app.visual_anchor->0,
                end_line: app.visual_anchor->0,
            },
        )
    } else {
        None
    }
}

/// The snapshot that the host's state gives. Nothing of an earlier
/// snapshot is in it.
pub open spec fn synced(app: HostSnapshotView) -> IdeStateView {
    IdeStateView {
        selection: selection_of(app),
        open_files: open_files_of(app.files, app.current_file_idx),
        workspace_path: Some(app.root_path),
        workspace_name: app.root_name,
        diagnostics: session_diagnostics(app.reviews),
        active_file_index: app.current_file_idx,
    }
}

fn shown_text(f: &SessionFile) -> (r: String)
    ensures
        r@ == shown_path(f@).text,
{
    match &f.new_path {
        Some(p) => p.text.clone(),
        None => match &f.old_path {
            Some(p) => p.text.clone(),
            None => String::new(),
        },
    }
}

fn shown_language(f: &SessionFile) -> (r: &'static str)
    ensures
        r@ == language_for(extension_or_empty(shown_path(f@))),
{
    proof {
        reveal_strlit("");
        assert(""@ =~= Seq::<char>::empty());
    }
    let shown = match &f.new_path {
        Some(p) => Some(p),
        None => match &f.old_path {
            Some(p) => Some(p),
            None => None,
        },
    };
    match shown {
        Some(p) => match &p.extension {
            Some(e) => language_id(e.as_str()),
            None => language_id(""),
        },
        None => language_id(""),
    }
}

fn publish_files(files: &Vec<SessionFile>, current: usize) -> (r: Vec<OpenFileInfo>)
    ensures
        r.deep_view() == open_files_of(files.deep_view(), current),
{
    let mut out: Vec<OpenFileInfo> = Vec::new();
    let mut i: usize = 0;
    while i < files.len()
        invariant
            i <= files.len(),
            out.len() == i,
            forall|k: int| 0 <= k < i ==> out@[k]@ == open_file_of(files@[k]@, k == current),
        decreases files.len() - i,
    {
        let f = &files[i];
        out.push(
            OpenFileInfo {
                file_path: shown_text(f),
                language_id: shown_language(f).to_string(),
                is_dirty: !f.reviewed,
                is_active: i == current,
                status: f.status.name().to_string(),
                reviewed: f.reviewed,
            },
        );
        i += 1;
    }
    assert(out.deep_view() =~= open_files_of(files.deep_view(), current));
    out
}

fn publish_review(review: &FileReview, out: &mut Vec<DiagnosticInfo>)
    ensures
        final(out).deep_view() == old(out).deep_view() + review_diagnostics(review@),
{
    let ghost start = out.deep_view();
    let ghost path = review.path@;
    let ghost on_file = review.file_comments.deep_view();
    let mut i: usize = 0;
    assert(out.deep_view() =~= start + on_file.take(0).map_values(
        |c: CommentView| file_comment_diagnostic(path, c),
    ));
    while i < review.file_comments.len()
        invariant
            i <= review.file_comments.len(),
            path == review.path@,
            on_file == review.file_comments.deep_view(),
            out.deep_view() == start + on_file.take(i as int).map_values(
                |c: CommentView| file_comment_diagnostic(path, c),
            ),
        decreases review.file_comments.len() - i,
    {
        let c = &review.file_comments[i];
        let ghost before = out.deep_view();
        out.push(
            DiagnosticInfo {
                file_path: review.path.clone(),
                start_line: 1,
                end_line: 1,
                message: c.content.clone(),
                severity: comment_type_to_severity(&c.comment_type),
                comment_type: c.comment_type.name().to_string(),
            },
        );
        assert(out.deep_view() =~= before.push(file_comment_diagnostic(path, on_file[i as int])));
        assert(out.deep_view() =~= start + on_file.take(i as int + 1).map_values(
            |c: CommentView| file_comment_diagnostic(path, c),
        ));
        i += 1;
    }
    assert(on_file.take(i as int) =~= on_file);
    let ghost after_file = out.deep_view();
    let ghost groups = review.line_comments.deep_view();
    let mut g: usize = 0;
    assert(out.deep_view() =~= after_file + lines_diagnostics(path, groups.take(0)));
    while g < review.line_comments.len()
        invariant
            g <= review.line_comments.len(),
            path == review.path@,
            groups == review.line_comments.deep_view(),
            out.deep_view() == after_file + lines_diagnostics(path, groups.take(g as int)),
        decreases review.line_comments.len() - g,
    {
        let group = &review.line_comments[g];
        let ghost at_group = out.deep_view();
        let ghost in_group = group.comments.deep_view();
        let ghost line = group.line;
        let mut j: usize = 0;
        assert(out.deep_view() =~= at_group + in_group.take(0).map_values(
            |c: CommentView| line_comment_diagnostic(path, line, c),
        ));
        while j < group.comments.len()
            invariant
                j <= group.comments.len(),
                path == review.path@,
                line == group.line,
                in_group == group.comments.deep_view(),
                out.deep_view() == at_group + in_group.take(j as int).map_values(
                    |c: CommentView| line_comment_diagnostic(path, line, c),
                ),
            decreases group.comments.len() - j,
        {
            let c = &group.comments[j];
            let (start_line, end_line) = match &c.line_range {
                Some(range) => (range.start, range.end),
                None => (group.line, group.line),
            };
            let ghost before = out.deep_view();
            out.push(
                DiagnosticInfo {
                    file_path: review.path.clone(),
                    start_line,
                    end_line,
                    message: c.content.clone(),
                    severity: comment_type_to_severity(&c.comment_type),
                    comment_type: c.comment_type.name().to_string(),
                },
            );
            assert(out.deep_view() =~= before.push(
                line_comment_diagnostic(path, line, in_group[j as int]),
            ));
            assert(out.deep_view() =~= at_group + in_group.take(j as int + 1).map_values(
                |c: CommentView| line_comment_diagnostic(path, line, c),
            ));
            j += 1;
        }
        proof {
            assert(in_group.take(j as int) =~= in_group);
            assert(groups.take(g as int + 1).drop_last() =~= groups.take(g as int));
            assert(groups.take(g as int + 1).last() == groups[g as int]);
            assert(groups[g as int] == group@);
            assert(out.deep_view() =~= after_file + lines_diagnostics(
                path,
                groups.take(g as int + 1),
            ));
        }
        g += 1;
    }
    assert(groups.take(g as int) =~= groups);
    assert(out.deep_view() =~= start + review_diagnostics(review@));
}

fn publish_diagnostics(reviews: &Vec<FileReview>) -> (r: Vec<DiagnosticInfo>)
    ensures
        r.deep_view() == session_diagnostics(reviews.deep_view()),
{
    let ghost all = reviews.deep_view();
    let mut out: Vec<DiagnosticInfo> = Vec::new();
    let mut i: usize = 0;
    assert(out.deep_view() =~= session_diagnostics(all.take(0)));
    while i < reviews.len()
        invariant
            i <= reviews.len(),
            all == reviews.deep_view(),
            out.deep_view() == session_diagnostics(all.take(i as int)),
        decreases reviews.len() - i,
    {
        publish_review(&reviews[i], &mut out);
        proof {
            assert(all.take(i as int + 1).drop_last() =~= all.take(i as int));
            assert(all.take(i as int + 1).last() == reviews[i as int]@);
        }
        i += 1;
    }
    assert(all.take(i as int) =~= all);
    out
}

fn published_selection(app: &HostSnapshot) -> (r: Option<Selection>)
    ensures
        r.deep_view() == selection_of(app@),
{
    if !app.visual_select {
        return None;
    }
    match app.visual_anchor {
        Some(anchor) => if app.current_file_idx < app.files.len() {
            Some(
                Selection {
                    file_path: shown_text(&app.files[app.current_file_idx]),
                    text: String::new(),
                    start_line: anchor,
                    end_line: anchor,
                },
            )
        } else {
            None
        },
        None => None,
    }
}

/// Publishes the host's state in the snapshot that the tools read: every
/// part of the snapshot is overwritten.
pub fn sync_app_to_ide_state(app: &HostSnapshot, state: &mut IdeState)
    ensures
        final(state)@ == synced(app@),
{
    let root_name = match &app.root_name {
        Some(n) => Some(n.clone()),
        None => None,
    };
    state.set_workspace(app.root_path.clone(), root_name);
    state.set_open_files(publish_files(&app.files, app.current_file_idx));
    state.set_active_file(app.current_file_idx);
    assert(with_active(open_files_of(app@.files, app.current_file_idx), app.current_file_idx)
        =~= open_files_of(app@.files, app.current_file_idx));
    state.set_diagnostics(publish_diagnostics(&app.reviews));
    state.set_selection(published_selection(app));
}

/// The position of the first element that meets a predicate.
pub open spec fn first_where<A>(s: Seq<A>, pred: spec_fn(A) -> bool) -> Option<int>
    decreases s.len(),
{
    if s.len() == 0 {
        None
    } else {
        match first_where(s.drop_last(), pred) {
            Some(i) => Some(i),
            None => if pred(s.last()) {
                Some(s.len() - 1)
            } else {
                None
            },
        }
    }
}

/// The first element that meets the predicate stands where none before it
/// does; where no element meets it, there is none.
pub proof fn lemma_first_where<A>(s: Seq<A>, pred: spec_fn(A) -> bool)
    ensures
        match first_where(s, pred) {
            Some(i) => 0 <= i < s.len() && pred(s[i]) && forall|j: int|
                0 <= j < i ==> !pred(#[trigger] s[j]),
            None => forall|j: int| 0 <= j < s.len() ==> !pred(#[trigger] s[j]),
        },
    decreases s.len(),
{
    if s.len() > 0 {
        lemma_first_where(s.drop_last(), pred);
        assert forall|j: int| 0 <= j < s.len() - 1 implies s.drop_last()[j] == s[j] by {}
    }
}

/// An element that meets the predicate, with none before it that does, is
/// the first.
pub proof fn lemma_first_where_found<A>(s: Seq<A>, pred: spec_fn(A) -> bool, i: int)
    requires
        0 <= i < s.len(),
        pred(s[i]),
        forall|j: int| 0 <= j < i ==> !pred(#[trigger] s[j]),
    ensures
        first_where(s, pred) == Some(i),
{
    lemma_first_where(s, pred);
}

/// Where no element meets the predicate there is no first.
pub proof fn lemma_first_where_none<A>(s: Seq<A>, pred: spec_fn(A) -> bool)
    requires
        forall|j: int| 0 <= j < s.len() ==> !pred(#[trigger] s[j]),
    ensures
        first_where(s, pred) is None,
{
    lemma_first_where(s, pred);
}

/// One line of what the diff viewer shows.
#[derive(Debug, Clone, Copy, PartialEq, Eq, Structural)]
pub enum AnnotatedLine {
    /// A line of a file's diff, with its numbers on the two sides.
    DiffLine { file_idx: usize, old_lineno: Option<u32>, new_lineno: Option<u32> },
    /// Anything else: a header, a comment, a gap.
    Other,
}

/// Where the diff viewer stands.
#[derive(Debug, Clone, Copy, PartialEq, Eq, Structural)]
pub struct DiffViewState {
    /// The file that is selected in the file list.
    pub selected_file: Option<usize>,
    /// The file that is being viewed.
    pub current_file_idx: usize,
    /// The line of the view on which the cursor is.
    pub cursor_line: usize,
    /// The first line of the view that is shown.
    pub scroll_offset: usize,
    /// The number of lines that are shown.
    pub viewport_height: usize,
}

/// Whether a command for `path` means this file: the path under which the
/// file is shown holds `path`. A file without a path is never meant.
pub open spec fn names_file(path: Seq<char>) -> spec_fn(SessionFileView) -> bool {
    |f: SessionFileView|
        (f.new_path is Some || f.old_path is Some) && occurs_in(shown_path(f).text, path)
}

/// Whether a line of the view shows line `target` of the file at `file`,
/// on either side.
pub open spec fn shows_line(file: int, target: u32) -> spec_fn(AnnotatedLine) -> bool {
    |a: AnnotatedLine|
        match a {
            AnnotatedLine::DiffLine { file_idx, old_lineno, new_lineno } => file_idx == file && (
            new_lineno == Some(target) || old_lineno == Some(target)),
            AnnotatedLine::Other => false,
        }
}

/// `a - b`, and 0 where `b` is the larger.
pub open spec fn minus_or_zero(a: int, b: int) -> int {
    if a >= b {
        a - b
    } else {
        0
    }
}

/// The scroll offset that shows the cursor at line `at`: `at` itself
/// where it lies above the view; where it lies on the last shown line or
/// below, the offset that puts it in the middle; else the offset as it
/// was.
pub open spec fn scrolled_to(offset: int, height: int, at: int) -> int {
    if at < offset {
        at
    } else if at >= offset + minus_or_zero(height, 1) {
        minus_or_zero(at, height / 2)
    } else {
        offset
    }
}

/// Where the view stands after the cursor went to line `at`.
pub open spec fn moved_to(view: DiffViewState, at: int) -> DiffViewState {
    DiffViewState {
        cursor_line: at as usize,
        scroll_offset: scrolled_to(
            view.scroll_offset as int,
            view.viewport_height as int,
            at,
        ) as usize,
        ..view
    }
}

/// Where the view stands after a command to open `path`, at `line` where
/// one is given: unchanged where no file is meant; else at the first file
/// that is meant, with the cursor on the first line of the view that shows
/// `line` of that file, where there is one.
pub open spec fn after_open(
    view: DiffViewState,
    files: Seq<SessionFileView>,
    annotations: Seq<AnnotatedLine>,
    path: Seq<char>,
    line: Option<u32>,
) -> DiffViewState {
    match first_where(files, names_file(path)) {
        Some(idx) => {
            let at_file = DiffViewState {
                selected_file: Some(idx as usize),
                current_file_idx: idx as usize,
                ..view
            };
            match line {
                Some(target) => match first_where(annotations, shows_line(idx, target)) {
                    Some(at) => moved_to(at_file, at),
                    None => at_file,
                },
                None => at_file,
            }
        },
        None => view,
    }
}

fn file_is_named(f: &SessionFile, path: &str) -> (r: bool)
    ensures
        r == names_file(path@)(f@),
{
    match &f.new_path {
        Some(p) => contains_text(p.text.as_str(), path),
        None => match &f.old_path {
            Some(p) => contains_text(p.text.as_str(), path),
            None => false,
        },
    }
}

#[verifier::loop_isolation(false)]
fn find_file(files: &Vec<SessionFile>, path: &str) -> (r: Option<usize>)
    ensures
        match r {
            Some(i) => first_where(files.deep_view(), names_file(path@)) == Some(i as int),
            None => first_where(files.deep_view(), names_file(path@)) is None,
        },
{
    let ghost all = files.deep_view();
    let mut i: usize = 0;
    while i < files.len()
        invariant
            i <= files.len(),
            forall|j: int| 0 <= j < i ==> !names_file(path@)(#[trigger] all[j]),
        decreases files.len() - i,
    {
        if file_is_named(&files[i], path) {
            proof {
                lemma_first_where_found(all, names_file(path@), i as int);
            }
            return Some(i);
        }
        i += 1;
    }
    proof {
        lemma_first_where_none(all, names_file(path@));
    }
    None
}

#[verifier::loop_isolation(false)]
fn find_line(annotations: &Vec<AnnotatedLine>, file: usize, target: u32) -> (r: Option<usize>)
    ensures
        match r {
            Some(i) => first_where(annotations@, shows_line(file as int, target)) == Some(i as int),
            None => first_where(annotations@, shows_line(file as int, target)) is None,
        },
{
    let mut i: usize = 0;
    while i < annotations.len()
        invariant
            i <= annotations.len(),
            forall|j: int|
                0 <= j < i ==> !shows_line(file as int, target)(#[trigger] annotations@[j]),
        decreases annotations.len() - i,
    {
        let hit = match annotations[i] {
            AnnotatedLine::DiffLine { file_idx, old_lineno, new_lineno } => file_idx == file && (
            is_line(new_lineno, target) || is_line(old_lineno, target)),
            AnnotatedLine::Other => false,
        };
        if hit {
            proof {
                lemma_first_where_found(annotations@, shows_line(file as int, target), i as int);
            }
            return Some(i);
        }
        i += 1;
    }
    proof {
        lemma_first_where_none(annotations@, shows_line(file as int, target));
    }
    None
}

fn is_line(number: Option<u32>, target: u32) -> (r: bool)
    ensures
        r == (number == Some(target)),
{
    match number {
        Some(n) => n == target,
        None => false,
    }
}

/// Performs a command in the diff viewer and tells whether a file was
/// found for it, in which case the host publishes its state anew.
pub fn handle_ide_command(
    view: &mut DiffViewState,
    files: &Vec<SessionFile>,
    annotations: &Vec<AnnotatedLine>,
    cmd: IdeCommand,
) -> (found: bool)
    ensures
        match cmd {
            IdeCommand::OpenFile { path, line } => {
                &&& *final(view) == after_open(
                    *old(view),
                    files.deep_view(),
                    annotations@,
                    path@,
                    line,
                )
                &&& found == (first_where(files.deep_view(), names_file(path@)) is Some)
            },
        },
{
    match cmd {
        IdeCommand::OpenFile { path, line } => {
            let idx = match find_file(files, path.as_str()) {
                Some(idx) => idx,
                None => {
                    return false;
                },
            };
            view.selected_file = Some(idx);
            view.current_file_idx = idx;
            match line {
                Some(target) => match find_line(annotations, idx, target) {
                    Some(at) => {
                        view.cursor_line = at;
                        if at < view.scroll_offset {
                            view.scroll_offset = at;
                        } else if at - view.scroll_offset >= view.viewport_height.saturating_sub(
                            1,
                        ) {
                            view.scroll_offset = at.saturating_sub(view.viewport_height / 2);
                        }
                    },
                    None => {},
                },
                None => {},
            }
            true
        },
    }
}

/// How many commands the host loop performs between two frames, at most.
pub const MAX_IDE_COMMANDS_PER_FRAME: usize = 10;

/// How many of `pending` commands are performed before the next frame.
pub open spec fn frame_share(pending: nat) -> nat {
    if pending <= MAX_IDE_COMMANDS_PER_FRAME {
        pending
    } else {
        MAX_IDE_COMMANDS_PER_FRAME as nat
    }
}

/// Takes from the pending commands those that are performed before the
/// next frame: the oldest, in the order in which they came, and no more
/// than [`MAX_IDE_COMMANDS_PER_FRAME`]. The others stay, in order, for the
/// frames to come.
pub fn take_frame_commands(pending: &mut Vec<IdeCommand>) -> (r: Vec<IdeCommand>)
    ensures
        r.deep_view() == old(pending).deep_view().take(frame_share(old(pending).len() as nat) as int),
        final(pending).deep_view() == old(pending).deep_view().skip(
            frame_share(old(pending).len() as nat) as int,
        ),
        r.deep_view() + final(pending).deep_view() == old(pending).deep_view(),
{
    let ghost before = pending@;
    let mut out: Vec<IdeCommand> = Vec::new();
    while out.len() < MAX_IDE_COMMANDS_PER_FRAME && pending.len() > 0
        invariant
            out.len() <= MAX_IDE_COMMANDS_PER_FRAME,
            out.len() <= before.len(),
            out@ == before.take(out.len() as int),
            pending@ == before.skip(out.len() as int),
        decreases pending.len(),
    {
        let ghost taken = out@;
        let ghost left = pending@;
        let cmd = pending.remove(0);
        out.push(cmd);
        proof {
            assert(left[0] == before[taken.len() as int]);
            assert(out@ =~= before.take(taken.len() as int + 1));
            assert(pending@ =~= before.skip(taken.len() as int + 1));
        }
    }
    proof {
        let n = frame_share(before.len()) as int;
        assert(out.len() == n);
        assert(out.deep_view() =~= old(pending).deep_view().take(n));
        assert(pending.deep_view() =~= old(pending).deep_view().skip(n));
        assert(out.deep_view() + pending.deep_view() =~= old(pending).deep_view());
    }
    out
}

} // verus!
