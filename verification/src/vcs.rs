//! What the host makes of what the version-control library hands it: the
//! shape of a diff, the order of commits, and the rules by which raw lines
//! and ids are tidied.

use vstd::prelude::*;
use vstd::string::StrSliceExecFns;
use crate::host::{AnnotatedLine, FileStatus};
use crate::text::join;

verus! {

/// Why the changes under review could not be had.
#[derive(Debug)]
pub enum TuicrError {
    /// There is nothing to review.
    NoChanges,
    /// The version-control system refused a request.
    VcsCommand(String),
    /// The repository could not be read.
    Git(String),
}

/// The words for a [`TuicrError`].
pub open spec fn error_text(e: TuicrError) -> Seq<char> {
    match e {
        TuicrError::NoChanges => "No changes to review"@,
        TuicrError::VcsCommand(msg) => "VCS command failed: "@ + msg@,
        TuicrError::Git(msg) => "Git error: "@ + msg@,
    }
}

impl TuicrError {
    /// The error in words.
    pub fn message(&self) -> (r: String)
        ensures
            r@ == error_text(*self),
    {
        match self {
            TuicrError::NoChanges => "No changes to review".to_string(),
            TuicrError::VcsCommand(msg) => join("VCS command failed: ", msg.as_str()),
            TuicrError::Git(msg) => join("Git error: ", msg.as_str()),
        }
    }
}

/// What happened to a file between the two sides of a diff, as the
/// version-control library tells it.
#[derive(Debug, Clone, Copy, PartialEq, Eq, Structural)]
pub enum DeltaKind {
    Unmodified,
    Added,
    Deleted,
    Modified,
    Renamed,
    Copied,
    Ignored,
    Untracked,
    Typechange,
    Unreadable,
    Conflicted,
}

/// The status under which a file is reviewed: additions, deletions,
/// renames and copies as such, everything else as a modification.
pub open spec fn status_of(kind: DeltaKind) -> FileStatus {
    match kind {
        DeltaKind::Added => FileStatus::Added,
        DeltaKind::Deleted => FileStatus::Deleted,
        DeltaKind::Renamed => FileStatus::Renamed,
        DeltaKind::Copied => FileStatus::Copied,
        _ => FileStatus::Modified,
    }
}

/// The status under which a file is reviewed.
pub fn file_status(kind: DeltaKind) -> (r: FileStatus)
    ensures
        r == status_of(kind),
{
    match kind {
        DeltaKind::Added => FileStatus::Added,
        DeltaKind::Deleted => FileStatus::Deleted,
        DeltaKind::Modified => FileStatus::Modified,
        DeltaKind::Renamed => FileStatus::Renamed,
        DeltaKind::Copied => FileStatus::Copied,
        _ => FileStatus::Modified,
    }
}

/// On which side of a diff a line stands.
#[derive(Debug, Clone, Copy, PartialEq, Eq, Structural)]
pub enum LineOrigin {
    Addition,
    Deletion,
    Context,
}

/// The side that a marker stands for: `+` for an addition, `-` for a
/// deletion, anything else for context.
pub open spec fn origin_of(marker: char) -> LineOrigin {
    if marker == '+' {
        LineOrigin::Addition
    } else if marker == '-' {
        LineOrigin::Deletion
    } else {
        LineOrigin::Context
    }
}

/// The side that a marker stands for.
pub fn line_origin(marker: char) -> (r: LineOrigin)
    ensures
        r == origin_of(marker),
{
    if marker == '+' {
        LineOrigin::Addition
    } else if marker == '-' {
        LineOrigin::Deletion
    } else {
        LineOrigin::Context
    }
}

/// `s` without the run of `c` at its end.
pub open spec fn without_trailing(s: Seq<char>, c: char) -> Seq<char>
    decreases s.len(),
{
    if s.len() > 0 && s.last() == c {
        without_trailing(s.drop_last(), c)
    } else {
        s
    }
}

/// The content of a raw diff line: the line without the line feeds at its
/// end and then without the carriage returns at its end.
pub open spec fn content_of(raw: Seq<char>) -> Seq<char> {
    without_trailing(without_trailing(raw, '\n'), '\r')
}

proof fn lemma_without_trailing_is_prefix(s: Seq<char>, c: char, keep: int)
    requires
        0 <= keep <= s.len(),
        forall|i: int| keep <= i < s.len() ==> s[i] == c,
        keep > 0 ==> s[keep - 1] != c,
    ensures
        without_trailing(s, c) == s.take(keep),
    decreases s.len(),
{
    if keep == s.len() {
        assert(s.take(keep) == s);
    } else {
        lemma_without_trailing_is_prefix(s.drop_last(), c, keep);
        assert(s.drop_last().take(keep) == s.take(keep));
    }
}

fn trimmed_len(s: &str, len: usize, c: char) -> (keep: usize)
    requires
        len <= s@.len(),
    ensures
        keep <= len,
        without_trailing(s@.take(len as int), c) == s@.take(keep as int),
{
    let mut keep = len;
    while keep > 0 && s.get_char(keep - 1) == c
        invariant
            keep <= len <= s@.len(),
            forall|i: int| keep <= i < len ==> s@[i] == c,
        decreases keep,
    {
        keep -= 1;
    }
    proof {
        let head = s@.take(len as int);
        lemma_without_trailing_is_prefix(head, c, keep as int);
        assert(head.take(keep as int) == s@.take(keep as int));
    }
    keep
}

/// The content of a raw diff line.
pub fn line_content(raw: &str) -> (r: String)
    ensures
        r@ == content_of(raw@),
{
    let len = raw.unicode_len();
    assert(raw@.take(len as int) == raw@);
    let without_feeds = trimmed_len(raw, len, '\n');
    let keep = trimmed_len(raw, without_feeds, '\r');
    let r = raw.substring_char(0, keep).to_string();
    assert(raw@.subrange(0, keep as int) == raw@.take(keep as int));
    r
}

/// One line of a hunk.
#[derive(Debug, Clone)]
pub struct DiffLine {
    pub origin: LineOrigin,
    pub content: String,
    pub old_lineno: Option<u32>,
    pub new_lineno: Option<u32>,
}

/// The model of a [`DiffLine`].
pub ghost struct DiffLineView {
    pub origin: LineOrigin,
    pub content: Seq<char>,
    pub old_lineno: Option<u32>,
    pub new_lineno: Option<u32>,
}

impl View for DiffLine {
    type V = DiffLineView;

    open spec fn view(&self) -> DiffLineView {
        DiffLineView {
            origin: self.origin,
            content: self.content@,
            old_lineno: self.old_lineno,
            new_lineno: self.new_lineno,
        }
    }
}

impl DeepView for DiffLine {
    type V = DiffLineView;

    open spec fn deep_view(&self) -> DiffLineView {
        self@
    }
}

impl DiffLine {
    /// The line that a marker, a raw text and the two line numbers stand
    /// for.
    pub fn from_raw(marker: char, raw: &str, old_lineno: Option<u32>, new_lineno: Option<u32>) -> (r:
        DiffLine)
        ensures
            r@ == (DiffLineView {
                origin: origin_of(marker),
                content: content_of(raw@),
                old_lineno,
                new_lineno,
            }),
    {
        DiffLine { origin: line_origin(marker), content: line_content(raw), old_lineno, new_lineno }
    }
}

/// One hunk of a file's diff.
#[derive(Debug, Clone)]
pub struct DiffHunk {
    pub old_start: u32,
    pub old_lines: u32,
    pub new_start: u32,
    pub new_lines: u32,
    pub header: String,
    pub lines: Vec<DiffLine>,
}

/// The model of a [`DiffHunk`].
pub ghost struct DiffHunkView {
    pub old_start: u32,
    pub old_lines: u32,
    pub new_start: u32,
    pub new_lines: u32,
    pub header: Seq<char>,
    pub lines: Seq<DiffLineView>,
}

impl View for DiffHunk {
    type V = DiffHunkView;

    open spec fn view(&self) -> DiffHunkView {
        DiffHunkView {
            old_start: self.old_start,
            old_lines: self.old_lines,
            new_start: self.new_start,
            new_lines: self.new_lines,
            header: self.header@,
            lines: self.lines.deep_view(),
        }
    }
}

impl DeepView for DiffHunk {
    type V = DiffHunkView;

    open spec fn deep_view(&self) -> DiffHunkView {
        self@
    }
}

/// One file of a diff.
#[derive(Debug, Clone)]
pub struct DiffFile {
    pub old_path: Option<String>,
    pub new_path: Option<String>,
    pub status: FileStatus,
    pub hunks: Vec<DiffHunk>,
    pub is_binary: bool,
}

/// The model of a [`DiffFile`].
pub ghost struct DiffFileView {
    pub old_path: Option<Seq<char>>,
    pub new_path: Option<Seq<char>>,
    pub status: FileStatus,
    pub hunks: Seq<DiffHunkView>,
    pub is_binary: bool,
}

impl View for DiffFile {
    type V = DiffFileView;

    open spec fn view(&self) -> DiffFileView {
        DiffFileView {
            old_path: self.old_path.deep_view(),
            new_path: self.new_path.deep_view(),
            status: self.status,
            hunks: self.hunks.deep_view(),
            is_binary: self.is_binary,
        }
    }
}

impl DeepView for DiffFile {
    type V = DiffFileView;

    open spec fn deep_view(&self) -> DiffFileView {
        self@
    }
}

impl DiffFile {
    /// The file of a diff: its paths on the two sides, its status by what
    /// happened to it, and its hunks, of which a binary file has none.
    pub fn from_delta(
        kind: DeltaKind,
        old_path: Option<String>,
        new_path: Option<String>,
        old_is_binary: bool,
        new_is_binary: bool,
        hunks: Vec<DiffHunk>,
    ) -> (r: DiffFile)
        ensures
            r@ == (DiffFileView {
                old_path: old_path.deep_view(),
                new_path: new_path.deep_view(),
                status: status_of(kind),
                hunks: if old_is_binary || new_is_binary {
                    Seq::empty()
                } else {
                    hunks.deep_view()
                },
                is_binary: old_is_binary || new_is_binary,
            }),
    {
        let is_binary = old_is_binary || new_is_binary;
        let kept = if is_binary {
            Vec::new()
        } else {
            hunks
        };
        let r = DiffFile { old_path, new_path, status: file_status(kind), hunks: kept, is_binary };
        assert(is_binary ==> r@.hunks =~= Seq::<DiffHunkView>::empty());
        r
    }
}

/// The files of a diff, or the error that there is nothing to review where
/// there are none.
pub fn changed_files(files: Vec<DiffFile>) -> (r: Result<Vec<DiffFile>, TuicrError>)
    ensures
        match r {
            Ok(kept) => files.len() > 0 && kept == files,
            Err(e) => files.len() == 0 && e == TuicrError::NoChanges,
        },
{
    if files.len() == 0 {
        Err(TuicrError::NoChanges)
    } else {
        Ok(files)
    }
}

fn reversed(items: Vec<String>) -> (r: Vec<String>)
    ensures
        r@ == items@.reverse(),
{
    let ghost all = items@;
    let mut rest = items;
    let mut out: Vec<String> = Vec::new();
    while rest.len() > 0
        invariant
            rest@.len() + out@.len() == all.len(),
            rest@ == all.take(rest@.len() as int),
            forall|k: int| 0 <= k < out@.len() ==> out@[k] == all[all.len() - 1 - k],
        decreases rest.len(),
    {
        let ghost before = rest@;
        let last = rest.pop().unwrap();
        assert(last == all[before.len() - 1]);
        out.push(last);
        assert(rest@ =~= all.take(rest@.len() as int));
    }
    assert(out@ =~= all.reverse());
    out
}

/// The commits of a walk that goes from the newest to the oldest, oldest
/// first.
pub fn oldest_first(newest_first: Vec<String>) -> (r: Vec<String>)
    ensures
        r@ == newest_first@.reverse(),
{
    reversed(newest_first)
}

/// The commits that a revision expression names, oldest first, or the
/// error that there is nothing to review where it names none.
pub fn resolved_revisions(newest_first: Vec<String>) -> (r: Result<Vec<String>, TuicrError>)
    ensures
        match r {
            Ok(ids) => newest_first.len() > 0 && ids@ == newest_first@.reverse(),
            Err(e) => newest_first.len() == 0 && e == TuicrError::NoChanges,
        },
{
    if newest_first.len() == 0 {
        Err(TuicrError::NoChanges)
    } else {
        Ok(reversed(newest_first))
    }
}

/// How many characters of a commit id are shown.
pub const SHORT_ID_LEN: usize = 7;

/// The first characters of a commit id by which it is shown: seven, or all
/// where it has fewer.
pub open spec fn short_id_of(id: Seq<char>) -> Seq<char> {
    if id.len() <= SHORT_ID_LEN {
        id
    } else {
        id.take(SHORT_ID_LEN as int)
    }
}

/// The first characters of a commit id by which it is shown.
pub fn short_id(id: &str) -> (r: String)
    ensures
        r@ == short_id_of(id@),
{
    let len = id.unicode_len();
    if len <= SHORT_ID_LEN {
        id.to_string()
    } else {
        let r = id.substring_char(0, SHORT_ID_LEN).to_string();
        assert(id@.subrange(0, SHORT_ID_LEN as int) == id@.take(SHORT_ID_LEN as int));
        r
    }
}

/// What is shown of a commit.
#[derive(Debug, Clone)]
pub struct CommitInfo {
    pub id: String,
    pub short_id: String,
    pub branch_name: Option<String>,
    pub summary: String,
    pub author: String,
    pub time: crate::comment::Timestamp,
}

/// The model of a [`CommitInfo`].
pub ghost struct CommitInfoView {
    pub id: Seq<char>,
    pub short_id: Seq<char>,
    pub branch_name: Option<Seq<char>>,
    pub summary: Seq<char>,
    pub author: Seq<char>,
    pub time: crate::comment::Timestamp,
}

impl View for CommitInfo {
    type V = CommitInfoView;

    open spec fn view(&self) -> CommitInfoView {
        CommitInfoView {
            id: self.id@,
            short_id: self.short_id@,
            branch_name: self.branch_name.deep_view(),
            summary: self.summary@,
            author: self.author@,
            time: self.time,
        }
    }
}

/// The text, or `fallback` where there is none.
pub open spec fn text_or(text: Option<Seq<char>>, fallback: Seq<char>) -> Seq<char> {
    match text {
        Some(t) => t,
        None => fallback,
    }
}

/// The first of the names, where there is one.
pub open spec fn first_name(names: Seq<Seq<char>>) -> Option<Seq<char>> {
    if names.len() > 0 {
        Some(names[0])
    } else {
        None
    }
}

fn owned_or(text: Option<String>, fallback: &str) -> (r: String)
    ensures
        r@ == text_or(text.deep_view(), fallback@),
{
    match text {
        Some(t) => t,
        None => fallback.to_string(),
    }
}

impl CommitInfo {
    /// What is shown of a commit: its id in full and in short, the first of
    /// the branches that end at it, its summary and its author, with
    /// stand-ins where the commit has none, and its time.
    pub fn describe(
        id: String,
        summary: Option<String>,
        author: Option<String>,
        branches: &Vec<String>,
        time: crate::comment::Timestamp,
    ) -> (r: CommitInfo)
        ensures
            r@ == (CommitInfoView {
                id: id@,
                short_id: short_id_of(id@),
                branch_name: first_name(branches.deep_view()),
                summary: text_or(summary.deep_view(), "(no message)"@),
                author: text_or(author.deep_view(), "Unknown"@),
                time,
            }),
    {
        let short = short_id(id.as_str());
        let branch_name = if branches.len() > 0 {
            Some(branches[0].clone())
        } else {
            None
        };
        CommitInfo {
            id,
            short_id: short,
            branch_name,
            summary: owned_or(summary, "(no message)"),
            author: owned_or(author, "Unknown"),
            time,
        }
    }
}

/// The view's line for a line of the diff of the file at `file`.
pub open spec fn annotated(file: usize, line: DiffLineView) -> AnnotatedLine {
    AnnotatedLine::DiffLine { file_idx: file, old_lineno: line.old_lineno, new_lineno: line.new_lineno }
}

/// The view's lines for a hunk: one for its header, then one for each of
/// its lines.
pub open spec fn hunk_annotations(file: usize, hunk: DiffHunkView) -> Seq<AnnotatedLine> {
    seq![AnnotatedLine::Other] + hunk.lines.map_values(|l: DiffLineView| annotated(file, l))
}

/// The view's lines for hunks, hunk by hunk.
pub open spec fn hunks_annotations(file: usize, hunks: Seq<DiffHunkView>) -> Seq<AnnotatedLine>
    decreases hunks.len(),
{
    if hunks.len() == 0 {
        Seq::empty()
    } else {
        hunks_annotations(file, hunks.drop_last()) + hunk_annotations(file, hunks.last())
    }
}

/// The view's lines for the first `count` files of a diff, file by file:
/// one for the file's header, then those of its hunks.
pub open spec fn files_annotations(files: Seq<DiffFileView>, count: int) -> Seq<AnnotatedLine>
    decreases count,
{
    if count <= 0 || count > files.len() {
        Seq::empty()
    } else {
        files_annotations(files, count - 1) + seq![AnnotatedLine::Other] + hunks_annotations(
            (count - 1) as usize,
            files[count - 1].hunks,
        )
    }
}

fn annotate_hunk(file: usize, hunk: &DiffHunk, out: &mut Vec<AnnotatedLine>)
    ensures
        final(out)@ == old(out)@ + hunk_annotations(file, hunk@),
{
    let ghost start = out@;
    let ghost lines = hunk.lines.deep_view();
    out.push(AnnotatedLine::Other);
    let mut i: usize = 0;
    assert(out@ =~= start + seq![AnnotatedLine::Other] + lines.take(0).map_values(
        |l: DiffLineView| annotated(file, l),
    ));
    while i < hunk.lines.len()
        invariant
            i <= hunk.lines.len(),
            lines == hunk.lines.deep_view(),
            out@ == start + seq![AnnotatedLine::Other] + lines.take(i as int).map_values(
                |l: DiffLineView| annotated(file, l),
            ),
        decreases hunk.lines.len() - i,
    {
        let line = &hunk.lines[i];
        out.push(
            AnnotatedLine::DiffLine {
                file_idx: file,
                old_lineno: line.old_lineno,
                new_lineno: line.new_lineno,
            },
        );
        assert(out@ =~= start + seq![AnnotatedLine::Other] + lines.take(i as int + 1).map_values(
            |l: DiffLineView| annotated(file, l),
        ));
        i += 1;
    }
    assert(lines.take(i as int) =~= lines);
    assert(out@ =~= start + hunk_annotations(file, hunk@));
}

/// The lines that the diff viewer shows for the files of a diff.
pub fn annotate(files: &Vec<DiffFile>) -> (r: Vec<AnnotatedLine>)
    ensures
        r@ == files_annotations(files.deep_view(), files.len() as int),
{
    let ghost all = files.deep_view();
    let mut out: Vec<AnnotatedLine> = Vec::new();
    let mut f: usize = 0;
    assert(out@ =~= files_annotations(all, 0));
    while f < files.len()
        invariant
            f <= files.len(),
            all == files.deep_view(),
            out@ == files_annotations(all, f as int),
        decreases files.len() - f,
    {
        let file = &files[f];
        let ghost at_file = out@;
        let ghost hunks = file.hunks.deep_view();
        out.push(AnnotatedLine::Other);
        let mut h: usize = 0;
        assert(out@ =~= at_file + seq![AnnotatedLine::Other] + hunks_annotations(f, hunks.take(0)));
        while h < file.hunks.len()
            invariant
                h <= file.hunks.len(),
                hunks == file.hunks.deep_view(),
                out@ == at_file + seq![AnnotatedLine::Other] + hunks_annotations(
                    f,
                    hunks.take(h as int),
                ),
            decreases file.hunks.len() - h,
        {
            let ghost before = out@;
            annotate_hunk(f, &file.hunks[h], &mut out);
            proof {
                assert(hunks.take(h as int + 1).drop_last() =~= hunks.take(h as int));
                assert(hunks.take(h as int + 1).last() == file.hunks[h as int]@);
                assert(out@ =~= at_file + seq![AnnotatedLine::Other] + hunks_annotations(
                    f,
                    hunks.take(h as int + 1),
                ));
            }
            h += 1;
        }
        proof {
            assert(hunks.take(h as int) =~= hunks);
            assert(all[f as int].hunks == hunks);
            assert(out@ =~= files_annotations(all, f as int + 1));
        }
        f += 1;
    }
    out
}

} // verus!
