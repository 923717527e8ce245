//! Review comments.

use vstd::prelude::*;

verus! {

/// What kind of remark a comment is.
#[derive(Debug, Clone, Copy, PartialEq, Eq, Structural)]
pub enum CommentType {
    Note,
    Suggestion,
    Issue,
    Praise,
}

/// The label of a comment type in exported reviews.
pub open spec fn comment_type_label(t: CommentType) -> Seq<char> {
    match t {
        CommentType::Note => "NOTE"@,
        CommentType::Suggestion => "SUGGESTION"@,
        CommentType::Issue => "ISSUE"@,
        CommentType::Praise => "PRAISE"@,
    }
}

/// The name of a comment type.
pub open spec fn comment_type_name(t: CommentType) -> Seq<char> {
    match t {
        CommentType::Note => "Note"@,
        CommentType::Suggestion => "Suggestion"@,
        CommentType::Issue => "Issue"@,
        CommentType::Praise => "Praise"@,
    }
}

impl CommentType {
    /// The label of the comment type in exported reviews.
    pub fn as_str(&self) -> (r: &'static str)
        ensures
            r@ == comment_type_label(*self),
    {
        match self {
            CommentType::Note => "NOTE",
            CommentType::Suggestion => "SUGGESTION",
            CommentType::Issue => "ISSUE",
            CommentType::Praise => "PRAISE",
        }
    }

    /// The name of the comment type.
    pub fn name(&self) -> (r: &'static str)
        ensures
            r@ == comment_type_name(*self),
    {
        match self {
            CommentType::Note => "Note",
            CommentType::Suggestion => "Suggestion",
            CommentType::Issue => "Issue",
            CommentType::Praise => "Praise",
        }
    }
}

/// The line that a comment was written on.
#[derive(Debug)]
pub struct LineContext {
    pub new_line: Option<u32>,
    pub old_line: Option<u32>,
    pub content: String,
}

/// The model of a [`LineContext`].
pub ghost struct LineContextView {
    pub new_line: Option<u32>,
    pub old_line: Option<u32>,
    pub content: Seq<char>,
}

impl View for LineContext {
    type V = LineContextView;

    open spec fn view(&self) -> LineContextView {
        LineContextView { new_line: self.new_line, old_line: self.old_line, content: self.content@ }
    }
}

impl DeepView for LineContext {
    type V = LineContextView;

    open spec fn deep_view(&self) -> LineContextView {
        self@
    }
}

impl Clone for LineContext {
    fn clone(&self) -> (r: LineContext)
        ensures
            r@ == self@,
    {
        LineContext {
            new_line: self.new_line,
            old_line: self.old_line,
            content: self.content.clone(),
        }
    }
}

/// The lines that a comment spans, both included.
#[derive(Debug, Clone, Copy, PartialEq, Eq, Structural)]
pub struct LineRange {
    pub start: u32,
    pub end: u32,
}

/// A moment: seconds since the Unix epoch, and the nanoseconds since that
/// second began.
#[derive(Debug, Clone, Copy, PartialEq, Eq, Structural)]
pub struct Timestamp {
    pub seconds: i64,
    pub nanos: u32,
}

/// A review comment.
#[derive(Debug)]
pub struct Comment {
    pub id: String,
    pub content: String,
    pub comment_type: CommentType,
    pub created_at: Timestamp,
    pub line_context: Option<LineContext>,
    pub line_range: Option<LineRange>,
}

/// The model of a [`Comment`].
pub ghost struct CommentView {
    pub id: Seq<char>,
    pub content: Seq<char>,
    pub comment_type: CommentType,
    pub created_at: Timestamp,
    pub line_context: Option<LineContextView>,
    pub line_range: Option<LineRange>,
}

impl View for Comment {
    type V = CommentView;

    open spec fn view(&self) -> CommentView {
        CommentView {
            id: self.id@,
            content: self.content@,
            comment_type: self.comment_type,
            created_at: self.created_at,
            line_context: self.line_context.deep_view(),
            line_range: self.line_range,
        }
    }
}

impl DeepView for Comment {
    type V = CommentView;

    open spec fn deep_view(&self) -> CommentView {
        self@
    }
}

impl Clone for Comment {
    fn clone(&self) -> (r: Comment)
        ensures
            r@ == self@,
    {
        Comment {
            id: self.id.clone(),
            content: self.content.clone(),
            comment_type: self.comment_type,
            created_at: self.created_at,
            line_context: match &self.line_context {
                Some(c) => Some(c.clone()),
                None => None,
            },
            line_range: self.line_range,
        }
    }
}

/// `uuid::Uuid::new_v4`, written by its `to_string`: a random identifier in
/// the hyphenated form, which has 36 characters.
#[verifier::external_body]
fn fresh_id() -> (r: String)
    ensures
        r@.len() == 36,
{
    uuid::Uuid::new_v4().to_string()
}

/// `chrono::Utc::now`, taken apart by `timestamp` and
/// `timestamp_subsec_nanos`: the current time, of which nothing is claimed.
#[verifier::external_body]
fn now() -> Timestamp {
    let t = chrono::Utc::now();
    Timestamp { seconds: t.timestamp(), nanos: t.timestamp_subsec_nanos() }
}

impl Comment {
    /// The comment with this identifier, written at this moment.
    pub fn with_identity(
        id: String,
        created_at: Timestamp,
        content: String,
        comment_type: CommentType,
    ) -> (r: Comment)
        ensures
            r@ == (CommentView {
                id: id@,
                content: content@,
                comment_type,
                created_at,
                line_context: None,
                line_range: None,
            }),
    {
        Comment { id, content, comment_type, created_at, line_context: None, line_range: None }
    }

    /// A new comment, written now, under a fresh random identifier.
    pub fn new(content: String, comment_type: CommentType) -> (r: Comment)
        ensures
            r@.content == content@,
            r@.comment_type == comment_type,
            r@.line_context is None,
            r@.line_range is None,
            r@.id.len() == 36,
    {
        Comment::with_identity(fresh_id(), now(), content, comment_type)
    }
}

} // verus!
