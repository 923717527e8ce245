//! What crosses from the server to the host loop, and back.

use vstd::prelude::*;
use crate::state::{Selection, SelectionView};

verus! {

/// An action that a tool call asks the host loop to perform.
#[derive(Debug)]
pub enum IdeCommand {
    /// Show a file, at a line where one is given.
    OpenFile { path: String, line: Option<u32> },
}

/// The model of an [`IdeCommand`].
pub ghost enum CommandView {
    OpenFile { path: Seq<char>, line: Option<u32> },
}

impl View for IdeCommand {
    type V = CommandView;

    open spec fn view(&self) -> CommandView {
        match self {
            IdeCommand::OpenFile { path, line } => CommandView::OpenFile { path: path@, line: *line },
        }
    }
}

impl DeepView for IdeCommand {
    type V = CommandView;

    open spec fn deep_view(&self) -> CommandView {
        self@
    }
}

impl Clone for IdeCommand {
    fn clone(&self) -> (r: IdeCommand)
        ensures
            r@ == self@,
    {
        match self {
            IdeCommand::OpenFile { path, line } => IdeCommand::OpenFile {
                path: path.clone(),
                line: *line,
            },
        }
    }
}

/// What the host loop may tell the clients. No part of the server sends
/// these yet.
#[derive(Debug)]
pub enum IdeEvent {
    /// The selection in the diff viewer changed.
    SelectionChanged(Option<Selection>),
    /// Another file became the active one.
    ActiveFileChanged { file_index: usize },
    /// The files of the session changed.
    FilesChanged,
    /// The review comments changed.
    DiagnosticsChanged,
}

/// The model of an [`IdeEvent`].
pub ghost enum EventView {
    SelectionChanged(Option<SelectionView>),
    ActiveFileChanged { file_index: usize },
    FilesChanged,
    DiagnosticsChanged,
}

impl View for IdeEvent {
    type V = EventView;

    open spec fn view(&self) -> EventView {
        match self {
            IdeEvent::SelectionChanged(s) => EventView::SelectionChanged(s.deep_view()),
            IdeEvent::ActiveFileChanged { file_index } => EventView::ActiveFileChanged {
                file_index: *file_index,
            },
            IdeEvent::FilesChanged => EventView::FilesChanged,
            IdeEvent::DiagnosticsChanged => EventView::DiagnosticsChanged,
        }
    }
}

impl Clone for IdeEvent {
    fn clone(&self) -> (r: IdeEvent)
        ensures
            r@ == self@,
    {
        match self {
            IdeEvent::SelectionChanged(s) => IdeEvent::SelectionChanged(
                match s {
                    Some(sel) => Some(sel.clone()),
                    None => None,
                },
            ),
            IdeEvent::ActiveFileChanged { file_index } => IdeEvent::ActiveFileChanged {
                file_index: *file_index,
            },
            IdeEvent::FilesChanged => IdeEvent::FilesChanged,
            IdeEvent::DiagnosticsChanged => IdeEvent::DiagnosticsChanged,
        }
    }
}

} // verus!
