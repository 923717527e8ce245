//! The snapshot of the review session that tools read and the host loop
//! overwrites.

use vstd::prelude::*;
use crate::seq_laws::lemma_filter_push;
use crate::text::{occurs_in, str_eq};

verus! {

/// The lines selected in the diff viewer.
#[derive(Debug)]
pub struct Selection {
    pub file_path: String,
    pub text: String,
    pub start_line: u32,
    pub end_line: u32,
}

/// The model of a [`Selection`].
pub ghost struct SelectionView {
    pub file_path: Seq<char>,
    pub text: Seq<char>,
    pub start_line: u32,
    pub end_line: u32,
}

impl View for Selection {
    type V = SelectionView;

    open spec fn view(&self) -> SelectionView {
        SelectionView {
            file_path: self.file_path@,
            text: self.text@,
            start_line: self.start_line,
            end_line: self.end_line,
        }
    }
}

impl DeepView for Selection {
    type V = SelectionView;

    open spec fn deep_view(&self) -> SelectionView {
        self@
    }
}

impl Clone for Selection {
    fn clone(&self) -> (r: Selection)
        ensures
            r@ == self@,
    {
        Selection {
            file_path: self.file_path.clone(),
            text: self.text.clone(),
            start_line: self.start_line,
            end_line: self.end_line,
        }
    }
}

/// One file of the review session.
#[derive(Debug)]
pub struct OpenFileInfo {
    pub file_path: String,
    pub language_id: String,
    pub is_dirty: bool,
    pub is_active: bool,
    pub status: String,
    pub reviewed: bool,
}

/// The model of an [`OpenFileInfo`].
pub ghost struct OpenFileView {
    pub file_path: Seq<char>,
    pub language_id: Seq<char>,
    pub is_dirty: bool,
    pub is_active: bool,
    pub status: Seq<char>,
    pub reviewed: bool,
}

impl View for OpenFileInfo {
    type V = OpenFileView;

    open spec fn view(&self) -> OpenFileView {
        OpenFileView {
            file_path: self.file_path@,
            language_id: self.language_id@,
            is_dirty: self.is_dirty,
            is_active: self.is_active,
            status: self.status@,
            reviewed: self.reviewed,
        }
    }
}

impl DeepView for OpenFileInfo {
    type V = OpenFileView;

    open spec fn deep_view(&self) -> OpenFileView {
        self@
    }
}

impl Clone for OpenFileInfo {
    fn clone(&self) -> (r: OpenFileInfo)
        ensures
            r@ == self@,
    {
        OpenFileInfo {
            file_path: self.file_path.clone(),
            language_id: self.language_id.clone(),
            is_dirty: self.is_dirty,
            is_active: self.is_active,
            status: self.status.clone(),
            reviewed: self.reviewed,
        }
    }
}

/// The root of the repository under review.
#[derive(Debug)]
pub struct WorkspaceFolderInfo {
    pub path: String,
    pub name: String,
}

/// The model of a [`WorkspaceFolderInfo`].
pub ghost struct WorkspaceFolderView {
    pub path: Seq<char>,
    pub name: Seq<char>,
}

impl View for WorkspaceFolderInfo {
    type V = WorkspaceFolderView;

    open spec fn view(&self) -> WorkspaceFolderView {
        WorkspaceFolderView { path: self.path@, name: self.name@ }
    }
}

impl DeepView for WorkspaceFolderInfo {
    type V = WorkspaceFolderView;

    open spec fn deep_view(&self) -> WorkspaceFolderView {
        self@
    }
}

impl Clone for WorkspaceFolderInfo {
    fn clone(&self) -> (r: WorkspaceFolderInfo)
        ensures
            r@ == self@,
    {
        WorkspaceFolderInfo { path: self.path.clone(), name: self.name.clone() }
    }
}

/// One review comment, as a diagnostic.
#[derive(Debug)]
pub struct DiagnosticInfo {
    pub file_path: String,
    pub start_line: u32,
    pub end_line: u32,
    pub message: String,
    pub severity: String,
    pub comment_type: String,
}

/// The model of a [`DiagnosticInfo`].
pub ghost struct DiagnosticView {
    pub file_path: Seq<char>,
    pub start_line: u32,
    pub end_line: u32,
    pub message: Seq<char>,
    pub severity: Seq<char>,
    pub comment_type: Seq<char>,
}

impl View for DiagnosticInfo {
    type V = DiagnosticView;

    open spec fn view(&self) -> DiagnosticView {
        DiagnosticView {
            file_path: self.file_path@,
            start_line: self.start_line,
            end_line: self.end_line,
            message: self.message@,
            severity: self.severity@,
            comment_type: self.comment_type@,
        }
    }
}

impl DeepView for DiagnosticInfo {
    type V = DiagnosticView;

    open spec fn deep_view(&self) -> DiagnosticView {
        self@
    }
}

impl Clone for DiagnosticInfo {
    fn clone(&self) -> (r: DiagnosticInfo)
        ensures
            r@ == self@,
    {
        DiagnosticInfo {
            file_path: self.file_path.clone(),
            start_line: self.start_line,
            end_line: self.end_line,
            message: self.message.clone(),
            severity: self.severity.clone(),
            comment_type: self.comment_type.clone(),
        }
    }
}

/// The state of the review session that tools can query.
#[derive(Debug, Clone)]
pub struct IdeState {
    /// The current selection in the diff viewer.
    pub selection: Option<Selection>,
    /// The files of the review session, in order.
    pub open_files: Vec<OpenFileInfo>,
    /// The root of the repository under review.
    pub workspace_path: Option<String>,
    /// The name of the workspace, where one was set.
    pub workspace_name: Option<String>,
    /// The review comments, as diagnostics.
    pub diagnostics: Vec<DiagnosticInfo>,
    /// The index of the file that is being viewed.
    pub active_file_index: usize,
}

/// The model of an [`IdeState`].
pub ghost struct IdeStateView {
    pub selection: Option<SelectionView>,
    pub open_files: Seq<OpenFileView>,
    pub workspace_path: Option<Seq<char>>,
    pub workspace_name: Option<Seq<char>>,
    pub diagnostics: Seq<DiagnosticView>,
    pub active_file_index: usize,
}

impl View for IdeState {
    type V = IdeStateView;

    open spec fn view(&self) -> IdeStateView {
        IdeStateView {
            selection: self.selection.deep_view(),
            open_files: self.open_files.deep_view(),
            workspace_path: self.workspace_path.deep_view(),
            workspace_name: self.workspace_name.deep_view(),
            diagnostics: self.diagnostics.deep_view(),
            active_file_index: self.active_file_index,
        }
    }
}

/// The snapshot of a session that has nothing in it yet.
pub open spec fn empty_state() -> IdeStateView {
    IdeStateView {
        selection: None,
        open_files: Seq::empty(),
        workspace_path: None,
        workspace_name: None,
        diagnostics: Seq::empty(),
        active_file_index: 0,
    }
}

/// The name under which a workspace is shown: the name that was set, else
/// the name derived from its path, else `workspace`.
pub open spec fn display_name(explicit: Option<Seq<char>>, derived: Option<Seq<char>>) -> Seq<
    char,
> {
    match explicit {
        Some(n) => n,
        None => match derived {
            Some(d) => d,
            None => "workspace"@,
        },
    }
}

/// The workspace folders of a snapshot, given the name derived from the
/// workspace path: one folder where a workspace is set, none otherwise.
pub open spec fn workspace_folders(s: IdeStateView, derived: Option<Seq<char>>) -> Seq<
    WorkspaceFolderView,
> {
    match s.workspace_path {
        Some(path) => seq![
            WorkspaceFolderView { path, name: display_name(s.workspace_name, derived) },
        ],
        None => Seq::empty(),
    }
}

/// The diagnostics of one file, in their order; all of them without a file.
pub open spec fn diagnostics_for(all: Seq<DiagnosticView>, file_path: Option<Seq<char>>) -> Seq<
    DiagnosticView,
> {
    match file_path {
        Some(path) => all.filter(|d: DiagnosticView| d.file_path == path),
        None => all,
    }
}

/// The files of a session with the one at `index` marked active and no
/// other.
pub open spec fn with_active(files: Seq<OpenFileView>, index: usize) -> Seq<OpenFileView> {
    Seq::new(files.len(), |i: int| OpenFileView { is_active: i == index, ..files[i] })
}

/// Whether `derived` can be what a path gives as its final component: a
/// component is not empty and occurs in the path.
pub open spec fn is_component(path: Seq<char>, derived: Option<Seq<char>>) -> bool {
    match derived {
        Some(d) => d.len() > 0 && occurs_in(path, d),
        None => true,
    }
}

/// Whether `derived` can be the name that the workspace path of a snapshot
/// gives.
pub open spec fn may_derive(s: IdeStateView, derived: Option<Seq<char>>) -> bool {
    match s.workspace_path {
        Some(path) => is_component(path, derived),
        None => derived is None,
    }
}

/// `std::path::Path::file_name` on the path with this text, as text. Which
/// part of a path is its final component is left to the platform's rules;
/// on every platform a component that is returned is not empty and occurs
/// in the path.
#[verifier::external_body]
fn final_component(path: &str) -> (r: Option<String>)
    ensures
        is_component(path@, r.deep_view()),
{
    std::path::Path::new(path).file_name().map(|n| n.to_string_lossy().to_string())
}

fn copy_files(files: &Vec<OpenFileInfo>) -> (r: Vec<OpenFileInfo>)
    ensures
        r.deep_view() == files.deep_view(),
{
    let mut out: Vec<OpenFileInfo> = Vec::new();
    let mut i: usize = 0;
    while i < files.len()
        invariant
            i <= files.len(),
            out.len() == i,
            forall|k: int| 0 <= k < i ==> out@[k]@ == files@[k]@,
        decreases files.len() - i,
    {
        out.push(files[i].clone());
        i += 1;
    }
    assert(out.deep_view() =~= files.deep_view());
    out
}

fn copy_diagnostics(diagnostics: &Vec<DiagnosticInfo>) -> (r: Vec<DiagnosticInfo>)
    ensures
        r.deep_view() == diagnostics.deep_view(),
{
    let mut out: Vec<DiagnosticInfo> = Vec::new();
    let mut i: usize = 0;
    while i < diagnostics.len()
        invariant
            i <= diagnostics.len(),
            out.len() == i,
            forall|k: int| 0 <= k < i ==> out@[k]@ == diagnostics@[k]@,
        decreases diagnostics.len() - i,
    {
        out.push(diagnostics[i].clone());
        i += 1;
    }
    assert(out.deep_view() =~= diagnostics.deep_view());
    out
}

impl IdeState {
    /// The snapshot of a session that has nothing in it yet.
    pub fn new() -> (r: IdeState)
        ensures
            r@ == empty_state(),
    {
        let r = IdeState {
            selection: None,
            open_files: Vec::new(),
            workspace_path: None,
            workspace_name: None,
            diagnostics: Vec::new(),
            active_file_index: 0,
        };
        assert(r.open_files.deep_view() =~= Seq::empty());
        assert(r.diagnostics.deep_view() =~= Seq::empty());
        r
    }

    /// The current selection.
    pub fn get_selection(&self) -> (r: Option<&Selection>)
        ensures
            r.deep_view() == self@.selection,
    {
        self.selection.as_ref()
    }

    /// The files of the review session, in order.
    pub fn get_open_editors(&self) -> (r: Vec<OpenFileInfo>)
        ensures
            r.deep_view() == self@.open_files,
    {
        copy_files(&self.open_files)
    }

    /// The workspace folders, given the name that the workspace path gives
    /// where none was set.
    pub fn workspace_folders_with(&self, derived: Option<String>) -> (r: Vec<WorkspaceFolderInfo>)
        ensures
            r.deep_view() == workspace_folders(self@, derived.deep_view()),
    {
        let mut out: Vec<WorkspaceFolderInfo> = Vec::new();
        match &self.workspace_path {
            Some(path) => {
                let name = match &self.workspace_name {
                    Some(n) => n.clone(),
                    None => match derived {
                        Some(d) => d,
                        None => "workspace".to_string(),
                    },
                };
                out.push(WorkspaceFolderInfo { path: path.clone(), name });
            },
            None => {},
        }
        assert(out.deep_view() =~= workspace_folders(self@, derived.deep_view()));
        out
    }

    /// The workspace folders: none where no workspace is set, else one, named
    /// by the name that was set or, without one, by the final component of
    /// the workspace path, or `workspace` where the path has none.
    pub fn get_workspace_folders(&self) -> (r: Vec<WorkspaceFolderInfo>)
        ensures
            exists|derived: Option<Seq<char>>|
                may_derive(self@, derived) && r.deep_view() == workspace_folders(self@, derived),
            self@.workspace_path is None || self@.workspace_name is Some ==> r.deep_view()
                == workspace_folders(self@, None),
    {
        let derived = match (&self.workspace_path, &self.workspace_name) {
            (Some(path), None) => final_component(path.as_str()),
            _ => None,
        };
        let r = self.workspace_folders_with(derived);
        assert(may_derive(self@, derived.deep_view()) && r.deep_view() == workspace_folders(
            self@,
            derived.deep_view(),
        ));
        r
    }

    /// The diagnostics of one file, in their order; all of them without a
    /// file.
    pub fn get_diagnostics(&self, file_path: Option<&str>) -> (r: Vec<DiagnosticInfo>)
        ensures
            r.deep_view() == diagnostics_for(self@.diagnostics, file_path.deep_view()),
    {
        let path = match file_path {
            Some(path) => path,
            None => {
                return copy_diagnostics(&self.diagnostics);
            },
        };
        let ghost all = self.diagnostics.deep_view();
        let ghost kept = |d: DiagnosticView| d.file_path == path@;
        let mut out: Vec<DiagnosticInfo> = Vec::new();
        let mut i: usize = 0;
        assert(out.deep_view() =~= all.take(0).filter(kept)) by {
            reveal(Seq::filter);
        }
        while i < self.diagnostics.len()
            invariant
                i <= self.diagnostics.len(),
                all == self.diagnostics.deep_view(),
                kept == |d: DiagnosticView| d.file_path == path@,
                out.deep_view() == all.take(i as int).filter(kept),
            decreases self.diagnostics.len() - i,
        {
            let d = &self.diagnostics[i];
            proof {
                assert(all.take(i as int + 1) =~= all.take(i as int).push(all[i as int]));
                lemma_filter_push(all.take(i as int), all[i as int], kept);
            }
            if str_eq(d.file_path.as_str(), path) {
                let ghost before = out.deep_view();
                out.push(d.clone());
                assert(out.deep_view() =~= before.push(all[i as int]));
            }
            i += 1;
        }
        assert(all.take(i as int) =~= all);
        out
    }

    /// Replaces the selection.
    pub fn set_selection(&mut self, selection: Option<Selection>)
        ensures
            final(self)@ == (IdeStateView { selection: selection.deep_view(), ..old(self)@ }),
    {
        self.selection = selection;
    }

    /// Replaces the files of the session.
    pub fn set_open_files(&mut self, files: Vec<OpenFileInfo>)
        ensures
            final(self)@ == (IdeStateView { open_files: files.deep_view(), ..old(self)@ }),
    {
        self.open_files = files;
    }

    /// Sets the workspace path and replaces the workspace name.
    pub fn set_workspace(&mut self, path: String, name: Option<String>)
        ensures
            final(self)@ == (IdeStateView {
                workspace_path: Some(path@),
                workspace_name: name.deep_view(),
                ..old(self)@
            }),
    {
        self.workspace_path = Some(path);
        self.workspace_name = name;
    }

    /// Replaces the diagnostics.
    pub fn set_diagnostics(&mut self, diagnostics: Vec<DiagnosticInfo>)
        ensures
            final(self)@ == (IdeStateView { diagnostics: diagnostics.deep_view(), ..old(self)@ }),
    {
        self.diagnostics = diagnostics;
    }

    /// Makes the file at `index` the active one: it is marked active and no
    /// other file is, whether or not the session has a file there.
    pub fn set_active_file(&mut self, index: usize)
        ensures
            final(self)@ == (IdeStateView {
                active_file_index: index,
                open_files: with_active(old(self)@.open_files, index),
                ..old(self)@
            }),
    {
        self.active_file_index = index;
        let mut out: Vec<OpenFileInfo> = Vec::new();
        let mut i: usize = 0;
        while i < self.open_files.len()
            invariant
                i <= self.open_files.len(),
                out.len() == i,
                self.open_files == old(self).open_files,
                forall|k: int|
                    0 <= k < i ==> out@[k]@ == (OpenFileView {
                        is_active: k == index,
                        ..self.open_files@[k]@
                    }),
            decreases self.open_files.len() - i,
        {
            let mut file = self.open_files[i].clone();
            file.is_active = i == index;
            out.push(file);
            i += 1;
        }
        assert(out.deep_view() =~= with_active(old(self)@.open_files, index));
        self.open_files = out;
    }
}

impl Default for IdeState {
    fn default() -> (r: IdeState)
        ensures
            r@ == empty_state(),
    {
        IdeState::new()
    }
}

} // verus!
