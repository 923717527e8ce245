use tuicr::command::IdeCommand;
use tuicr::comment::{Comment, CommentType, LineRange, Timestamp};
use tuicr::host::{
    comment_type_to_severity, handle_ide_command, language_id, sync_app_to_ide_state,
    take_frame_commands, AnnotatedLine, DiffViewState, FilePath, FileReview, FileStatus,
    HostSnapshot, LineComments, SessionFile, MAX_IDE_COMMANDS_PER_FRAME,
};
use tuicr::state::{IdeState, Selection};

fn path(text: &str, extension: Option<&str>) -> Option<FilePath> {
    Some(FilePath { text: text.to_string(), extension: extension.map(|e| e.to_string()) })
}

fn file(new: Option<FilePath>, old: Option<FilePath>, status: FileStatus, reviewed: bool) -> SessionFile {
    SessionFile { new_path: new, old_path: old, status, reviewed }
}

fn comment(content: &str, kind: CommentType, range: Option<(u32, u32)>) -> Comment {
    let mut c = Comment::with_identity(
        "id".to_string(),
        Timestamp { seconds: 0, nanos: 0 },
        content.to_string(),
        kind,
    );
    c.line_range = range.map(|(start, end)| LineRange { start, end });
    c
}

fn snapshot() -> HostSnapshot {
    HostSnapshot {
        root_path: "/work/repo".to_string(),
        root_name: Some("repo".to_string()),
        files: vec![
            file(path("src/main.rs", Some("rs")), None, FileStatus::Modified, true),
            file(None, path("old/gone.py", Some("py")), FileStatus::Deleted, false),
            file(None, None, FileStatus::Added, false),
            file(path("Makefile", None), path("makefile", None), FileStatus::Renamed, false),
        ],
        current_file_idx: 1,
        reviews: vec![
            FileReview {
                path: "src/main.rs".to_string(),
                file_comments: vec![comment("whole file", CommentType::Note, Some((7, 9)))],
                line_comments: vec![
                    LineComments {
                        line: 12,
                        comments: vec![
                            comment("here", CommentType::Issue, None),
                            comment("span", CommentType::Suggestion, Some((3, 5))),
                        ],
                    },
                    LineComments { line: 20, comments: vec![] },
                    LineComments { line: 30, comments: vec![comment("nice", CommentType::Praise, None)] },
                ],
            },
            FileReview { path: "empty.rs".to_string(), file_comments: vec![], line_comments: vec![] },
            FileReview {
                path: "b.rs".to_string(),
                file_comments: vec![comment("b", CommentType::Issue, None)],
                line_comments: vec![],
            },
        ],
        visual_select: false,
        visual_anchor: None,
    }
}

#[test]
fn sync_publishes_workspace_and_files() {
    let mut state = IdeState::new();
    sync_app_to_ide_state(&snapshot(), &mut state);

    assert_eq!(state.workspace_path.as_deref(), Some("/work/repo"));
    assert_eq!(state.workspace_name.as_deref(), Some("repo"));
    assert_eq!(state.active_file_index, 1);
    assert_eq!(state.open_files.len(), 4);

    let f = &state.open_files[0];
    assert_eq!(f.file_path, "src/main.rs");
    assert_eq!(f.language_id, "rust");
    assert!(!f.is_dirty);
    assert!(!f.is_active);
    assert_eq!(f.status, "Modified");
    assert!(f.reviewed);

    let f = &state.open_files[1];
    assert_eq!(f.file_path, "old/gone.py");
    assert_eq!(f.language_id, "python");
    assert!(f.is_dirty);
    assert!(f.is_active);
    assert_eq!(f.status, "Deleted");
    assert!(!f.reviewed);

    let f = &state.open_files[2];
    assert_eq!(f.file_path, "");
    assert_eq!(f.language_id, "plaintext");
    assert_eq!(f.status, "Added");

    let f = &state.open_files[3];
    assert_eq!(f.file_path, "Makefile");
    assert_eq!(f.language_id, "plaintext");
    assert_eq!(f.status, "Renamed");
}

#[test]
fn sync_publishes_comments_as_diagnostics_in_order() {
    let mut state = IdeState::new();
    sync_app_to_ide_state(&snapshot(), &mut state);

    let seen: Vec<(String, u32, u32, String, String, String)> = state
        .diagnostics
        .iter()
        .map(|d| {
            (
                d.file_path.clone(),
                d.start_line,
                d.end_line,
                d.message.clone(),
                d.severity.clone(),
                d.comment_type.clone(),
            )
        })
        .collect();
    let row = |p: &str, s: u32, e: u32, m: &str, sev: &str, t: &str| {
        (p.to_string(), s, e, m.to_string(), sev.to_string(), t.to_string())
    };
    assert_eq!(
        seen,
        vec![
            row("src/main.rs", 1, 1, "whole file", "information", "Note"),
            row("src/main.rs", 12, 12, "here", "error", "Issue"),
            row("src/main.rs", 3, 5, "span", "warning", "Suggestion"),
            row("src/main.rs", 30, 30, "nice", "hint", "Praise"),
            row("b.rs", 1, 1, "b", "error", "Issue"),
        ]
    );
}

#[test]
fn sync_overwrites_what_was_published_before() {
    let mut state = IdeState::new();
    sync_app_to_ide_state(&snapshot(), &mut state);
    let mut next = snapshot();
    next.files.truncate(1);
    next.reviews.clear();
    next.current_file_idx = 0;
    next.root_name = None;
    sync_app_to_ide_state(&next, &mut state);
    assert_eq!(state.open_files.len(), 1);
    assert!(state.open_files[0].is_active);
    assert!(state.diagnostics.is_empty());
    assert_eq!(state.workspace_name, None);
    assert_eq!(state.active_file_index, 0);
}

#[test]
fn sync_publishes_the_selection_only_while_selecting() {
    let stale = || {
        Some(Selection {
            file_path: "stale.rs".to_string(),
            text: "stale".to_string(),
            start_line: 1,
            end_line: 2,
        })
    };
    let mut state = IdeState::new();

    let mut app = snapshot();
    app.visual_select = true;
    app.visual_anchor = None;
    state.set_selection(stale());
    sync_app_to_ide_state(&app, &mut state);
    assert!(state.selection.is_none());

    app.visual_anchor = Some(17);
    app.current_file_idx = 9;
    state.set_selection(stale());
    sync_app_to_ide_state(&app, &mut state);
    assert!(state.selection.is_none());

    app.current_file_idx = 0;
    state.set_selection(stale());
    sync_app_to_ide_state(&app, &mut state);
    let sel = state.selection.as_ref().unwrap();
    assert_eq!(sel.file_path, "src/main.rs");
    assert_eq!(sel.text, "");
    assert_eq!(sel.start_line, 17);
    assert_eq!(sel.end_line, 17);

    app.visual_select = false;
    sync_app_to_ide_state(&app, &mut state);
    assert!(state.selection.is_none());
}

#[test]
fn sync_gives_the_same_snapshot_whatever_was_there() {
    let app = {
        let mut app = snapshot();
        app.visual_select = true;
        app.visual_anchor = Some(4);
        app
    };
    let mut fresh = IdeState::new();
    sync_app_to_ide_state(&app, &mut fresh);

    let mut used = IdeState::new();
    sync_app_to_ide_state(&snapshot(), &mut used);
    used.set_active_file(3);
    used.set_workspace("/elsewhere".to_string(), Some("elsewhere".to_string()));
    sync_app_to_ide_state(&app, &mut used);

    assert_eq!(format!("{:?}", used), format!("{:?}", fresh));
}

#[test]
fn language_of_every_known_extension() {
    let table = [
        ("rs", "rust"),
        ("py", "python"),
        ("js", "javascript"),
        ("ts", "typescript"),
        ("tsx", "typescriptreact"),
        ("jsx", "javascriptreact"),
        ("go", "go"),
        ("java", "java"),
        ("c", "c"),
        ("h", "c"),
        ("cpp", "cpp"),
        ("hpp", "cpp"),
        ("cc", "cpp"),
        ("cxx", "cpp"),
        ("rb", "ruby"),
        ("php", "php"),
        ("swift", "swift"),
        ("kt", "kotlin"),
        ("kts", "kotlin"),
        ("scala", "scala"),
        ("lua", "lua"),
        ("sh", "shellscript"),
        ("bash", "shellscript"),
        ("json", "json"),
        ("yaml", "yaml"),
        ("yml", "yaml"),
        ("toml", "toml"),
        ("xml", "xml"),
        ("html", "html"),
        ("css", "css"),
        ("scss", "scss"),
        ("md", "markdown"),
        ("", "plaintext"),
        ("RS", "plaintext"),
        ("txt", "plaintext"),
    ];
    for (extension, language) in table {
        assert_eq!(language_id(extension), language, "{extension}");
    }
}

#[test]
fn severity_of_every_comment_type() {
    assert_eq!(comment_type_to_severity(&CommentType::Issue), "error");
    assert_eq!(comment_type_to_severity(&CommentType::Suggestion), "warning");
    assert_eq!(comment_type_to_severity(&CommentType::Note), "information");
    assert_eq!(comment_type_to_severity(&CommentType::Praise), "hint");
}

#[test]
fn comment_type_labels() {
    assert_eq!(CommentType::Note.as_str(), "NOTE");
    assert_eq!(CommentType::Suggestion.as_str(), "SUGGESTION");
    assert_eq!(CommentType::Issue.as_str(), "ISSUE");
    assert_eq!(CommentType::Praise.as_str(), "PRAISE");
    assert_eq!(CommentType::Praise.name(), "Praise");
}

#[test]
fn new_comment_gets_a_fresh_identifier() {
    let a = Comment::new("one".to_string(), CommentType::Note);
    let b = Comment::new("two".to_string(), CommentType::Issue);
    assert_eq!(a.content, "one");
    assert_eq!(a.comment_type, CommentType::Note);
    assert!(a.line_context.is_none());
    assert!(a.line_range.is_none());
    assert_eq!(a.id.len(), 36);
    assert_eq!(b.id.len(), 36);
    assert_ne!(a.id, b.id);
    assert!(a.created_at.seconds > 1_600_000_000);
    assert!(a.created_at.nanos < 2_000_000_000);
}

fn view() -> DiffViewState {
    DiffViewState {
        selected_file: None,
        current_file_idx: 0,
        cursor_line: 0,
        scroll_offset: 10,
        viewport_height: 20,
    }
}

fn lines() -> Vec<AnnotatedLine> {
    let mut out = vec![AnnotatedLine::Other];
    for n in 1..=60u32 {
        out.push(AnnotatedLine::DiffLine { file_idx: 0, old_lineno: Some(n), new_lineno: Some(n + 100) });
    }
    out.push(AnnotatedLine::Other);
    for n in 1..=5u32 {
        out.push(AnnotatedLine::DiffLine { file_idx: 1, old_lineno: Some(n), new_lineno: None });
    }
    out
}

fn open(path: &str, line: Option<u32>) -> IdeCommand {
    IdeCommand::OpenFile { path: path.to_string(), line }
}

#[test]
fn open_file_command_for_an_unknown_file_changes_nothing() {
    let mut v = view();
    let found = handle_ide_command(&mut v, &snapshot().files, &lines(), open("nowhere.rs", Some(3)));
    assert!(!found);
    assert_eq!(v, view());
}

#[test]
fn open_file_command_selects_the_first_file_that_holds_the_path() {
    let mut v = view();
    let found = handle_ide_command(&mut v, &snapshot().files, &lines(), open("gone", None));
    assert!(found);
    assert_eq!(v.selected_file, Some(1));
    assert_eq!(v.current_file_idx, 1);
    assert_eq!(v.cursor_line, 0);
    assert_eq!(v.scroll_offset, 10);

    let mut v = view();
    assert!(handle_ide_command(&mut v, &snapshot().files, &lines(), open("akefile", None)));
    assert_eq!(v.current_file_idx, 3);

    let mut v = view();
    assert!(handle_ide_command(&mut v, &snapshot().files, &lines(), open("", None)));
    assert_eq!(v.current_file_idx, 0);

    let mut v = view();
    assert!(!handle_ide_command(&mut v, &snapshot().files, &lines(), open("makefile", None)));
}

#[test]
fn open_file_command_moves_the_cursor_and_scrolls() {
    let files = snapshot().files;

    let mut v = view();
    assert!(handle_ide_command(&mut v, &files, &lines(), open("main.rs", Some(5))));
    assert_eq!(v.cursor_line, 5);
    assert_eq!(v.scroll_offset, 5);

    let mut v = view();
    assert!(handle_ide_command(&mut v, &files, &lines(), open("main.rs", Some(15))));
    assert_eq!(v.cursor_line, 15);
    assert_eq!(v.scroll_offset, 10);

    let mut v = view();
    assert!(handle_ide_command(&mut v, &files, &lines(), open("main.rs", Some(28))));
    assert_eq!(v.cursor_line, 28);
    assert_eq!(v.scroll_offset, 10);

    let mut v = view();
    assert!(handle_ide_command(&mut v, &files, &lines(), open("main.rs", Some(29))));
    assert_eq!(v.cursor_line, 29);
    assert_eq!(v.scroll_offset, 19);

    let mut v = view();
    assert!(handle_ide_command(&mut v, &files, &lines(), open("main.rs", Some(130))));
    assert_eq!(v.cursor_line, 30);
    assert_eq!(v.scroll_offset, 20);

    let mut v = view();
    assert!(handle_ide_command(&mut v, &files, &lines(), open("main.rs", Some(999))));
    assert_eq!(v.cursor_line, 0);
    assert_eq!(v.scroll_offset, 10);
    assert_eq!(v.selected_file, Some(0));

    let mut v = view();
    assert!(handle_ide_command(&mut v, &files, &lines(), open("gone.py", Some(2))));
    assert_eq!(v.cursor_line, 63);
    assert_eq!(v.scroll_offset, 53);
}

#[test]
fn open_file_command_scrolls_in_a_view_without_height() {
    let files = snapshot().files;
    let mut v = DiffViewState { viewport_height: 0, scroll_offset: 0, ..view() };
    assert!(handle_ide_command(&mut v, &files, &lines(), open("main.rs", Some(4))));
    assert_eq!(v.cursor_line, 4);
    assert_eq!(v.scroll_offset, 4);

    let mut v = DiffViewState { viewport_height: 100, scroll_offset: 0, ..view() };
    assert!(handle_ide_command(&mut v, &files, &lines(), open("gone.py", Some(5))));
    assert_eq!(v.cursor_line, 66);
    assert_eq!(v.scroll_offset, 0);

    let mut v = DiffViewState { viewport_height: usize::MAX, scroll_offset: usize::MAX, ..view() };
    assert!(handle_ide_command(&mut v, &files, &lines(), open("main.rs", Some(4))));
    assert_eq!(v.scroll_offset, 4);
}

#[test]
fn frame_takes_at_most_ten_commands_in_order() {
    assert_eq!(MAX_IDE_COMMANDS_PER_FRAME, 10);
    let mut pending: Vec<IdeCommand> =
        (0..23u32).map(|n| open(&format!("f{n}"), Some(n))).collect();
    let names = |cmds: &Vec<IdeCommand>| -> Vec<String> {
        cmds.iter()
            .map(|c| match c {
                IdeCommand::OpenFile { path, .. } => path.clone(),
            })
            .collect()
    };

    let first = take_frame_commands(&mut pending);
    assert_eq!(names(&first), (0..10).map(|n| format!("f{n}")).collect::<Vec<_>>());
    assert_eq!(pending.len(), 13);

    let second = take_frame_commands(&mut pending);
    assert_eq!(names(&second), (10..20).map(|n| format!("f{n}")).collect::<Vec<_>>());

    let third = take_frame_commands(&mut pending);
    assert_eq!(names(&third), vec!["f20", "f21", "f22"]);
    assert!(pending.is_empty());

    let fourth = take_frame_commands(&mut pending);
    assert!(fourth.is_empty());
}
