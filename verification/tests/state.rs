use tuicr::state::{DiagnosticInfo, IdeState, OpenFileInfo, Selection};

#[test]
fn ide_state_default_is_empty() {
    let state = IdeState::new();
    assert!(state.selection.is_none());
    assert!(state.open_files.is_empty());
    assert!(state.workspace_path.is_none());
    assert!(state.diagnostics.is_empty());
}

#[test]
fn set_and_get_selection() {
    let mut state = IdeState::new();
    assert!(state.get_selection().is_none());

    state.set_selection(Some(Selection {
        file_path: "test.rs".to_string(),
        text: "selected".to_string(),
        start_line: 10,
        end_line: 15,
    }));

    let sel = state.get_selection().unwrap();
    assert_eq!(sel.file_path, "test.rs");
    assert_eq!(sel.start_line, 10);
    assert_eq!(sel.end_line, 15);
}

#[test]
fn set_and_get_open_files() {
    let mut state = IdeState::new();
    assert!(state.get_open_editors().is_empty());

    state.set_open_files(vec![
        OpenFileInfo {
            file_path: "file1.rs".to_string(),
            language_id: "rust".to_string(),
            is_dirty: false,
            is_active: true,
            status: "Modified".to_string(),
            reviewed: false,
        },
        OpenFileInfo {
            file_path: "file2.rs".to_string(),
            language_id: "rust".to_string(),
            is_dirty: true,
            is_active: false,
            status: "Added".to_string(),
            reviewed: true,
        },
    ]);

    let editors = state.get_open_editors();
    assert_eq!(editors.len(), 2);
    assert_eq!(editors[0].file_path, "file1.rs");
    assert!(editors[0].is_active);
    assert_eq!(editors[1].file_path, "file2.rs");
    assert!(!editors[1].is_active);
}

#[test]
fn set_and_get_workspace() {
    let mut state = IdeState::new();
    assert!(state.get_workspace_folders().is_empty());

    state.set_workspace("/path/to/repo".to_string(), Some("repo".to_string()));

    let folders = state.get_workspace_folders();
    assert_eq!(folders.len(), 1);
    assert_eq!(folders[0].path, "/path/to/repo");
    assert_eq!(folders[0].name, "repo");
}

#[test]
fn workspace_derives_name_from_path() {
    let mut state = IdeState::new();
    state.set_workspace("/path/to/myproject".to_string(), None);

    let folders = state.get_workspace_folders();
    assert_eq!(folders.len(), 1);
    assert_eq!(folders[0].name, "myproject");
}

#[test]
fn set_and_get_diagnostics() {
    let mut state = IdeState::new();
    assert!(state.get_diagnostics(None).is_empty());

    state.set_diagnostics(vec![
        DiagnosticInfo {
            file_path: "file1.rs".to_string(),
            start_line: 10,
            end_line: 10,
            message: "Issue 1".to_string(),
            severity: "error".to_string(),
            comment_type: "Issue".to_string(),
        },
        DiagnosticInfo {
            file_path: "file2.rs".to_string(),
            start_line: 20,
            end_line: 25,
            message: "Suggestion 1".to_string(),
            severity: "warning".to_string(),
            comment_type: "Suggestion".to_string(),
        },
    ]);

    let all = state.get_diagnostics(None);
    assert_eq!(all.len(), 2);

    let file1_diags = state.get_diagnostics(Some("file1.rs"));
    assert_eq!(file1_diags.len(), 1);
    assert_eq!(file1_diags[0].message, "Issue 1");

    let file2_diags = state.get_diagnostics(Some("file2.rs"));
    assert_eq!(file2_diags.len(), 1);
    assert_eq!(file2_diags[0].message, "Suggestion 1");

    let no_diags = state.get_diagnostics(Some("nonexistent.rs"));
    assert!(no_diags.is_empty());
}

#[test]
fn set_active_file_updates_is_active() {
    let mut state = IdeState::new();
    state.set_open_files(vec![
        OpenFileInfo {
            file_path: "file1.rs".to_string(),
            language_id: "rust".to_string(),
            is_dirty: false,
            is_active: true,
            status: "Modified".to_string(),
            reviewed: false,
        },
        OpenFileInfo {
            file_path: "file2.rs".to_string(),
            language_id: "rust".to_string(),
            is_dirty: false,
            is_active: false,
            status: "Added".to_string(),
            reviewed: false,
        },
    ]);

    assert!(state.open_files[0].is_active);
    assert!(!state.open_files[1].is_active);

    state.set_active_file(1);
    assert!(!state.open_files[0].is_active);
    assert!(state.open_files[1].is_active);
    assert_eq!(state.active_file_index, 1);
}

#[test]
fn workspace_without_final_component_is_named_workspace() {
    let mut state = IdeState::new();
    state.set_workspace("/".to_string(), None);
    let folders = state.get_workspace_folders();
    assert_eq!(folders.len(), 1);
    assert_eq!(folders[0].path, "/");
    assert_eq!(folders[0].name, "workspace");
}

#[test]
fn set_active_file_beyond_the_files_marks_none() {
    let mut state = IdeState::new();
    state.set_open_files(vec![OpenFileInfo {
        file_path: "a.rs".to_string(),
        language_id: "rust".to_string(),
        is_dirty: false,
        is_active: true,
        status: "Modified".to_string(),
        reviewed: false,
    }]);
    state.set_active_file(7);
    assert!(!state.open_files[0].is_active);
    assert_eq!(state.active_file_index, 7);
    assert_eq!(state.open_files[0].file_path, "a.rs");
}

#[test]
fn diagnostics_keep_their_order_when_filtered() {
    let mut state = IdeState::new();
    let make = |file: &str, message: &str| DiagnosticInfo {
        file_path: file.to_string(),
        start_line: 1,
        end_line: 1,
        message: message.to_string(),
        severity: "error".to_string(),
        comment_type: "Issue".to_string(),
    };
    state.set_diagnostics(vec![
        make("a.rs", "first"),
        make("b.rs", "second"),
        make("a.rs", "third"),
    ]);
    let found = state.get_diagnostics(Some("a.rs"));
    assert_eq!(found.len(), 2);
    assert_eq!(found[0].message, "first");
    assert_eq!(found[1].message, "third");
}

#[test]
fn derived_name_is_a_part_of_the_path() {
    let cases = [
        ("/a/b/", "b"),
        ("a//b//", "b"),
        ("/a/b/c.d", "c.d"),
        ("x", "x"),
        ("a/..", "workspace"),
        (".", "workspace"),
        ("/", "workspace"),
        ("", "workspace"),
    ];
    for (path, name) in cases {
        let mut state = IdeState::new();
        state.set_workspace(path.to_string(), None);
        let folders = state.get_workspace_folders();
        assert_eq!(folders.len(), 1, "{path}");
        assert_eq!(folders[0].path, path);
        assert_eq!(folders[0].name, name, "{path}");
        assert!(!folders[0].name.is_empty());
        assert!(name == "workspace" || path.contains(&folders[0].name));
    }
}
