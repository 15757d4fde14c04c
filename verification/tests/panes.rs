use ncoxide::error::NcError;
use ncoxide::pane::{EntryMeta, FileEntry, PaneId, PaneState};

/// A directory tree in memory: every path with whether it is a directory.
struct Tree {
    nodes: Vec<(String, bool)>,
}

impl Tree {
    fn new(root: &str, children: &[&str]) -> Tree {
        let mut nodes = vec![(root.to_string(), true)];
        for c in children {
            // a trailing slash marks a directory
            let is_dir = c.ends_with('/');
            let name = c.trim_end_matches('/');
            nodes.push((format!("{root}/{name}"), is_dir));
        }
        Tree { nodes }
    }

    /// What reading `dir` gives, as the application builds it.
    fn listing(&self, dir: &str) -> Result<Vec<FileEntry>, NcError> {
        match self.nodes.iter().find(|(p, _)| p == dir) {
            Some((_, true)) => {}
            Some((_, false)) => return Err(NcError::Io("Not a directory (os error 20)".into())),
            None => return Err(NcError::Io("No such file or directory (os error 2)".into())),
        }
        let prefix = format!("{dir}/");
        let mut out = Vec::new();
        for (p, is_dir) in &self.nodes {
            if let Some(rest) = p.strip_prefix(&prefix) {
                if !rest.contains('/') {
                    let meta = EntryMeta {
                        is_symlink: false,
                        is_dir: *is_dir,
                        len: rest.len() as u64,
                        modified: Some(0),
                        mode: if *is_dir { 0o755 } else { 0o644 },
                        target: None,
                    };
                    out.push(FileEntry::from_path(p, &meta));
                }
            }
        }
        Ok(out)
    }

    fn open(&self, id: PaneId, dir: &str) -> PaneState {
        PaneState::new(id, dir.to_string(), self.listing(dir))
    }
}

fn parent_of(p: &str) -> String {
    match p.rfind('/') {
        Some(0) => "/".to_string(),
        Some(i) => p[..i].to_string(),
        None => p.to_string(),
    }
}

#[test]
fn test_pane_state_new() {
    let t = Tree::new("/t/pane", &["file_a.txt", "file_b.rs", "subdir/"]);
    let pane = t.open(PaneId::Left, "/t/pane");
    assert!(!pane.entries.is_empty());
    // Directories should come first
    assert!(pane.entries[0].is_dir);
}

#[test]
fn test_sort_by_name() {
    let t = Tree::new("/t/sort", &["zeta.txt", "alpha.txt", "middle.txt"]);
    let pane = t.open(PaneId::Left, "/t/sort");
    let names: Vec<&str> = pane.entries.iter().map(|e| e.name.as_str()).collect();
    assert_eq!(names, vec!["alpha.txt", "middle.txt", "zeta.txt"]);
}

#[test]
fn test_hidden_files_filtered() {
    let t = Tree::new("/t/hidden", &[".hidden", "visible.txt"]);
    let pane = t.open(PaneId::Left, "/t/hidden");
    assert_eq!(pane.entries.len(), 1);
    assert_eq!(pane.entries[0].name, "visible.txt");
}

#[test]
fn test_selected_paths_default() {
    let t = Tree::new("/t/sel", &["file.txt"]);
    let pane = t.open(PaneId::Left, "/t/sel");
    let paths = pane.selected_paths();
    assert_eq!(paths.len(), 1);
    assert_eq!(paths[0], "/t/sel/file.txt");
}

fn nav_tree(root: &str) -> Tree {
    let mut t = Tree::new(root, &["adir/", "bfile.txt", "cfile.rs"]);
    t.nodes.push((format!("{root}/adir/inner.txt"), false));
    t
}

#[test]
fn test_cursor_movement() {
    let t = nav_tree("/t/cursor");
    let mut pane = t.open(PaneId::Left, "/t/cursor");
    assert_eq!(pane.entries.len(), 3);
    assert_eq!(pane.cursor, 0);
    pane.cursor_down();
    assert_eq!(pane.cursor, 1);
    pane.cursor_down();
    assert_eq!(pane.cursor, 2);
    pane.cursor_down(); // at end, should stay
    assert_eq!(pane.cursor, 2);
    pane.cursor_up();
    assert_eq!(pane.cursor, 1);
    pane.cursor_top();
    assert_eq!(pane.cursor, 0);
    pane.cursor_bottom();
    assert_eq!(pane.cursor, 2);
}

#[test]
fn test_enter_and_parent() {
    let t = nav_tree("/t/enter_parent");
    let mut pane = t.open(PaneId::Left, "/t/enter_parent");
    // First entry should be the directory (sorted first)
    assert!(pane.entries[0].is_dir);
    let target = pane.entries[0].path.clone();
    let result = pane.enter(t.listing(&target)).unwrap();
    assert!(result.is_none()); // entered a directory
    assert!(pane.cwd.ends_with("adir"));
    assert_eq!(pane.prev_dir.as_deref(), Some("/t/enter_parent"));

    let parent = parent_of(&pane.cwd);
    pane.go_parent(t.listing(&parent)).unwrap();
    assert_eq!(pane.cwd, "/t/enter_parent");
    // Cursor should be on "adir"
    assert_eq!(pane.entries[pane.cursor].name, "adir");
}

#[test]
fn test_enter_file() {
    let t = nav_tree("/t/enter_file");
    let mut pane = t.open(PaneId::Left, "/t/enter_file");
    // Move to a file entry
    pane.cursor = 1; // bfile.txt
    let target = pane.entries[1].path.clone();
    let result = pane.enter(t.listing(&target)).unwrap();
    assert_eq!(result.as_deref(), Some("/t/enter_file/bfile.txt"));
}

#[test]
fn test_goto_unreadable_dir_errors_and_reverts() {
    let t = Tree::new("/t/nav_unreadable", &["visible.txt", "locked/"]);
    let mut pane = t.open(PaneId::Left, "/t/nav_unreadable");
    let before_prev = pane.prev_dir.clone();

    // What reading an unreadable directory gives.
    let failed = Err(NcError::Io("Permission denied (os error 13)".into()));
    assert!(pane.goto("/t/nav_unreadable/locked".to_string(), failed).is_err());
    assert_eq!(pane.cwd, "/t/nav_unreadable", "failed goto must keep the old cwd");
    // the caller reads the old directory again
    pane.refresh(t.listing("/t/nav_unreadable")).unwrap();
    assert!(pane.entries.iter().any(|e| e.name == "visible.txt"), "old listing restored");
    assert_eq!(pane.prev_dir, before_prev, "prev_dir untouched on failure");

    // Non-directory target errors instead of being silently ignored.
    let file = "/t/nav_unreadable/visible.txt";
    assert!(pane.goto(file.to_string(), t.listing(file)).is_err());
    assert_eq!(pane.cwd, "/t/nav_unreadable");
}

#[test]
fn test_selection_ops() {
    let t = Tree::new("/t/sel_ops", &["a.txt", "b.rs", "c.txt"]);
    let mut pane = t.open(PaneId::Left, "/t/sel_ops");
    assert_eq!(pane.selection_count(), 0);

    pane.select_all();
    assert_eq!(pane.selection_count(), 3);

    pane.invert_selection();
    assert_eq!(pane.selection_count(), 0);

    pane.select_by_glob("*.txt");
    assert_eq!(pane.selection_count(), 2);

    pane.deselect_all();
    assert_eq!(pane.selection_count(), 0);
}

#[test]
fn point_at_finds_first_named_entry() {
    let t = Tree::new("/t/point", &["a.txt", "b.txt"]);
    let mut pane = t.open(PaneId::Right, "/t/point");
    pane.point_at("b.txt");
    assert_eq!(pane.cursor, 1);
    pane.point_at("missing");
    assert_eq!(pane.cursor, 1);
}

use ncoxide::mode::{Action, InputKind, KeyCode, KeyEvent, Mode};
use ncoxide::session::{App, Effect, GotoTarget, PaneStep, PreviewStep, Setting};
use ncoxide::ui::dialog::{ConfirmAction, Dialog};
use ncoxide::ui::screen::status_line;

fn two_panes(root: &str) -> (App, Tree) {
    let t = nav_tree(root);
    let left = t.open(PaneId::Left, root);
    let right = t.open(PaneId::Right, &format!("{root}/adir"));
    (App::new(left, right), t)
}

fn key(c: char) -> KeyEvent {
    KeyEvent::new(KeyCode::Char(c), 0)
}

#[test]
fn session_navigation_asks_for_pane_steps() {
    let (mut app, _t) = two_panes("/s/nav");
    let out = app.handle_key(key('j'));
    assert!(matches!(out.effect, Effect::Pane(PaneStep::Down)));
    assert!(out.update_preview);
    app.apply_pane_step(PaneStep::Down);
    assert_eq!(app.left_pane.cursor, 1);
    // g then g: to the top
    let out = app.handle_key(key('g'));
    assert!(matches!(out.effect, Effect::Nothing));
    let out = app.handle_key(key('g'));
    assert!(matches!(out.effect, Effect::Pane(PaneStep::Top)));
}

#[test]
fn session_space_menu_closes_after_its_action() {
    let (mut app, _t) = two_panes("/s/space");
    app.handle_key(key(' '));
    assert_eq!(app.mode, Mode::Space);
    let out = app.handle_key(key('c'));
    assert!(matches!(out.effect, Effect::CopyToOther));
    assert_eq!(app.mode, Mode::Normal);
    // a text input opened from the menu stays open
    app.handle_key(key(' '));
    app.handle_key(key('n'));
    assert_eq!(app.mode, Mode::Input(InputKind::Mkdir));
}

#[test]
fn session_rename_prefills_and_confirms() {
    let (mut app, _t) = two_panes("/s/rename");
    app.apply_pane_step(PaneStep::Down); // bfile.txt
    app.handle_key(key('r'));
    assert_eq!(app.mode, Mode::Input(InputKind::Rename));
    assert_eq!(app.input_buffer, "bfile.txt");
    app.handle_key(KeyEvent::new(KeyCode::Backspace, 0));
    app.handle_key(key('X'));
    let out = app.handle_key(KeyEvent::new(KeyCode::Enter, 0));
    match out.effect {
        Effect::Rename { path, new_name } => {
            assert_eq!(path, "/s/rename/bfile.txt");
            assert_eq!(new_name, "bfile.txX");
        }
        _ => panic!("expected a rename"),
    }
    assert_eq!(app.mode, Mode::Normal);
    assert_eq!(app.input_buffer, "");
}

#[test]
fn session_command_line_cd_goes_relative_to_cwd() {
    let (mut app, _t) = two_panes("/s/cd");
    app.handle_key(key(':'));
    for c in "cd adir".chars() {
        app.handle_key(key(c));
    }
    let out = app.handle_key(KeyEvent::new(KeyCode::Enter, 0));
    match out.effect {
        Effect::Goto(GotoTarget::Path(p)) => assert_eq!(p, "/s/cd/adir"),
        _ => panic!("expected a goto"),
    }
    app.handle_key(key(':'));
    for c in "sort size".chars() {
        app.handle_key(key(c));
    }
    let out = app.handle_key(KeyEvent::new(KeyCode::Enter, 0));
    assert!(matches!(out.effect, Effect::Relist(Setting::Sort(ncoxide::pane::SortBy::Size))));
    // an absolute path is taken as it is
    let out = app.dispatch(Action::ExecuteCommand("cd  /etc ".to_string()));
    match out.effect {
        Effect::Goto(GotoTarget::Path(p)) => assert_eq!(p, "/etc"),
        _ => panic!("expected a goto"),
    }
}

#[test]
fn session_delete_asks_first() {
    let (mut app, _t) = two_panes("/s/delete");
    let out = app.dispatch(Action::DeleteSelected);
    assert!(matches!(out.effect, Effect::Nothing));
    match &app.dialog {
        Some(Dialog::Confirm { title, message, action: ConfirmAction::Delete { paths } }) => {
            assert_eq!(title, "Confirm Delete");
            assert_eq!(message, "Delete /s/delete/adir?");
            assert_eq!(paths.len(), 1);
        }
        _ => panic!("expected a confirmation"),
    }
    // 'n' dismisses, nothing happens
    let out = app.handle_key(key('n'));
    assert!(matches!(out.effect, Effect::Nothing));
    assert!(app.dialog.is_none());
    // everything selected: the count is asked about; 'y' confirms
    app.apply_pane_step(PaneStep::SelectAll);
    app.dispatch(Action::DeleteSelected);
    match &app.dialog {
        Some(Dialog::Confirm { message, .. }) => assert_eq!(message, "Delete 3 items?"),
        _ => panic!("expected a confirmation"),
    }
    let out = app.handle_key(key('y'));
    assert!(matches!(out.effect, Effect::Confirmed(ConfirmAction::Delete { .. })));
}

#[test]
fn session_focused_preview_takes_navigation() {
    let (mut app, _t) = two_panes("/s/preview");
    app.page_size = 20;
    let out = app.dispatch(Action::TogglePreview);
    assert!(matches!(out.effect, Effect::PreviewOn));
    app.dispatch(Action::SwitchPane); // focus goes to the preview
    assert!(app.preview_focused);
    assert_eq!(app.active_pane, PaneId::Left);
    let out = app.dispatch(Action::HalfPageDown);
    assert!(matches!(out.effect, Effect::Preview(PreviewStep::Down(10))));
    assert!(!out.update_preview);
    // anything else is swallowed
    let out = app.dispatch(Action::CopyToOther);
    assert!(matches!(out.effect, Effect::Nothing));
    app.dispatch(Action::ExitToNormal);
    assert!(!app.preview_focused);
    let out = app.dispatch(Action::TogglePreview);
    assert!(matches!(out.effect, Effect::PreviewOff));
    app.dispatch(Action::SwitchPane);
    assert_eq!(app.active_pane, PaneId::Right);
}

#[test]
fn session_help_and_finder_keys() {
    let (mut app, _t) = two_panes("/s/help");
    app.dispatch(Action::ShowHelp);
    assert!(app.show_help);
    let out = app.handle_key(key('j'));
    assert!(matches!(out.effect, Effect::Nothing));
    assert!(app.show_help);
    app.handle_key(key('?'));
    assert!(!app.show_help);

    app.dispatch(Action::EnterFinder);
    assert_eq!(app.mode, Mode::Finder);
    let out = app.handle_key(key('m'));
    assert!(matches!(out.effect, Effect::FinderSearch));
    assert_eq!(app.input_buffer, "m");
    app.set_finder_results(vec![ncoxide::finder::FinderMatch {
        path: "/tmp/main.rs".to_string(),
        display_name: "main.rs".to_string(),
        score: 10,
    }]);
    let out = app.handle_key(KeyEvent::new(KeyCode::Enter, 0));
    match out.effect {
        Effect::FinderOpen(p) => assert_eq!(p, "/tmp/main.rs"),
        _ => panic!("expected a finder open"),
    }
    assert_eq!(app.mode, Mode::Normal);
    assert!(app.finder_results.is_empty());
}

#[test]
fn session_settings_and_file_info() {
    let (mut app, t) = two_panes("/s/settings");
    let out = app.dispatch(Action::ToggleHidden);
    let Effect::Relist(setting) = out.effect else { panic!("expected a relist") };
    app.apply_setting(setting, t.listing("/s/settings")).unwrap();
    assert!(app.left_pane.show_hidden);
    let out = app.dispatch(Action::ShowFileInfo);
    assert!(matches!(out.effect, Effect::FileInfo));
    app.show_file_info(None);
    match &app.dialog {
        Some(Dialog::Info { title, message }) => {
            assert_eq!(title, "File Info");
            assert_eq!(
                message,
                "Name: adir\nPath: /s/settings/adir\nSize: 4 B\nPermissions: drwxr-xr-x\nModified: unknown"
            );
        }
        _ => panic!("expected info"),
    }
    app.set_page_size(30);
    assert_eq!(app.page_size, 26);
    app.set_page_size(2);
    assert_eq!(app.page_size, 0);
}

#[test]
fn status_line_texts() {
    let (mut app, _t) = two_panes("/home/u/st");
    let s = status_line(&app, Some("/home/u"));
    assert_eq!(s.mode, " NOR ");
    assert_eq!(s.path, "  ~/st  ");
    assert_eq!(s.selected, None);
    assert_eq!(s.count, "\u{2502}  3 items  ");
    assert_eq!(s.input, None);
    assert!(!s.preview);
    app.left_pane.toggle_select();
    app.handle_key(key(':'));
    app.handle_key(key('q'));
    let s = status_line(&app, None);
    assert_eq!(s.mode, " CMD ");
    assert_eq!(s.path, "  /home/u/st  ");
    assert_eq!(s.selected.as_deref(), Some("\u{2502}  1 selected  "));
    assert_eq!(s.input.as_deref(), Some("  :q"));
}
