use ncoxide::mode::command::handle_key as command_key;
use ncoxide::mode::input::handle_key;
use ncoxide::mode::{Action, KeyCode, KeyEvent, ALT, CONTROL, SHIFT};
use ncoxide::pane::operations::space_shortfall;
use ncoxide::pane::selection::glob_match;
use ncoxide::pane::SortBy;
use ncoxide::platform::{display_path, format_file_size, format_permissions};

#[test]
fn test_modified_chars_are_not_text() {
    let plain = KeyEvent::new(KeyCode::Char('c'), 0);
    assert!(matches!(handle_key(plain), Action::InputChar('c')));

    let shifted = KeyEvent::new(KeyCode::Char('C'), SHIFT);
    assert!(matches!(handle_key(shifted), Action::InputChar('C')));

    let ctrl = KeyEvent::new(KeyCode::Char('c'), CONTROL);
    assert!(matches!(handle_key(ctrl), Action::NoOp));

    let alt = KeyEvent::new(KeyCode::Char('c'), ALT);
    assert!(matches!(handle_key(alt), Action::NoOp));
}

#[test]
fn test_sort_by_parse() {
    assert_eq!(SortBy::parse("name"), Some(SortBy::Name));
    assert_eq!(SortBy::parse("size"), Some(SortBy::Size));
    assert_eq!(SortBy::parse("date"), Some(SortBy::Date));
    assert_eq!(SortBy::parse("ext"), Some(SortBy::Extension));
    assert_eq!(SortBy::parse("extension"), Some(SortBy::Extension));
    assert_eq!(SortBy::parse("bogus"), None);
}

#[test]
fn test_glob_match() {
    assert!(glob_match("*.rs", "main.rs"));
    assert!(glob_match("*.rs", "lib.rs"));
    assert!(!glob_match("*.rs", "main.txt"));
    assert!(glob_match("test_*", "test_foo"));
    assert!(glob_match("?oo", "foo"));
    assert!(!glob_match("?oo", "foobar"));
    assert!(glob_match("*", "anything"));
}

#[test]
fn glob_edge_cases() {
    assert!(glob_match("", ""));
    assert!(!glob_match("", "a"));
    assert!(glob_match("a*b*c", "aXXbYYc"));
    assert!(!glob_match("a*b*c", "aXXbYY"));
    assert!(glob_match("**", ""));
}

#[test]
fn test_space_shortfall_comparison() {
    // Only a genuine shortfall errors; exact fit passes.
    assert!(space_shortfall(10, 5).is_some());
    assert!(space_shortfall(5, 10).is_none());
    assert!(space_shortfall(5, 5).is_none());
}

#[test]
fn test_format_file_size() {
    assert_eq!(format_file_size(0), "0 B");
    assert_eq!(format_file_size(512), "512 B");
    assert_eq!(format_file_size(1024), "1.0 KB");
    assert_eq!(format_file_size(1536), "1.5 KB");
    assert_eq!(format_file_size(1048576), "1.0 MB");
    assert_eq!(format_file_size(1073741824), "1.0 GB");
}

#[test]
fn file_size_matches_float_formatting() {
    // The size text agrees with `{:.1}` of the f64 quotient, ties to even.
    for &size in &[1023u64, 1025, 1075, 1126, 1127, 10 * 1024 + 51, 999_999, 5_000_000_000, 3 * 1024u64.pow(4) + 1, u64::MAX] {
        let expect = if size < 1024 {
            format!("{size} B")
        } else if size < 1024 * 1024 {
            format!("{:.1} KB", size as f64 / 1024.0)
        } else if size < 1024 * 1024 * 1024 {
            format!("{:.1} MB", size as f64 / (1024.0 * 1024.0))
        } else if size < 1024u64.pow(4) {
            format!("{:.1} GB", size as f64 / (1024.0 * 1024.0 * 1024.0))
        } else {
            format!("{:.1} TB", size as f64 / 1024f64.powi(4))
        };
        assert_eq!(format_file_size(size), expect, "size {size}");
    }
}

#[test]
fn test_format_permissions() {
    // The root directory: a directory with its own mode bits.
    let perms = format_permissions(0o755, true, false);
    assert_eq!(perms.len(), 10);
    assert!(perms.starts_with('d'));
    assert_eq!(perms, "drwxr-xr-x");
    assert_eq!(format_permissions(0o640, false, false), "-rw-r-----");
    assert_eq!(format_permissions(0o777, false, true), "lrwxrwxrwx");
}

#[test]
fn test_display_path() {
    let home = dirs::home_dir().unwrap();
    let home_text = home.to_string_lossy().to_string();
    let test_path = home.join("foo/bar");
    assert_eq!(display_path(&test_path.to_string_lossy(), Some(&home_text)), "~/foo/bar");
    assert_eq!(display_path("/etc/hosts", Some(&home_text)), "/etc/hosts");
    assert_eq!(display_path("/etc/hosts", None), "/etc/hosts");
}

#[test]
fn command_line_ignores_ctrl_and_alt_chords() {
    assert!(matches!(command_key(KeyEvent::new(KeyCode::Char('q'), 0)), Action::InputChar('q')));
    assert!(matches!(command_key(KeyEvent::new(KeyCode::Char('Q'), SHIFT)), Action::InputChar('Q')));
    assert!(matches!(command_key(KeyEvent::new(KeyCode::Char('c'), CONTROL)), Action::NoOp));
    assert!(matches!(command_key(KeyEvent::new(KeyCode::Char('x'), ALT)), Action::NoOp));
    assert!(matches!(command_key(KeyEvent::new(KeyCode::Enter, 0)), Action::InputConfirm));
}
