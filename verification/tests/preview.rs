use ncoxide::preview::highlight::{highlight, preview_lines, preview_plan, PreviewPlan, HIGHLIGHT_MAX};
use ncoxide::pane::FileEntry;
use ncoxide::preview::index::{checkpoint_for, LineScan};
use ncoxide::preview::loaded::{dir_preview_lines, looks_binary, DirLineKind, LoadedText};
use ncoxide::preview::search::{Search, SearchKind};
use ncoxide::preview::window::{decode_line, last_newline, LineCollector, MAX_LINE_BYTES};

#[test]
fn mod_test_binary_detection() {
    assert!(!looks_binary(b"Hello, world!\nThis is text.\n"));
    let mut bin = b"hello".to_vec();
    bin.push(0);
    bin.extend_from_slice(b"world");
    assert!(looks_binary(&bin));
}

#[test]
fn preview_test_binary_detection() {
    let text: Vec<u8> = b"line one\tand\r\nline two\n".to_vec();
    assert!(!looks_binary(&text));
    // mostly control bytes, no zero: binary by the ratio
    let noisy: Vec<u8> = (1u8..20).cycle().take(200).collect();
    assert!(looks_binary(&noisy));
    assert!(!looks_binary(b""));
}

#[test]
fn binary_ratio_threshold_is_85_percent() {
    // 17 text bytes of 20: exactly 85%, text
    let mut at = vec![b'a'; 17];
    at.extend_from_slice(&[1, 1, 1]);
    assert!(!looks_binary(&at));
    // 16 of 20: 80%, binary
    let mut below = vec![b'a'; 16];
    below.extend_from_slice(&[1, 1, 1, 1]);
    assert!(looks_binary(&below));
}

fn loaded(lines: &[&str]) -> LoadedText {
    LoadedText::new(lines.iter().map(|s| s.to_string()).collect())
}

#[test]
fn test_search_next_loaded() {
    let mut p = loaded(&["alpha", "beta", "gamma", "beta again"]);
    let s = Search::new("beta", SearchKind::Literal).unwrap();
    assert!(p.search_next(&s, true));
    assert_eq!(p.scroll(), 1);
    assert!(p.search_next(&s, true));
    assert_eq!(p.scroll(), 3);
    // wraps to the start
    assert!(p.search_next(&s, true));
    assert_eq!(p.scroll(), 1);
    // backward wraps to the end
    assert!(p.search_next(&s, false));
    assert_eq!(p.scroll(), 3);
    let none = Search::new("zzz", SearchKind::Literal).unwrap();
    assert!(!p.search_next(&none, true));
    assert_eq!(p.scroll(), 3);
}

#[test]
fn loaded_scrolling_and_status() {
    let lines: Vec<String> = (0..100).map(|i| format!("l{i}")).collect();
    let mut p = LoadedText::new(lines);
    assert_eq!(p.status_text(), "line 1/100");
    p.scroll_down(10);
    assert_eq!(p.scroll(), 10);
    p.scroll_down(500);
    assert_eq!(p.scroll(), 99);
    p.scroll_up(1000);
    assert_eq!(p.scroll(), 0);
    p.scroll_to_bottom(20);
    assert_eq!(p.scroll(), 80);
    p.goto_line(42);
    assert_eq!(p.scroll(), 41);
    assert_eq!(p.status_text(), "line 42/100");
    p.goto_line(0);
    assert_eq!(p.scroll(), 0);
    p.goto_line(1000);
    assert_eq!(p.scroll(), 99);
    p.scroll_to_top();
    assert_eq!(p.scroll(), 0);
    let empty = LoadedText::new(Vec::new());
    assert_eq!(empty.status_text(), "line 1/1");
}

fn entry(name: &str, is_dir: bool, is_symlink: bool) -> FileEntry {
    FileEntry {
        name: name.to_string(),
        path: format!("/d/{name}"),
        is_dir,
        is_symlink,
        is_hidden: name.starts_with('.'),
        size: 0,
        modified: None,
        permissions: String::new(),
    }
}

#[test]
fn test_dir_preview_sorts_dirs_first_and_respects_hidden() {
    let es = vec![
        entry("zeta.txt", false, false),
        entry("Beta", true, false),
        entry(".hidden", false, false),
        entry("alpha", true, false),
        entry("link", false, true),
    ];
    let lines = dir_preview_lines(&es, false).unwrap();
    let texts: Vec<&str> = lines.iter().map(|l| l.text.as_str()).collect();
    assert_eq!(texts, vec!["alpha/", "Beta/", "link", "zeta.txt"]);
    assert_eq!(lines[0].kind, DirLineKind::Dir);
    assert_eq!(lines[2].kind, DirLineKind::Symlink);
    assert_eq!(lines[3].kind, DirLineKind::Plain);
    let with_hidden = dir_preview_lines(&es, true).unwrap();
    assert_eq!(with_hidden.len(), 5);
    assert_eq!(with_hidden[2].text, ".hidden");
}

#[test]
fn test_dir_preview_caps_with_tail_line() {
    let es: Vec<FileEntry> = (0..1005).map(|i| entry(&format!("f{i:05}"), false, false)).collect();
    let lines = dir_preview_lines(&es, false).unwrap();
    assert_eq!(lines.len(), 1001);
    assert_eq!(lines[1000].text, "… 5 more entries");
    assert_eq!(lines[1000].kind, DirLineKind::More);
}

#[test]
fn test_dir_preview_empty_and_unreadable() {
    assert!(dir_preview_lines(&Vec::new(), false).is_none());
    assert!(dir_preview_lines(&vec![entry(".only", false, false)], false).is_none());
}

fn count(data: &[u8]) -> (u64, Vec<u64>) {
    let mut scan = LineScan::new();
    for chunk in data.chunks(7) {
        scan.feed(chunk);
    }
    (scan.total(), scan.offsets())
}

#[test]
fn test_count_trailing_newline() {
    assert_eq!(count(b"a\nb\nc\n").0, 3);
}

#[test]
fn test_count_no_trailing_newline() {
    assert_eq!(count(b"a\nb\nc").0, 3);
}

#[test]
fn test_count_empty() {
    assert_eq!(count(b"").0, 0);
}

#[test]
fn test_checkpoint_offsets() {
    // 5000 fixed-width lines "lineNNNN\n" (9 bytes each).
    let mut body = String::new();
    for i in 0..5000 {
        body.push_str(&format!("line{i:04}\n"));
    }
    let (_, offsets) = count(body.as_bytes());
    assert_eq!(checkpoint_for(&offsets, 1), (0, 1));
    assert_eq!(checkpoint_for(&offsets, 2001), (2000 * 9, 2001));
    assert_eq!(checkpoint_for(&offsets, 2500), (2000 * 9, 2001));
}

/// Read up to `n` lines from `start` as the windowed reader does.
fn read_forward(data: &[u8], start: usize, n: usize) -> (Vec<String>, usize, bool) {
    let mut c = LineCollector::new(n);
    let mut pos = start;
    while c.needs_more() {
        if pos >= data.len() {
            c.finish_eof();
            break;
        }
        // hand the bytes over in small buffers
        let end = (pos + 5).min(data.len());
        pos += c.feed(&data[pos..end]);
    }
    let (next, eof) = (start + c.consumed() as usize, c.eof());
    (c.into_lines(), next, eof)
}

#[test]
fn test_last_line_without_newline() {
    let (lines, next, eof) = read_forward(b"alpha\nbeta\ngamma", 0, 512);
    assert_eq!(lines, vec!["alpha", "beta", "gamma"]);
    assert_eq!(next, 16);
    assert!(eof);
}

#[test]
fn test_empty_file() {
    let (lines, _, eof) = read_forward(b"", 0, 512);
    assert!(lines.is_empty());
    assert!(eof);
}

#[test]
fn test_crlf_stripped() {
    let (lines, _, _) = read_forward(b"one\r\ntwo\r\n", 0, 512);
    assert_eq!(lines, vec!["one", "two"]);
}

#[test]
fn test_long_line_capped() {
    let mut data = vec![b'x'; MAX_LINE_BYTES * 4];
    data.push(b'\n');
    data.extend_from_slice(b"next\n");
    let (lines, next, _) = read_forward(&data, 0, 1);
    assert!(lines[0].len() < MAX_LINE_BYTES + 64); // truncated for display
    assert!(lines[0].contains("…[+"));
    assert_eq!(next, MAX_LINE_BYTES * 4 + 1);
    let (lines, _, _) = read_forward(&data, next, 1);
    assert_eq!(lines[0], "next");
}

#[test]
fn test_lossy_invalid_utf8() {
    let (lines, _, _) = read_forward(b"good\n\xff\xfe bad\ntail\n", 0, 512);
    assert_eq!(lines[0], "good");
    assert!(lines[1].contains("bad"));
    assert_eq!(lines[2], "tail");
}

#[test]
fn window_helpers() {
    assert_eq!(decode_line(b"abc\r", 4), "abc");
    assert_eq!(decode_line(b"ab", 5), "ab …[+3 bytes]");
    assert_eq!(last_newline(b"a\nb\nc"), Some(3));
    assert_eq!(last_newline(b"abc"), None);
}

#[test]
fn preview_plan_by_size_and_kind() {
    assert!(matches!(preview_plan(None, false, false),
        PreviewPlan::Message { ref text, binary: false } if text == "Cannot read file"));
    assert!(matches!(preview_plan(Some(10), true, true),
        PreviewPlan::Message { ref text, binary: true } if text == "[Binary file]"));
    assert!(matches!(preview_plan(Some(HIGHLIGHT_MAX), false, true), PreviewPlan::Whole));
    assert!(matches!(preview_plan(Some(HIGHLIGHT_MAX + 1), false, false), PreviewPlan::Windowed));
    // small but no UTF-8: through the window
    assert!(matches!(preview_plan(Some(10), false, false), PreviewPlan::Windowed));
}

#[test]
fn highlight_splits_lines_into_colored_pieces() {
    let lines = highlight("fn main() {}\nlet x = 1;", Some("rs")).unwrap();
    assert_eq!(lines.len(), 2);
    let text: String = lines[0].iter().map(|p| p.text.as_str()).collect();
    assert_eq!(text, "fn main() {}");
    assert!(lines[0].len() > 1);
    let plain = highlight("hello", None).unwrap();
    assert_eq!(plain.len(), 1);
    assert_eq!(plain[0].iter().map(|p| p.text.as_str()).collect::<String>(), "hello");
}

#[test]
fn preview_lines_split_like_str_lines() {
    for text in ["", "a", "a\n", "a\nb", "a\r\nb\r\n", "x\r", "\n\n", "a\rb\n", "\r\n", "é\r\r\n"] {
        let expected: Vec<String> = text.lines().map(|l| l.to_string()).collect();
        assert_eq!(preview_lines(text), expected, "text {text:?}");
    }
    // a line that fails nothing keeps its text; unknown extensions are plain
    let lines = highlight("a\r\nb", Some("no-such-ext")).unwrap();
    assert_eq!(lines.len(), 2);
    assert_eq!(lines[0].iter().map(|p| p.text.as_str()).collect::<String>(), "a");
}
