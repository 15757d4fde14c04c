use ncoxide::graphics::{report_notes, Capability, Protocol};
use ncoxide::mode::{KeyCode, KeyEvent, Mode, CONTROL};
use ncoxide::pager::{FilterChange, FooterTone, Pager, PagerCommand, PagerMode};
use ncoxide::pane::FileEntry;
use ncoxide::preview::filter::FilterMatch;
use ncoxide::preview::decode::decode_image;
use ncoxide::preview::image_facts::{has_image_extension, image_note, image_view_step, ImageAction, ImageEvent, ImageView};
use ncoxide::preview::search::SearchKind;
use ncoxide::preview::spans::highlight_pieces;
use ncoxide::preview::loaded::{dir_message, windowed_status, LineCount};
use ncoxide::preview::walk::{
    line_after, scroll_down_target, BackwardSearch, BottomWalk, ForwardSearch, Found, LineWalk,
    ReadOne, UpWalk,
};
use ncoxide::ui::screen::{centered, first_row, mode_color, overlay_size, row_cells, row_look, RowLook};
use ncoxide::ui::theme::{parse_color, ColorName, ThemeColor};

fn ch(c: char) -> KeyEvent {
    KeyEvent::new(KeyCode::Char(c), 0)
}

fn code(k: KeyCode) -> KeyEvent {
    KeyEvent::new(k, 0)
}

#[test]
fn pager_count_then_g_goes_to_line() {
    let mut p = Pager::new();
    assert!(p.key_fits(&ch('4')));
    let out = p.handle_key(ch('4'), 20);
    assert!(matches!(out.command, PagerCommand::Nothing));
    p.handle_key(ch('2'), 20);
    assert_eq!(p.goto_count, Some(42));
    assert_eq!(p.footer(false), (":42  (g/G to jump)".to_string(), FooterTone::Prompt));
    let out = p.handle_key(ch('G'), 20);
    assert!(matches!(out.command, PagerCommand::GotoLine(42)));
    assert!(matches!(out.filter, FilterChange::Keep));
    assert_eq!(p.goto_count, None);
}

#[test]
fn pager_top_bottom_and_scrolling() {
    let mut p = Pager::new();
    assert!(matches!(p.handle_key(ch('g'), 30).command, PagerCommand::Top));
    assert!(matches!(p.handle_key(ch('G'), 30).command, PagerCommand::Bottom(30)));
    assert!(matches!(
        p.handle_key(ch('j'), 30).command,
        PagerCommand::Down { amount: 1, page: 30 }
    ));
    assert!(matches!(
        p.handle_key(ch(' '), 30).command,
        PagerCommand::Down { amount: 30, page: 30 }
    ));
    assert!(matches!(p.handle_key(code(KeyCode::PageUp), 30).command, PagerCommand::Up(30)));
    assert!(matches!(p.handle_key(ch('k'), 30).command, PagerCommand::Up(1)));
    assert!(matches!(p.handle_key(ch('n'), 30).command, PagerCommand::SearchNext(true)));
    assert!(matches!(p.handle_key(ch('N'), 30).command, PagerCommand::SearchNext(false)));
    assert!(matches!(p.handle_key(ch('q'), 30).command, PagerCommand::Quit));
}

#[test]
fn pager_count_is_dropped_by_other_keys() {
    let mut p = Pager::new();
    p.handle_key(ch('7'), 10);
    p.handle_key(ch('x'), 10);
    assert_eq!(p.goto_count, None);
    assert!(matches!(p.handle_key(ch('g'), 10).command, PagerCommand::Top));
}

#[test]
fn pager_count_overflow_is_refused() {
    let mut p = Pager::new();
    p.goto_count = Some(usize::MAX / 10 + 1);
    assert!(p.key_fits(&ch('0')));
    assert!(!p.key_fits(&ch('1')));
    assert!(p.key_fits(&ch('j')));
    p.goto_count = Some(usize::MAX / 10);
    assert!(p.key_fits(&ch('5')));
    assert!(!p.key_fits(&ch('9')));
}

#[test]
fn pager_search_prompt_types_toggles_and_submits() {
    let mut p = Pager::new();
    p.handle_key(ch('/'), 10);
    for c in "fox".chars() {
        p.handle_key(ch(c), 10);
    }
    p.handle_key(code(KeyCode::Backspace), 10);
    p.handle_key(ch('o'), 10);
    assert_eq!(
        p.footer(false).0,
        "/foo  [literal]  (Ctrl-R toggles, Enter search, Esc cancel)"
    );
    p.handle_key(KeyEvent::new(KeyCode::Char('r'), CONTROL), 10);
    assert_eq!(
        p.footer(false),
        (
            "/foo  [regex]  (Ctrl-R toggles, Enter search, Esc cancel)".to_string(),
            FooterTone::Prompt
        )
    );
    let out = p.handle_key(code(KeyCode::Enter), 10);
    match out.command {
        PagerCommand::Search { query, kind } => {
            assert_eq!(query, "foo");
            assert_eq!(kind, SearchKind::Regex);
        }
        _ => panic!("expected a search"),
    }
    assert!(matches!(p.mode, PagerMode::Normal));
    assert_eq!(p.last_kind, SearchKind::Regex);
    // the next prompt starts in the kind last used
    p.handle_key(ch('/'), 10);
    assert!(matches!(p.mode, PagerMode::Search { kind: SearchKind::Regex, .. }));
    p.handle_key(code(KeyCode::Esc), 10);
    assert!(matches!(p.mode, PagerMode::Normal));
}

#[test]
fn pager_error_shows_until_next_key() {
    let mut p = Pager::new();
    p.report("invalid regex: oops".to_string());
    assert_eq!(p.footer(true), ("invalid regex: oops".to_string(), FooterTone::Error));
    p.handle_key(ch('j'), 10);
    assert_eq!(
        p.footer(true),
        ("/ search  n/N next  NG goto  q quit".to_string(), FooterTone::Hint)
    );
    assert_eq!(
        p.footer(false).0,
        "/ search  NG goto line  g/G top/bottom  q quit"
    );
}

fn fm(line: u64, text: &str) -> FilterMatch {
    FilterMatch { line, text: text.to_string(), score: 1 }
}

#[test]
fn pager_filter_restarts_selects_and_jumps() {
    let mut p = Pager::new();
    p.handle_key(ch('&'), 10);
    let out = p.handle_key(ch('a'), 10);
    assert!(matches!(out.filter, FilterChange::Start(ref q) if q == "a"));
    let out = p.handle_key(ch('b'), 10);
    assert!(matches!(out.filter, FilterChange::Start(ref q) if q == "ab"));
    p.set_filter_results(vec![fm(3, "ab"), fm(9, "xab")]);
    assert_eq!(
        p.footer(false).0,
        "&ab  (2 matches)  (\u{2191}/\u{2193} select, Enter jump, Esc cancel)"
    );
    p.handle_key(code(KeyCode::Down), 10);
    p.handle_key(code(KeyCode::Down), 10);
    assert!(matches!(p.mode, PagerMode::Filter { cursor: 1, .. }));
    // fewer results keep the cursor on the last one
    p.set_filter_results(vec![fm(9, "xab")]);
    assert!(matches!(p.mode, PagerMode::Filter { cursor: 0, .. }));
    let out = p.handle_key(code(KeyCode::Enter), 10);
    assert!(matches!(out.command, PagerCommand::GotoLine(9)));
    assert!(matches!(out.filter, FilterChange::Stop));
    assert!(matches!(p.mode, PagerMode::Normal));
}

#[test]
fn pager_filter_backspace_to_empty_stops() {
    let mut p = Pager::new();
    p.handle_key(ch('&'), 10);
    p.handle_key(ch('z'), 10);
    let out = p.handle_key(code(KeyCode::Backspace), 10);
    assert!(matches!(out.filter, FilterChange::Stop));
    let out = p.handle_key(code(KeyCode::Enter), 10);
    assert!(matches!(out.command, PagerCommand::Nothing));
}

#[test]
fn line_walk_reads_forward_to_target() {
    let mut w = LineWalk::new(3, (0, 1));
    assert!(!w.done);
    w.feed(ReadOne::Line { next: 6, eof: false, hit: false });
    assert_eq!((w.off, w.line, w.done), (6, 2, false));
    w.feed(ReadOne::Line { next: 12, eof: false, hit: false });
    assert_eq!((w.off, w.line, w.done), (12, 3, true));
    assert_eq!(w.top_line(), 2);
}

#[test]
fn line_walk_stops_on_last_line_and_failures() {
    let mut w = LineWalk::new(100, (40, 5));
    w.feed(ReadOne::Line { next: 50, eof: true, hit: false });
    assert_eq!((w.off, w.line, w.done), (40, 5, true));
    let mut w = LineWalk::new(100, (40, 5));
    w.feed(ReadOne::Failed);
    assert_eq!((w.off, w.line, w.done), (40, 5, true));
    // line 0 means line 1, which a checkpoint at line 1 already is
    let w = LineWalk::new(0, (0, 1));
    assert_eq!((w.target, w.done), (1, true));
}

#[test]
fn forward_search_skips_the_top_line() {
    let mut s = ForwardSearch::new(0, Some(0));
    // the top line matches, but the search starts after it
    s.feed(ReadOne::Line { next: 4, eof: false, hit: true });
    assert_eq!(s.found, Found::Searching);
    s.feed(ReadOne::Line { next: 9, eof: false, hit: false });
    s.feed(ReadOne::Line { next: 15, eof: false, hit: true });
    assert_eq!(s.found, Found::At { off: 9, line: Some(2) });
}

#[test]
fn backward_search_steps_back_to_a_match() {
    let mut s = BackwardSearch::new(20, Some(3), 30);
    s.feed(Some(14), ReadOne::Line { next: 20, eof: false, hit: false }, 30);
    assert_eq!((s.off, s.line, s.found), (14, Some(2), Found::Searching));
    s.feed(Some(5), ReadOne::Line { next: 14, eof: false, hit: true }, 30);
    assert_eq!(s.found, Found::At { off: 5, line: Some(1) });
    let mut s = BackwardSearch::new(20, None, 30);
    s.feed(None, ReadOne::Failed, 30);
    assert_eq!(s.found, Found::NotFound);
}

#[test]
fn forward_search_wraps_to_the_top_line() {
    // lines at 0, 4 and 8 (the last); the view's top is the line at 4
    let mut s = ForwardSearch::new(4, Some(1));
    s.feed(ReadOne::Line { next: 8, eof: false, hit: false });
    s.feed(ReadOne::Line { next: 12, eof: true, hit: false });
    // past the end: on from the first line
    assert_eq!((s.off, s.line, s.wrapped, s.found), (0, Some(0), true, Found::Searching));
    s.feed(ReadOne::Line { next: 4, eof: false, hit: true });
    assert_eq!(s.found, Found::At { off: 0, line: Some(0) });
    // nothing matches: the top line is looked at last
    let mut s = ForwardSearch::new(4, Some(1));
    s.feed(ReadOne::Line { next: 8, eof: false, hit: false });
    s.feed(ReadOne::Nothing);
    assert!(s.wrapped);
    s.feed(ReadOne::Line { next: 4, eof: false, hit: false });
    assert_eq!(s.found, Found::Searching);
    s.feed(ReadOne::Line { next: 8, eof: false, hit: false });
    assert_eq!(s.found, Found::NotFound);
    // an empty file holds nothing
    let mut s = ForwardSearch::new(0, Some(0));
    s.feed(ReadOne::Nothing);
    assert_eq!(s.found, Found::NotFound);
    // a one-line file: the top line itself
    let mut s = ForwardSearch::new(0, Some(0));
    s.feed(ReadOne::Line { next: 4, eof: true, hit: true });
    s.feed(ReadOne::Line { next: 4, eof: true, hit: true });
    assert_eq!(s.found, Found::At { off: 0, line: Some(0) });
}

#[test]
fn backward_search_wraps_to_the_end() {
    // lines at 0, 5, 14 and 20 in a 26-byte file; the top is the line at 14
    let mut s = BackwardSearch::new(14, Some(2), 26);
    s.feed(Some(5), ReadOne::Line { next: 14, eof: false, hit: false }, 26);
    s.feed(Some(0), ReadOne::Line { next: 5, eof: false, hit: false }, 26);
    assert_eq!((s.off, s.line, s.wrapped, s.found), (26, None, true, Found::Searching));
    s.feed(Some(20), ReadOne::Line { next: 26, eof: true, hit: true }, 26);
    assert_eq!(s.found, Found::At { off: 20, line: None });
    // back at the top line: nothing matches
    let mut s = BackwardSearch::new(0, Some(0), 26);
    assert_eq!((s.off, s.wrapped), (26, true));
    s.feed(Some(20), ReadOne::Line { next: 26, eof: true, hit: false }, 26);
    s.feed(Some(14), ReadOne::Line { next: 20, eof: false, hit: false }, 26);
    s.feed(Some(5), ReadOne::Line { next: 14, eof: false, hit: false }, 26);
    assert_eq!(s.found, Found::Searching);
    s.feed(Some(0), ReadOne::Line { next: 5, eof: false, hit: false }, 26);
    assert_eq!(s.found, Found::NotFound);
}

#[test]
fn scroll_down_moves_only_with_more_after() {
    assert_eq!(scroll_down_target(Some((5, 80)), 5, true), Some(80));
    assert_eq!(scroll_down_target(Some((5, 80)), 5, false), None);
    assert_eq!(scroll_down_target(Some((3, 80)), 5, true), None);
    assert_eq!(scroll_down_target(None, 5, true), None);
}

#[test]
fn colors_by_name_and_hex() {
    assert_eq!(parse_color("red"), Some(ThemeColor::Named(ColorName::Red)));
    assert_eq!(parse_color("  LightBlue "), Some(ThemeColor::Named(ColorName::LightBlue)));
    assert_eq!(parse_color("grey"), Some(ThemeColor::Named(ColorName::Gray)));
    assert_eq!(parse_color("DarkGrey"), Some(ThemeColor::Named(ColorName::DarkGray)));
    assert_eq!(parse_color("#ff8000"), Some(ThemeColor::Rgb(255, 128, 0)));
    assert_eq!(parse_color("#0A0b0C"), Some(ThemeColor::Rgb(10, 11, 12)));
    assert_eq!(parse_color("#12345"), None);
    assert_eq!(parse_color("#12345g"), None);
    assert_eq!(parse_color("purple"), None);
    assert_eq!(parse_color(""), None);
}

#[test]
fn first_row_follows_the_cursor() {
    // cursor inside the window: the offset stays
    assert_eq!(first_row(5, 100, 10, 20), 5);
    // cursor above: the window starts at it
    assert_eq!(first_row(5, 100, 2, 20), 2);
    // cursor below: just enough to show it on the last row
    assert_eq!(first_row(5, 100, 30, 20), 11);
    // an offset past the listing is pulled back
    assert_eq!(first_row(50, 10, 9, 20), 9);
    assert_eq!(first_row(3, 0, 0, 20), 0);
}

fn file(name: &str, is_dir: bool, is_symlink: bool, perms: &str, size: u64) -> FileEntry {
    FileEntry {
        name: name.to_string(),
        path: format!("/x/{name}"),
        is_dir,
        is_symlink,
        is_hidden: name.starts_with('.'),
        size,
        modified: None,
        permissions: perms.to_string(),
    }
}

#[test]
fn row_looks_and_cells() {
    let exe = file("run", false, false, "-rwxr-xr-x", 10);
    let dir = file("src", true, false, "drwxr-xr-x", 4096);
    let link = file("ln", false, true, "lrwxrwxrwx", 3);
    let plain = file("a.txt", false, false, "-rw-r--r--", 2048);
    assert_eq!(row_look(true, true, &plain), RowLook::CursorSelected);
    assert_eq!(row_look(true, false, &plain), RowLook::Cursor);
    assert_eq!(row_look(false, true, &plain), RowLook::Selected);
    assert_eq!(row_look(false, false, &dir), RowLook::Dir);
    assert_eq!(row_look(false, false, &link), RowLook::Symlink);
    assert_eq!(row_look(false, false, &exe), RowLook::Executable);
    assert_eq!(row_look(false, false, &plain), RowLook::Plain);
    assert_eq!(row_cells(&dir), ("src/".to_string(), "<DIR>".to_string()));
    assert_eq!(row_cells(&plain), ("a.txt".to_string(), "2.0 KB".to_string()));
}

#[test]
fn mode_badge_colors() {
    assert_eq!(mode_color(Mode::Normal), ColorName::Green);
    assert_eq!(mode_color(Mode::Command), ColorName::Red);
    assert_eq!(mode_color(Mode::Finder), ColorName::LightBlue);
}

#[test]
fn image_notes_say_why_nothing_is_drawn() {
    assert_eq!(
        image_note(false, 10, 100),
        Some("image preview off ([preview] images)".to_string())
    );
    assert_eq!(
        image_note(true, 2048, 1024),
        Some("not decoded: 2.0 KB exceeds [preview] image_max_bytes (1.0 KB)".to_string())
    );
    assert_eq!(image_note(true, 1024, 1024), None);
}

#[test]
fn probe_report_notes() {
    assert_eq!(
        report_notes(Protocol::Halfblocks, &[Capability::Kitty], false),
        vec![
            "  note: the terminal reported Kitty but no cell size; set [preview] image_font_size = [width_px, height_px] to use it"
                .to_string()
        ]
    );
    assert!(report_notes(Protocol::Halfblocks, &[Capability::Other], false).is_empty());
    assert_eq!(
        report_notes(Protocol::Iterm2, &[], true),
        vec!["  note: iTerm2 inside zellij shows nothing; use kitty or sixel".to_string()]
    );
    assert!(report_notes(Protocol::Iterm2, &[], false).is_empty());
}

fn pieces(ps: &[(&str, u32, u32)]) -> Vec<(String, u32, u32)> {
    ps.iter().map(|(t, a, b)| (t.to_string(), *a, *b)).collect()
}

fn spans(v: &[(&str, u32)]) -> Vec<(String, u32)> {
    v.iter().map(|(t, k)| (t.to_string(), *k)).collect()
}

#[test]
fn highlight_cuts_spans_at_match_edges() {
    let line = pieces(&[("fn ", 0, 1), ("main", 2, 3)]);
    assert_eq!(highlight_pieces(&line, &[(1, 5)]), spans(&[("f", 0), ("n ", 1), ("ma", 3), ("in", 2)]));
    // without a match the pieces stay as they are
    assert_eq!(highlight_pieces(&line, &[]), spans(&[("fn ", 0), ("main", 2)]));
}

#[test]
fn highlight_merges_equal_styles_and_counts_bytes() {
    let same = pieces(&[("ab", 0, 1), ("cd", 0, 1)]);
    assert_eq!(highlight_pieces(&same, &[(10, 11)]), spans(&[("abcd", 0)]));
    // 'é' takes two bytes, so the match at byte 2 is the 'x'
    let wide = pieces(&[("é", 0, 1), ("x", 0, 1)]);
    assert_eq!(highlight_pieces(&wide, &[(2, 3)]), spans(&[("é", 0), ("x", 1)]));
    let empty = pieces(&[("", 0, 1)]);
    assert!(highlight_pieces(&empty, &[(0, 1)]).is_empty());
    assert_eq!(highlight_pieces(&empty, &[]), spans(&[("", 0)]));
}

#[test]
fn image_view_requests_once_and_drops_stale_results() {
    let view = ImageView { generation: 0, requested: None, encoded: None, note: None };
    // no picker: nothing is requested
    let (view, action) = image_view_step(view, ImageEvent::Frame { target: (40, 20), picker: false });
    assert!(matches!(action, ImageAction::Nothing));
    let (view, action) = image_view_step(view, ImageEvent::Frame { target: (40, 20), picker: true });
    assert!(matches!(action, ImageAction::Request { generation: 1, target: (40, 20) }));
    // pending: no second request
    let (view, action) = image_view_step(view, ImageEvent::Frame { target: (50, 20), picker: true });
    assert!(matches!(action, ImageAction::Nothing));
    // an older generation is dropped
    let (view, action) =
        image_view_step(view, ImageEvent::Finished { generation: 0, outcome: Ok((1, 1)) });
    assert!(matches!(action, ImageAction::Nothing));
    assert_eq!(view.requested, Some((1, (40, 20))));
    let (view, action) =
        image_view_step(view, ImageEvent::Finished { generation: 1, outcome: Ok((40, 20)) });
    assert!(matches!(action, ImageAction::Show));
    assert_eq!((view.requested, view.encoded), (None, Some((40, 20))));
    // same size: nothing; a resize asks again under the next generation
    let (view, action) = image_view_step(view, ImageEvent::Frame { target: (40, 20), picker: true });
    assert!(matches!(action, ImageAction::Nothing));
    let (view, action) = image_view_step(view, ImageEvent::Frame { target: (60, 30), picker: true });
    assert!(matches!(action, ImageAction::Request { generation: 2, target: (60, 30) }));
    // a failure becomes the note, and a note stops further requests
    let (view, _) = image_view_step(
        view,
        ImageEvent::Finished { generation: 2, outcome: Err("bad".to_string()) },
    );
    assert_eq!(view.note.as_deref(), Some("bad"));
    let (_, action) = image_view_step(view, ImageEvent::Frame { target: (70, 30), picker: true });
    assert!(matches!(action, ImageAction::Nothing));
    // an empty area asks for nothing
    let fresh = ImageView { generation: 0, requested: None, encoded: None, note: None };
    let (_, action) = image_view_step(fresh, ImageEvent::Frame { target: (0, 10), picker: true });
    assert!(matches!(action, ImageAction::Nothing));
}

#[test]
fn decode_image_reads_size_and_refuses_garbage() {
    // a 1x1 PNG
    let png: [u8; 67] = [
        0x89, 0x50, 0x4E, 0x47, 0x0D, 0x0A, 0x1A, 0x0A, 0x00, 0x00, 0x00, 0x0D, 0x49, 0x48, 0x44,
        0x52, 0x00, 0x00, 0x00, 0x01, 0x00, 0x00, 0x00, 0x01, 0x08, 0x06, 0x00, 0x00, 0x00, 0x1F,
        0x15, 0xC4, 0x89, 0x00, 0x00, 0x00, 0x0A, 0x49, 0x44, 0x41, 0x54, 0x78, 0x9C, 0x63, 0x00,
        0x01, 0x00, 0x00, 0x05, 0x00, 0x01, 0x0D, 0x0A, 0x2D, 0xB4, 0x00, 0x00, 0x00, 0x00, 0x49,
        0x45, 0x4E, 0x44, 0xAE, 0x42, 0x60, 0x82,
    ];
    match decode_image(&png) {
        Ok((_, w, h)) => assert_eq!((w, h), (1, 1)),
        Err(e) => panic!("decode failed: {e}"),
    }
    assert!(decode_image(b"not an image").is_err());
}

/// A `w` by `h` gradient PNG, as bytes.
fn png_bytes(w: u32, h: u32) -> Vec<u8> {
    let img = image::RgbImage::from_fn(w, h, |x, y| image::Rgb([(x * 6) as u8, (y * 10) as u8, 128]));
    let mut out = std::io::Cursor::new(Vec::new());
    img.write_to(&mut out, image::ImageFormat::Png).unwrap();
    out.into_inner()
}

#[test]
fn test_probe_gates_on_extension() {
    // Real PNG bytes under an unlisted extension are left to the
    // text/binary path: the probe is only paid for likely images.
    assert!(!has_image_extension("/tmp/probe_ext/grad.dat"));
    assert!(has_image_extension("/nonexistent/x.png"));
    assert!(has_image_extension("/a/B.JPEG"));
    assert!(!has_image_extension("/a/png"));
}

#[test]
fn test_decode_dimensions() {
    let bytes = png_bytes(40, 24);
    match decode_image(&bytes) {
        Ok((img, w, h)) => {
            assert_eq!((w, h), (40, 24));
            assert_eq!((img.width(), img.height()), (40, 24));
        }
        Err(e) => panic!("decode failed: {e}"),
    }
    // no bytes: nothing to decode
    assert!(decode_image(&[]).is_err());
}

#[test]
fn up_walk_steps_back_and_stops_at_the_start() {
    // lines at 0, 4, 9; the top is the line at 9 (line 2)
    let mut w = UpWalk::new(9, Some(2), 5);
    assert!(!w.done);
    w.feed(Some(4));
    assert_eq!((w.off, w.line, w.left, w.done), (4, Some(1), 4, false));
    w.feed(Some(0));
    assert_eq!((w.off, w.line, w.done), (0, Some(0), true));
    // already at the start
    let w = UpWalk::new(0, None, 3);
    assert_eq!((w.line, w.done), (Some(0), true));
    // a failed read keeps the place
    let mut w = UpWalk::new(9, None, 1);
    w.feed(None);
    assert_eq!((w.off, w.line, w.done), (9, None, true));
    // the line number is unknown away from the start
    let mut w = UpWalk::new(9, None, 1);
    w.feed(Some(4));
    assert_eq!((w.off, w.line, w.done), (4, None, true));
}

#[test]
fn bottom_walk_shows_the_last_lines() {
    let mut w = BottomWalk::new(20, 2);
    w.feed(Some(14));
    w.feed(Some(9));
    assert_eq!((w.off, w.done, w.top_line()), (9, true, None));
    let mut w = BottomWalk::new(20, 0);
    assert_eq!(w.left, 1);
    w.feed(Some(0));
    assert_eq!((w.off, w.done, w.top_line()), (0, true, Some(0)));
    assert!(BottomWalk::new(0, 5).done);
    assert_eq!(line_after(Some(3), 4), Some(7));
    assert_eq!(line_after(None, 4), None);
}

#[test]
fn windowed_status_and_directory_messages() {
    assert_eq!(windowed_status(Some(0), LineCount::Total(120), 0), "line 1/120 \u{b7} 0%");
    assert_eq!(windowed_status(Some(41), LineCount::Counting(900), 35), "line 42 (~900\u{2026}) \u{b7} 35%");
    assert_eq!(windowed_status(None, LineCount::Unknown, 100), " \u{b7} 100%");
    assert_eq!(dir_message(None), "[empty]");
    assert_eq!(dir_message(Some("Permission denied (os error 13)")), "Cannot read directory: Permission denied (os error 13)");
}

#[test]
fn overlays_are_centered() {
    assert_eq!(centered((0, 0, 80, 24), 50, 8), (15, 8, 50, 8));
    assert_eq!(centered((2, 1, 10, 5), 50, 8), (2, 1, 10, 5));
    assert_eq!(centered((0, 0, 81, 25), 40, 10), (20, 7, 40, 10));
    assert_eq!(overlay_size(80, 24, 22), (60, 22));
    assert_eq!(overlay_size(40, 10, 20), (40, 8));
    assert_eq!(overlay_size(30, 1, 20), (30, 0));
    assert_eq!(overlay_size(u16::MAX, 100, 20), (16383, 20));
}
