//! What the panes and the status line show: which rows of a listing are
//! drawn, how each row looks, and the texts of the status line.
use vstd::prelude::*;

use super::theme::ColorName;
use crate::mode::{InputKind, Mode};
use crate::pane::FileEntry;
use crate::platform::{display_path, display_path_text, file_size_text, format_file_size};
use crate::session::App;
use crate::text::{chars_of, concat, decimal, decimal_string};

verus! {

/// The first row drawn of a listing of `len` rows, `visible` of them on
/// screen: the remembered scroll offset (within the listing), moved just
/// enough to show the cursor.
pub open spec fn first_row_of(scroll_offset: nat, len: nat, cursor: nat, visible: nat) -> nat {
    let last = if len > 0 {
        (len - 1) as nat
    } else {
        0
    };
    let o = if scroll_offset < last {
        scroll_offset
    } else {
        last
    };
    if cursor < o {
        cursor
    } else if visible > 0 && cursor >= o + visible {
        (cursor + 1 - visible) as nat
    } else {
        o
    }
}

/// The first row drawn (see `first_row_of`).
pub fn first_row(scroll_offset: usize, len: usize, cursor: usize, visible: usize) -> (r: usize)
    ensures
        r == first_row_of(scroll_offset as nat, len as nat, cursor as nat, visible as nat),
{
    let last = len.saturating_sub(1);
    let o = if scroll_offset < last {
        scroll_offset
    } else {
        last
    };
    if cursor < o {
        cursor
    } else if visible > 0 && cursor - o >= visible {
        cursor - visible + 1
    } else {
        o
    }
}

/// How a row of a listing is drawn.
#[derive(Debug, Clone, Copy, PartialEq, Eq, Structural)]
pub enum RowLook {
    /// Under the cursor of the active pane, and selected.
    CursorSelected,
    /// Under the cursor of the active pane.
    Cursor,
    Selected,
    Dir,
    Symlink,
    /// A file with an execute bit.
    Executable,
    Plain,
}

/// How the row of `e` is drawn.
pub open spec fn look_of(cursor_here: bool, selected: bool, e: FileEntry) -> RowLook {
    if cursor_here && selected {
        RowLook::CursorSelected
    } else if cursor_here {
        RowLook::Cursor
    } else if selected {
        RowLook::Selected
    } else if e.is_dir {
        RowLook::Dir
    } else if e.is_symlink {
        RowLook::Symlink
    } else if e.permissions@.contains('x') {
        RowLook::Executable
    } else {
        RowLook::Plain
    }
}

/// How the row of `e` is drawn: `cursor_here` when it is under the cursor
/// of the active pane.
pub fn row_look(cursor_here: bool, selected: bool, e: &FileEntry) -> (r: RowLook)
    ensures
        r == look_of(cursor_here, selected, *e),
{
    if cursor_here && selected {
        RowLook::CursorSelected
    } else if cursor_here {
        RowLook::Cursor
    } else if selected {
        RowLook::Selected
    } else if e.is_dir {
        RowLook::Dir
    } else if e.is_symlink {
        RowLook::Symlink
    } else {
        let ps = chars_of(e.permissions.as_str());
        let mut i: usize = 0;
        while i < ps.len()
            invariant
                !cursor_here,
                !selected,
                !e.is_dir,
                !e.is_symlink,
                ps@ == e.permissions@,
                i <= ps@.len(),
                forall|j: int| 0 <= j < i ==> ps@[j] != 'x',
            decreases ps@.len() - i,
        {
            if ps[i] == 'x' {
                proof {
                    assert(e.permissions@[i as int] == 'x');
                    assert(e.permissions@.contains('x'));
                }
                return RowLook::Executable;
            }
            i = i + 1;
        }
        RowLook::Plain
    }
}

/// The name and size columns of a row: a directory's name with a trailing
/// `/` and `<DIR>` for its size.
pub fn row_cells(e: &FileEntry) -> (r: (String, String))
    ensures
        r.0@ == if e.is_dir {
            e.name@ + "/"@
        } else {
            e.name@
        },
        r.1@ == if e.is_dir {
            "<DIR>"@
        } else {
            file_size_text(e.size as nat)
        },
{
    if e.is_dir {
        (concat(e.name.as_str(), "/"), String::from_str("<DIR>"))
    } else {
        (e.name.clone(), format_file_size(e.size))
    }
}

/// The color of a mode's badge.
pub open spec fn mode_color_of(m: Mode) -> ColorName {
    match m {
        Mode::Normal => ColorName::Green,
        Mode::Select => ColorName::Yellow,
        Mode::Space => ColorName::Blue,
        Mode::Goto => ColorName::Magenta,
        Mode::Command => ColorName::Red,
        Mode::Input(_) => ColorName::Cyan,
        Mode::Finder => ColorName::LightBlue,
    }
}

pub fn mode_color(m: Mode) -> (r: ColorName)
    ensures
        r == mode_color_of(m),
{
    match m {
        Mode::Normal => ColorName::Green,
        Mode::Select => ColorName::Yellow,
        Mode::Space => ColorName::Blue,
        Mode::Goto => ColorName::Magenta,
        Mode::Command => ColorName::Red,
        Mode::Input(_) => ColorName::Cyan,
        Mode::Finder => ColorName::LightBlue,
    }
}

/// The prompt in front of typed text.
pub open spec fn prompt_of(kind: InputKind) -> Seq<char> {
    match kind {
        InputKind::Rename => "Rename: "@,
        InputKind::Mkdir => "Mkdir: "@,
        InputKind::Search => "/"@,
        InputKind::GlobSelect => "Glob: "@,
        InputKind::CommandLine => ":"@,
    }
}

fn prompt(kind: InputKind) -> (r: &'static str)
    ensures
        r@ == prompt_of(kind),
{
    match kind {
        InputKind::Rename => "Rename: ",
        InputKind::Mkdir => "Mkdir: ",
        InputKind::Search => "/",
        InputKind::GlobSelect => "Glob: ",
        InputKind::CommandLine => ":",
    }
}

/// The texts of the status line.
pub struct StatusLine {
    /// The mode's badge, e.g. ` NOR `.
    pub mode: String,
    /// The active pane's directory.
    pub path: String,
    /// How many entries are selected, when any are.
    pub selected: Option<String>,
    /// The preview has the focus.
    pub preview: bool,
    /// How many entries the active pane lists.
    pub count: String,
    /// The text being typed, after its prompt.
    pub input: Option<String>,
}

/// The texts of the status line for `app`, `home` being the user's home
/// directory where it is known.
pub fn status_line(app: &App, home: Option<&str>) -> (r: StatusLine)
    ensures
        r.mode@ == " "@ + app.mode.spec_label() + " "@,
        r.path@ == "  "@ + display_path_text(
            app.active().cwd@,
            match home {
                Some(h) => Some(h@),
                None => None,
            },
        ) + "  "@,
        r.selected is Some <==> crate::pane::count_true(app.active().selected@) > 0,
        r.selected matches Some(s) ==> s@ == "\u{2502}  "@ + decimal(
            crate::pane::count_true(app.active().selected@),
        ) + " selected  "@,
        r.preview == app.preview_focused,
        r.count@ == "\u{2502}  "@ + decimal(app.active().entries@.len()) + " items  "@,
        match app.mode {
            Mode::Command => r.input matches Some(t) && t@ == "  :"@ + app.input_buffer@,
            Mode::Input(kind) => r.input matches Some(t) && t@ == "  "@ + prompt_of(kind)
                + app.input_buffer@,
            _ => r.input is None,
        },
{
    let pane = app.active_ref();
    let m1 = concat(" ", app.mode.label());
    let mode = concat(m1.as_str(), " ");
    let p0 = display_path(pane.cwd.as_str(), home);
    let p1 = concat("  ", p0.as_str());
    let path = concat(p1.as_str(), "  ");
    let n = pane.selection_count();
    let selected = if n > 0 {
        let d = decimal_string(n as u64);
        let s1 = concat("\u{2502}  ", d.as_str());
        Some(concat(s1.as_str(), " selected  "))
    } else {
        None
    };
    let c = decimal_string(pane.entries.len() as u64);
    let c1 = concat("\u{2502}  ", c.as_str());
    let count = concat(c1.as_str(), " items  ");
    let input = match app.mode {
        Mode::Command => Some(concat("  :", app.input_buffer.as_str())),
        Mode::Input(kind) => {
            let i1 = concat("  ", prompt(kind));
            Some(concat(i1.as_str(), app.input_buffer.as_str()))
        },
        _ => None,
    };
    StatusLine { mode, path, selected, preview: app.preview_focused, count, input }
}

/// A box of `width` by `height` cells (each cut to the area) centered in
/// the area `(x, y, width, height)`, halves rounded toward the top left.
pub open spec fn centered_of(area: (u16, u16, u16, u16), width: u16, height: u16) -> (u16, u16, u16, u16) {
    let w = if width < area.2 {
        width
    } else {
        area.2
    };
    let h = if height < area.3 {
        height
    } else {
        area.3
    };
    ((area.0 + (area.2 - w) / 2) as u16, (area.1 + (area.3 - h) / 2) as u16, w, h)
}

/// A box centered in an area (see `centered_of`); the area lies within the
/// cell grid.
pub fn centered(area: (u16, u16, u16, u16), width: u16, height: u16) -> (r: (u16, u16, u16, u16))
    requires
        area.0 + area.2 <= u16::MAX,
        area.1 + area.3 <= u16::MAX,
    ensures
        r == centered_of(area, width, height),
{
    let w = if width < area.2 {
        width
    } else {
        area.2
    };
    let h = if height < area.3 {
        height
    } else {
        area.3
    };
    (area.0 + (area.2 - w) / 2, area.1 + (area.3 - h) / 2, w, h)
}

/// The size of an overlay list in an area `area_width` by `area_height`:
/// three quarters of the width (at least 40 cells, at most the width) and
/// `rows` rows, leaving two rows free.
pub open spec fn overlay_size_of(area_width: u16, area_height: u16, rows: u16) -> (u16, u16) {
    let three = if area_width * 3 > u16::MAX {
        u16::MAX as int
    } else {
        area_width * 3
    };
    let quarter = three / 4;
    let wide = if quarter > 40 {
        quarter
    } else {
        40
    };
    let w = if wide < area_width {
        wide
    } else {
        area_width as int
    };
    let free = if area_height >= 2 {
        area_height - 2
    } else {
        0
    };
    (w as u16, (if rows < free {
        rows as int
    } else {
        free
    }) as u16)
}

/// The size of an overlay list (see `overlay_size_of`).
pub fn overlay_size(area_width: u16, area_height: u16, rows: u16) -> (r: (u16, u16))
    ensures
        r == overlay_size_of(area_width, area_height, rows),
{
    let three: u32 = area_width as u32 * 3;
    let quarter: u16 = if three > 65535 {
        (65535u32 / 4) as u16
    } else {
        (three / 4) as u16
    };
    let wide = if quarter > 40 {
        quarter
    } else {
        40
    };
    let w = if wide < area_width {
        wide
    } else {
        area_width
    };
    let free = area_height.saturating_sub(2);
    (w, if rows < free {
        rows
    } else {
        free
    })
}

} // verus!
