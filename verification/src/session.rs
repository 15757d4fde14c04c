//! The application between keystrokes: both panes, the mode, the text being
//! typed, the dialog, the finder's results and the preview's focus. A key or
//! an action changes this state and names the outside work that has to
//! follow (reading a directory, copying files, opening an editor), which the
//! caller performs before it hands the next key in.
use vstd::prelude::*;

use crate::finder::FinderMatch;
use crate::mode::command::{self, command_meaning, execute_command};
use crate::mode::normal::NormalState;
use crate::mode::{Action, InputKind, KeyCode, KeyEvent, Mode};
use crate::error::NcError;
use crate::mode::{goto, input, normal, select, space};
use crate::pane::navigation::same_but_cursor;
use crate::pane::selection::{glob, same_but_selection, toggled_at};
use crate::pane::{FileEntry, PaneId, PaneState, SortBy, emptied, relisted, selected_paths_of};
use crate::platform::{file_size_text, format_file_size};
use crate::text::{
    chars_of, concat, decimal, decimal_string, path_is_absolute, path_join, spec_path_is_absolute,
    spec_path_join, string_of, string_pop, string_push, sub_chars, trim_chars, trim_seq,
};
use crate::ui::dialog::{ConfirmAction, Dialog};

verus! {

/// A scroll of the focused preview.
pub enum PreviewStep {
    Up(usize),
    Down(usize),
    Top,
    Bottom,
}

/// A change of the active pane that needs nothing from outside.
pub enum PaneStep {
    Up,
    Down,
    Top,
    Bottom,
    PageUp(usize),
    PageDown(usize),
    HalfPageUp(usize),
    HalfPageDown(usize),
    ToggleSelect,
    SelectAll,
    DeselectAll,
    Invert,
    ExtendDown,
    ExtendUp,
    SelectGlob(String),
}

/// A listing setting of the active pane; the pane is then read again.
pub enum Setting {
    ToggleHidden,
    Sort(SortBy),
    Filter(Option<String>),
}

/// Where the active pane goes.
pub enum GotoTarget {
    /// The user's home directory.
    Home,
    Path(String),
}

/// The outside work that follows a key or an action.
pub enum Effect {
    Nothing,
    /// Scroll the focused preview.
    Preview(PreviewStep),
    /// Apply the step to the active pane (`App::apply_pane_step`).
    Pane(PaneStep),
    /// Enter the entry under the active pane's cursor: a directory is read
    /// and entered, a file is opened in the editor.
    EnterCurrent,
    /// Read the active pane's parent directory and go there.
    Parent,
    /// Read the target and move the active pane there.
    Goto(GotoTarget),
    /// Apply the setting to the active pane and read its directory again.
    Relist(Setting),
    /// Copy the active pane's selection into the other pane's directory.
    CopyToOther,
    /// Move the active pane's selection into the other pane's directory.
    MoveToOther,
    Rename { path: String, new_name: String },
    Mkdir { dir: String, name: String },
    /// Open the file in the editor, then read the active pane again.
    Edit(String),
    /// Open the file in the full-screen viewer.
    View(String),
    /// Show the facts of the entry under the cursor (`App::show_file_info`).
    FileInfo,
    /// Score the finder's paths against the typed query again.
    FinderSearch,
    /// Open a finder result: a directory is entered, a file's directory is
    /// entered with the cursor on it.
    FinderOpen(String),
    /// The preview was switched on: load it.
    PreviewOn,
    /// The preview was switched off: drop it.
    PreviewOff,
    /// The user accepted a confirmation: carry the action out.
    Confirmed(ConfirmAction),
}

/// What a key or an action leads to: the outside work, and whether the
/// preview follows the cursor afterwards.
pub struct Outcome {
    pub effect: Effect,
    pub update_preview: bool,
}

/// Application state. Owns both panes and current mode.
pub struct App {
    pub left_pane: PaneState,
    pub right_pane: PaneState,
    pub active_pane: PaneId,
    pub mode: Mode,
    pub input_buffer: String,
    pub input_kind: Option<InputKind>,
    pub show_help: bool,
    pub dialog: Option<Dialog>,
    pub should_quit: bool,
    pub normal_state: NormalState,
    pub finder_results: Vec<FinderMatch>,
    pub finder_cursor: usize,
    pub preview_active: bool,
    pub preview_focused: bool,
    pub page_size: usize,
}

/// The entry under a pane's cursor.
pub open spec fn entry_at(p: PaneState) -> Option<FileEntry> {
    if p.cursor < p.entries@.len() {
        Some(p.entries@[p.cursor as int])
    } else {
        None
    }
}

/// The scroll that an action asks of a focused preview.
pub open spec fn preview_step(a: Action, page: usize) -> Option<PreviewStep> {
    match a {
        Action::CursorUp => Some(PreviewStep::Up(1)),
        Action::CursorDown => Some(PreviewStep::Down(1)),
        Action::HalfPageUp => Some(PreviewStep::Up(page / 2)),
        Action::HalfPageDown => Some(PreviewStep::Down(page / 2)),
        Action::PageUp => Some(PreviewStep::Up(page)),
        Action::PageDown => Some(PreviewStep::Down(page)),
        Action::CursorTop => Some(PreviewStep::Top),
        Action::CursorBottom => Some(PreviewStep::Bottom),
        _ => None,
    }
}

/// The actions that reach the panes while the preview has the focus.
pub open spec fn passes_focus(a: Action) -> bool {
    a is SwitchPane || a is FocusLeftPane || a is FocusRightPane || a is Quit || a is TogglePreview
}

/// The pane step that an action asks for.
pub open spec fn pane_step(a: Action, page: usize) -> Option<PaneStep> {
    match a {
        Action::CursorUp => Some(PaneStep::Up),
        Action::CursorDown => Some(PaneStep::Down),
        Action::CursorTop => Some(PaneStep::Top),
        Action::CursorBottom => Some(PaneStep::Bottom),
        Action::PageUp => Some(PaneStep::PageUp(page)),
        Action::PageDown => Some(PaneStep::PageDown(page)),
        Action::HalfPageUp => Some(PaneStep::HalfPageUp(page)),
        Action::HalfPageDown => Some(PaneStep::HalfPageDown(page)),
        Action::ToggleSelect => Some(PaneStep::ToggleSelect),
        Action::SelectAll => Some(PaneStep::SelectAll),
        Action::DeselectAll => Some(PaneStep::DeselectAll),
        Action::InvertSelection => Some(PaneStep::Invert),
        Action::SelectExtendDown => Some(PaneStep::ExtendDown),
        Action::SelectExtendUp => Some(PaneStep::ExtendUp),
        _ => None,
    }
}

/// The one-key menus (space and goto) close after the action they produced,
/// unless it opened a text input or the finder, or did nothing.
pub open spec fn settled(prev: Mode, a: Action, m: Mode) -> Mode {
    if (prev is Space || prev is Goto) && !(a is NoOp || a is EnterInput || a is EnterFinder) {
        Mode::Normal
    } else {
        m
    }
}

/// The question asked before deleting `paths`.
pub open spec fn delete_message(paths: Seq<Seq<char>>) -> Seq<char> {
    if paths.len() == 1 {
        "Delete "@ + paths[0] + "?"@
    } else {
        "Delete "@ + decimal(paths.len()) + " items?"@
    }
}

/// Where a `cd <path>` command line goes from `cwd`: the trimmed path,
/// joined to `cwd` when it is relative; `None` for any other line.
pub open spec fn cd_target(cwd: Seq<char>, cmd: Seq<char>) -> Option<Seq<char>> {
    if cmd.len() >= 3 && cmd.take(3) == "cd "@ {
        let p = trim_seq(cmd.skip(3));
        Some(
            if spec_path_is_absolute(p) {
                p
            } else {
                spec_path_join(cwd, p)
            },
        )
    } else {
        None
    }
}

impl App {
    /// The pane the keys act on.
    pub open spec fn active(self) -> PaneState {
        match self.active_pane {
            PaneId::Left => self.left_pane,
            PaneId::Right => self.right_pane,
        }
    }

    /// The other pane.
    pub open spec fn inactive(self) -> PaneState {
        match self.active_pane {
            PaneId::Left => self.right_pane,
            PaneId::Right => self.left_pane,
        }
    }

    /// What an action other than `InputConfirm` does, from state `s` to state
    /// `n` with outcome `r`.
    pub open spec fn plain_step(s: App, a: Action, n: App, r: Outcome) -> bool {
        if s.preview_active && s.preview_focused && !passes_focus(a) {
            // the focused preview takes the navigation keys and swallows the rest
            &&& !r.update_preview
            &&& match preview_step(a, s.page_size) {
                Some(st) => n == s && r.effect == Effect::Preview(st),
                None => r.effect is Nothing && if a is ExitToNormal {
                    n == App {
                        preview_focused: false,
                        mode: Mode::Normal,
                        normal_state: NormalState { pending_g: false },
                        ..s
                    }
                } else {
                    n == s
                },
            }
        } else {
            &&& r.update_preview
            &&& App::main_step(s, a, n, r.effect)
        }
    }

    /// The effect of an action on the panes' side, with the menus settled.
    pub open spec fn main_step(s: App, a: Action, n: App, e: Effect) -> bool {
        let keep = settled(s.mode, a, s.mode);
        let cur = entry_at(s.active());
        match pane_step(a, s.page_size) {
            Some(st) => e == Effect::Pane(st) && n == App { mode: keep, ..s },
            None => match a {
                Action::Quit => e is Nothing && n == App { should_quit: true, mode: keep, ..s },
                Action::EnterDir => e is EnterCurrent && n == App { mode: keep, ..s },
                Action::ParentDir => e is Parent && n == App { mode: keep, ..s },
                Action::SwitchPane | Action::FocusLeftPane | Action::FocusRightPane => {
                    &&& e is Nothing
                    &&& if s.preview_active {
                        n == App { preview_focused: !s.preview_focused, mode: keep, ..s }
                    } else {
                        n == App {
                            active_pane: match a {
                                Action::FocusLeftPane => PaneId::Left,
                                Action::FocusRightPane => PaneId::Right,
                                _ => match s.active_pane {
                                    PaneId::Left => PaneId::Right,
                                    PaneId::Right => PaneId::Left,
                                },
                            },
                            mode: keep,
                            ..s
                        }
                    }
                },
                Action::EnterSelect => e is Nothing && n == App {
                    mode: settled(s.mode, a, Mode::Select),
                    ..s
                },
                Action::EnterSpace => e is Nothing && n == App {
                    mode: settled(s.mode, a, Mode::Space),
                    ..s
                },
                Action::EnterGoto => e is Nothing && n == App {
                    mode: settled(s.mode, a, Mode::Goto),
                    ..s
                },
                Action::EnterCommand => {
                    &&& e is Nothing
                    &&& n == App {
                        mode: settled(s.mode, a, Mode::Command),
                        input_buffer: n.input_buffer,
                        ..s
                    }
                    &&& n.input_buffer@ == Seq::<char>::empty()
                },
                Action::EnterInput(kind) => {
                    &&& e is Nothing
                    &&& n == App {
                        mode: Mode::Input(kind),
                        input_kind: Some(kind),
                        input_buffer: n.input_buffer,
                        ..s
                    }
                    &&& n.input_buffer@ == match cur {
                        Some(entry) => if kind == InputKind::Rename {
                            entry.name@
                        } else {
                            Seq::<char>::empty()
                        },
                        None => Seq::<char>::empty(),
                    }
                },
                Action::ExitToNormal => e is Nothing && n == App {
                    mode: Mode::Normal,
                    normal_state: NormalState { pending_g: false },
                    ..s
                },
                Action::CopyToOther => e is CopyToOther && n == App { mode: keep, ..s },
                Action::MoveToOther => e is MoveToOther && n == App { mode: keep, ..s },
                Action::DeleteSelected => {
                    let paths = selected_paths_of(s.active());
                    &&& e is Nothing
                    &&& if paths.len() == 0 {
                        n == App { mode: keep, ..s }
                    } else {
                        &&& n == App { mode: keep, dialog: n.dialog, ..s }
                        &&& n.dialog matches Some(Dialog::Confirm { title, message, action })
                        &&& title@ == "Confirm Delete"@
                        &&& message@ == delete_message(paths)
                        &&& action matches ConfirmAction::Delete { paths: ps }
                        &&& ps@.map_values(|p: String| p@) == paths
                    }
                },
                Action::Rename(name) => {
                    &&& n == App { mode: keep, ..s }
                    &&& if name@.len() > 0 && cur is Some {
                        e == Effect::Rename { path: cur->0.path, new_name: name }
                    } else {
                        e is Nothing
                    }
                },
                Action::Mkdir(name) => {
                    &&& n == App { mode: keep, ..s }
                    &&& if name@.len() > 0 {
                        e == Effect::Mkdir { dir: s.active().cwd, name }
                    } else {
                        e is Nothing
                    }
                },
                Action::EditFile | Action::OpenFile => {
                    &&& n == App { mode: keep, ..s }
                    &&& match cur {
                        Some(entry) => if entry.is_dir {
                            e is Nothing
                        } else {
                            e == Effect::Edit(entry.path)
                        },
                        None => e is Nothing,
                    }
                },
                Action::ViewFile => {
                    &&& n == App { mode: keep, ..s }
                    &&& match cur {
                        Some(entry) => if entry.is_dir {
                            e is Nothing
                        } else {
                            e == Effect::View(entry.path)
                        },
                        None => e is Nothing,
                    }
                },
                Action::GotoHome => e == Effect::Goto(GotoTarget::Home) && n == App {
                    mode: keep,
                    ..s
                },
                Action::GotoRoot => {
                    &&& n == App { mode: keep, ..s }
                    &&& e matches Effect::Goto(GotoTarget::Path(p))
                    &&& p@ == "/"@
                },
                Action::GotoOtherPane => e == Effect::Goto(GotoTarget::Path(s.inactive().cwd))
                    && n == App { mode: keep, ..s },
                Action::GotoPrevious => {
                    &&& n == App { mode: keep, ..s }
                    &&& match s.active().prev_dir {
                        Some(p) => e == Effect::Goto(GotoTarget::Path(p)),
                        None => e is Nothing,
                    }
                },
                Action::ExecuteCommand(cmd) => {
                    &&& n == App { mode: keep, ..s }
                    &&& match cd_target(s.active().cwd@, cmd@) {
                        Some(t) => e matches Effect::Goto(GotoTarget::Path(p)) && p@ == t,
                        None => e is Nothing,
                    }
                },
                Action::ToggleHidden => e == Effect::Relist(Setting::ToggleHidden) && n == App {
                    mode: keep,
                    ..s
                },
                Action::SetSort(by) => e == Effect::Relist(Setting::Sort(by)) && n == App {
                    mode: keep,
                    ..s
                },
                Action::SetFilter(f) => e == Effect::Relist(Setting::Filter(f)) && n == App {
                    mode: keep,
                    ..s
                },
                Action::ShowHelp => e is Nothing && n == App {
                    show_help: !s.show_help,
                    mode: keep,
                    ..s
                },
                Action::ShowFileInfo => n == App { mode: keep, ..s } && if cur is Some {
                    e is FileInfo
                } else {
                    e is Nothing
                },
                Action::InputChar(c) => {
                    &&& e is Nothing
                    &&& n == App { input_buffer: n.input_buffer, mode: keep, ..s }
                    &&& n.input_buffer@ == s.input_buffer@.push(c)
                },
                Action::InputBackspace => {
                    &&& e is Nothing
                    &&& n == App { input_buffer: n.input_buffer, mode: keep, ..s }
                    &&& n.input_buffer@ == if s.input_buffer@.len() > 0 {
                        s.input_buffer@.drop_last()
                    } else {
                        s.input_buffer@
                    }
                },
                Action::InputCancel => {
                    &&& e is Nothing
                    &&& n == App {
                        input_buffer: n.input_buffer,
                        input_kind: None,
                        mode: Mode::Normal,
                        ..s
                    }
                    &&& n.input_buffer@ == Seq::<char>::empty()
                },
                Action::EnterFinder => {
                    &&& e is Nothing
                    &&& n == App {
                        mode: Mode::Finder,
                        input_buffer: n.input_buffer,
                        finder_results: n.finder_results,
                        finder_cursor: 0,
                        ..s
                    }
                    &&& n.input_buffer@ == Seq::<char>::empty()
                    &&& n.finder_results@ == Seq::<FinderMatch>::empty()
                },
                Action::TogglePreview => if s.preview_active {
                    e is PreviewOff && n == App {
                        preview_active: false,
                        preview_focused: false,
                        mode: keep,
                        ..s
                    }
                } else {
                    e is PreviewOn && n == App { preview_active: true, mode: keep, ..s }
                },
                // no state of its own: nothing, redraw, bookmarks, finder actions
                _ => e is Nothing && n == App { mode: keep, ..s },
            },
        }
    }

    /// The state once a typed line is taken: the text cleared, back to
    /// normal mode.
    pub open spec fn confirmed_state(s: App, n: App) -> bool {
        &&& n == App { input_buffer: n.input_buffer, input_kind: None, mode: Mode::Normal, ..s }
        &&& n.input_buffer@ == Seq::<char>::empty()
    }

    /// What an action does, from state `s` to state `n` with outcome `r`.
    pub open spec fn step(s: App, a: Action, n: App, r: Outcome) -> bool {
        if a is InputConfirm && !(s.preview_active && s.preview_focused) {
            let buf = s.input_buffer@;
            let cur = entry_at(s.active());
            match s.input_kind {
                Some(InputKind::Rename) => App::confirmed_state(s, n) && r.update_preview && if buf.len()
                    > 0 && cur is Some {
                    r.effect matches Effect::Rename { path, new_name } && path == cur->0.path
                        && new_name@ == buf
                } else {
                    r.effect is Nothing
                },
                Some(InputKind::Mkdir) => App::confirmed_state(s, n) && r.update_preview && if buf.len()
                    > 0 {
                    r.effect matches Effect::Mkdir { dir, name } && dir == s.active().cwd
                        && name@ == buf
                } else {
                    r.effect is Nothing
                },
                Some(InputKind::Search) => App::confirmed_state(s, n) && r.update_preview && (
                r.effect matches Effect::Relist(Setting::Filter(f)) && if buf.len() == 0 {
                    f is None
                } else {
                    f matches Some(t) && t@ == buf
                }),
                Some(InputKind::GlobSelect) => App::confirmed_state(s, n) && r.update_preview && (
                r.effect matches Effect::Pane(PaneStep::SelectGlob(p)) && p@ == buf),
                // a command line: the command it names is carried out
                _ => exists|mid: App, a2: Action, r2: Outcome|
                    #![trigger App::plain_step(mid, a2, n, r2)]
                    App::confirmed_state(s, mid) && command_meaning(buf, a2) && App::plain_step(
                        mid,
                        a2,
                        n,
                        r2,
                    ) && r == Outcome { effect: r2.effect, update_preview: true },
            }
        } else {
            App::plain_step(s, a, n, r)
        }
    }

    /// `self` with `p` as its active pane.
    pub open spec fn with_active(self, p: PaneState) -> App {
        match self.active_pane {
            PaneId::Left => App { left_pane: p, ..self },
            PaneId::Right => App { right_pane: p, ..self },
        }
    }

    /// The start: both panes as given, the left one active, normal mode.
    pub fn new(left_pane: PaneState, right_pane: PaneState) -> (r: App)
        ensures
            r.left_pane == left_pane,
            r.right_pane == right_pane,
            r.active_pane == PaneId::Left,
            r.mode == Mode::Normal,
            r.input_buffer@ == Seq::<char>::empty(),
            r.input_kind is None,
            !r.show_help,
            r.dialog is None,
            !r.should_quit,
            !r.normal_state.pending_g,
            r.finder_results@ == Seq::<FinderMatch>::empty(),
            r.finder_cursor == 0,
            !r.preview_active,
            !r.preview_focused,
            r.page_size == 20,
    {
        App {
            left_pane,
            right_pane,
            active_pane: PaneId::Left,
            mode: Mode::Normal,
            input_buffer: String::new(),
            input_kind: None,
            show_help: false,
            dialog: None,
            should_quit: false,
            normal_state: NormalState::new(),
            finder_results: Vec::new(),
            finder_cursor: 0,
            preview_active: false,
            preview_focused: false,
            page_size: 20,
        }
    }

    /// The pane the keys act on.
    pub fn active_ref(&self) -> (r: &PaneState)
        ensures
            *r == self.active(),
    {
        match self.active_pane {
            PaneId::Left => &self.left_pane,
            PaneId::Right => &self.right_pane,
        }
    }

    /// The other pane.
    pub fn other_ref(&self) -> (r: &PaneState)
        ensures
            *r == self.inactive(),
    {
        match self.active_pane {
            PaneId::Left => &self.right_pane,
            PaneId::Right => &self.left_pane,
        }
    }

    /// The pane the keys act on, to change in place.
    pub fn active_mut(&mut self) -> (r: &mut PaneState)
        ensures
            *r == old(self).active(),
            *final(self) == old(self).with_active(*final(r)),
    {
        match self.active_pane {
            PaneId::Left => &mut self.left_pane,
            PaneId::Right => &mut self.right_pane,
        }
    }

    /// The rows a page holds in a terminal `height` rows high (borders,
    /// header and status line take four).
    pub fn set_page_size(&mut self, height: u16)
        ensures
            final(self).page_size == (if height >= 4 {
                (height - 4) as usize
            } else {
                0
            }),
            *final(self) == (App { page_size: final(self).page_size, ..*old(self) }),
    {
        self.page_size = height.saturating_sub(4) as usize;
    }
}

/// What a pane step does to the pane `a`, giving `b`.
pub open spec fn pane_stepped(a: PaneState, b: PaneState, st: PaneStep) -> bool {
    let n = a.entries@.len();
    match st {
        PaneStep::Up => same_but_cursor(a, b) && b.cursor == (if a.cursor > 0 {
            a.cursor - 1
        } else {
            0
        }),
        PaneStep::Down => same_but_cursor(a, b) && b.cursor == (if a.cursor + 1 < n {
            a.cursor + 1
        } else {
            a.cursor as int
        }),
        PaneStep::Top => same_but_cursor(a, b) && b.cursor == 0,
        PaneStep::Bottom => same_but_cursor(a, b) && b.cursor == (if n > 0 {
            n - 1
        } else {
            a.cursor as int
        }),
        PaneStep::PageUp(p) => same_but_cursor(a, b) && b.cursor == (if a.cursor >= p {
            a.cursor - p
        } else {
            0
        }),
        PaneStep::HalfPageUp(p) => same_but_cursor(a, b) && b.cursor == (if a.cursor >= p / 2 {
            a.cursor - p / 2
        } else {
            0
        }),
        PaneStep::PageDown(p) => same_but_cursor(a, b) && b.cursor == (if n == 0 {
            a.cursor as int
        } else if a.cursor + p < n - 1 {
            a.cursor + p
        } else {
            n - 1
        }),
        PaneStep::HalfPageDown(p) => same_but_cursor(a, b) && b.cursor == (if n == 0 {
            a.cursor as int
        } else if a.cursor + p / 2 < n - 1 {
            a.cursor + p / 2
        } else {
            n - 1
        }),
        PaneStep::ToggleSelect => same_but_selection(a, b) && b.selected@ == toggled_at(
            a.selected@,
            a.cursor as int,
        ),
        PaneStep::SelectAll => same_but_selection(a, b) && b.selected@ == Seq::new(
            a.selected@.len(),
            |i: int| true,
        ),
        PaneStep::DeselectAll => same_but_selection(a, b) && b.selected@ == Seq::new(
            a.selected@.len(),
            |i: int| false,
        ),
        PaneStep::Invert => same_but_selection(a, b) && b.selected@ == a.selected@.map_values(
            |x: bool| !x,
        ),
        PaneStep::ExtendDown => {
            &&& b.selected@ == toggled_at(a.selected@, a.cursor as int)
            &&& b.cursor == (if a.cursor + 1 < n {
                a.cursor + 1
            } else {
                a.cursor as int
            })
            &&& b.entries == a.entries
            &&& b.cwd == a.cwd
            &&& b.scroll_offset == a.scroll_offset
        },
        PaneStep::ExtendUp => {
            &&& b.selected@ == toggled_at(a.selected@, a.cursor as int)
            &&& b.cursor == (if a.cursor > 0 {
                a.cursor - 1
            } else {
                0
            })
            &&& b.entries == a.entries
            &&& b.cwd == a.cwd
            &&& b.scroll_offset == a.scroll_offset
        },
        PaneStep::SelectGlob(pat) => same_but_selection(a, b) && b.selected@ == Seq::new(
            a.selected@.len(),
            |i: int| a.selected@[i] || (i < a.entries@.len() && glob(pat@, a.entries@[i].name@)),
        ),
    }
}

/// A pane step that cannot overflow the cursor.
pub open spec fn step_fits(a: PaneState, st: PaneStep) -> bool {
    match st {
        PaneStep::PageDown(p) => a.entries@.len() > 0 ==> a.cursor + p <= usize::MAX,
        PaneStep::HalfPageDown(p) => a.entries@.len() > 0 ==> a.cursor + p / 2 <= usize::MAX,
        _ => true,
    }
}

/// The pane `a` with a listing setting changed.
pub open spec fn with_setting(a: PaneState, st: Setting) -> PaneState {
    match st {
        Setting::ToggleHidden => PaneState { show_hidden: !a.show_hidden, ..a },
        Setting::Sort(by) => PaneState { sort_by: by, ..a },
        Setting::Filter(f) => PaneState { filter: f, ..a },
    }
}

/// The facts shown for an entry, `modified` being its modification time as
/// text where it has one.
pub open spec fn file_info_text(e: FileEntry, modified: Option<Seq<char>>) -> Seq<char> {
    "Name: "@ + e.name@ + "\nPath: "@ + e.path@ + "\nSize: "@ + file_size_text(e.size as nat)
        + "\nPermissions: "@ + e.permissions@ + "\nModified: "@ + match modified {
        Some(m) => m,
        None => "unknown"@,
    }
}

/// What a key does in the finder: the state after it, the action it then
/// dispatches, and the outside work it asks for.
pub open spec fn finder_keyed(s: App, key: KeyEvent, n: App, a: Action, e: Effect) -> bool {
    match key.code {
        KeyCode::Esc => {
            &&& a == Action::ExitToNormal
            &&& e is Nothing
            &&& n == App { finder_results: n.finder_results, finder_cursor: 0, ..s }
            &&& n.finder_results@ == Seq::<FinderMatch>::empty()
        },
        KeyCode::Enter => {
            &&& a == Action::NoOp
            &&& if s.finder_cursor < s.finder_results@.len() {
                &&& e == Effect::FinderOpen(s.finder_results@[s.finder_cursor as int].path)
                &&& n == App {
                    finder_results: n.finder_results,
                    finder_cursor: 0,
                    mode: Mode::Normal,
                    ..s
                }
                &&& n.finder_results@ == Seq::<FinderMatch>::empty()
            } else {
                e is Nothing && n == s
            }
        },
        KeyCode::Up => a == Action::NoOp && e is Nothing && n == App {
            finder_cursor: (if s.finder_cursor > 0 {
                (s.finder_cursor - 1) as usize
            } else {
                s.finder_cursor
            }),
            ..s
        },
        KeyCode::Down => a == Action::NoOp && e is Nothing && n == App {
            finder_cursor: (if s.finder_cursor + 1 < s.finder_results@.len() {
                (s.finder_cursor + 1) as usize
            } else {
                s.finder_cursor
            }),
            ..s
        },
        KeyCode::Backspace => {
            &&& a == Action::NoOp
            &&& e is FinderSearch
            &&& n == App { input_buffer: n.input_buffer, ..s }
            &&& n.input_buffer@ == if s.input_buffer@.len() > 0 {
                s.input_buffer@.drop_last()
            } else {
                s.input_buffer@
            }
        },
        KeyCode::Char(c) => {
            &&& a == Action::NoOp
            &&& e is FinderSearch
            &&& n == App { input_buffer: n.input_buffer, ..s }
            &&& n.input_buffer@ == s.input_buffer@.push(c)
        },
        _ => a == Action::NoOp && e is Nothing && n == s,
    }
}

/// The action a key gives in a mode other than the finder.
pub open spec fn mode_action(s: App, key: KeyEvent, a: Action, pending_after: bool) -> bool {
    match s.mode {
        Mode::Normal => if s.normal_state.pending_g {
            a == crate::mode::normal::after_g(key) && !pending_after
        } else {
            a == crate::mode::normal::normal_action(key) && pending_after == (key.code
                == KeyCode::Char('g'))
        },
        Mode::Select => a == crate::mode::select::select_action(key) && pending_after
            == s.normal_state.pending_g,
        Mode::Space => a == crate::mode::space::space_action(key) && pending_after
            == s.normal_state.pending_g,
        Mode::Goto => a == crate::mode::goto::goto_action(key) && pending_after
            == s.normal_state.pending_g,
        Mode::Command => a == crate::mode::command::command_key_action(key) && pending_after
            == s.normal_state.pending_g,
        Mode::Input(_) => a == crate::mode::input::input_action(key) && pending_after
            == s.normal_state.pending_g,
        Mode::Finder => false,
    }
}

impl App {
    /// What a key does: an open dialog takes it first, then the help screen,
    /// then the mode, whose action is dispatched.
    pub open spec fn keyed(s: App, key: KeyEvent, n: App, r: Outcome) -> bool {
        match s.dialog {
            Some(d) => {
                &&& !r.update_preview
                &&& n == App { dialog: None, ..s }
                &&& match d {
                    Dialog::Confirm { action, .. } => if key.code == KeyCode::Char('y')
                        || key.code == KeyCode::Char('Y') {
                        r.effect == Effect::Confirmed(action)
                    } else {
                        r.effect is Nothing
                    },
                    _ => r.effect is Nothing,
                }
            },
            None => if s.show_help {
                &&& !r.update_preview
                &&& r.effect is Nothing
                &&& n == App {
                    show_help: !(key.code == KeyCode::Esc || key.code == KeyCode::Char('?')),
                    ..s
                }
            } else if s.mode is Finder {
                exists|mid: App, a: Action, e: Effect, r2: Outcome|
                    #![trigger App::step(mid, a, n, r2), finder_keyed(s, key, mid, a, e)]
                    finder_keyed(s, key, mid, a, e) && App::step(mid, a, n, r2) && r == (if e is Nothing {
                        r2
                    } else {
                        Outcome { effect: e, update_preview: r2.update_preview }
                    })
            } else {
                exists|a: Action, pending: bool|
                    #![trigger App::step(
                        App { normal_state: NormalState { pending_g: pending }, ..s },
                        a,
                        n,
                        r,
                    )]
                    mode_action(s, key, a, pending) && App::step(
                        App { normal_state: NormalState { pending_g: pending }, ..s },
                        a,
                        n,
                        r,
                    )
            }
        }
    }
}

impl App {
    /// Carries out an action other than a typed line's confirmation.
    #[verifier::rlimit(50)]
    fn plain(&mut self, action: Action) -> (r: Outcome)
        ensures
            App::plain_step(*old(self), action, *final(self), r),
    {
        let page = self.page_size;
        if self.preview_active && self.preview_focused && !passes(&action) {
            if let Some(st) = preview_step_of(&action, page) {
                return Outcome { effect: Effect::Preview(st), update_preview: false };
            }
            if let Action::ExitToNormal = action {
                self.preview_focused = false;
                self.mode = Mode::Normal;
                self.normal_state = NormalState::new();
            }
            return Outcome { effect: Effect::Nothing, update_preview: false };
        }
        let settle = match self.mode {
            Mode::Space | Mode::Goto => match action {
                Action::NoOp | Action::EnterInput(_) | Action::EnterFinder => false,
                _ => true,
            },
            _ => false,
        };
        let effect = if let Some(st) = pane_step_of(&action, page) {
            Effect::Pane(st)
        } else {
            self.main(action)
        };
        if settle {
            self.mode = Mode::Normal;
        }
        Outcome { effect, update_preview: true }
    }

    /// The actions that are not pane steps, before the menus settle.
    #[verifier::rlimit(50)]
    fn main(&mut self, action: Action) -> (e: Effect)
        requires
            pane_step(action, old(self).page_size) is None,
        ensures
            App::main_step(
                *old(self),
                action,
                App { mode: settled(old(self).mode, action, final(self).mode), ..*final(self) },
                e,
            ),
    {
        match action {
            Action::Quit => {
                self.should_quit = true;
                Effect::Nothing
            },
            Action::EnterDir => Effect::EnterCurrent,
            Action::ParentDir => Effect::Parent,
            Action::SwitchPane => {
                if self.preview_active {
                    self.preview_focused = !self.preview_focused;
                } else {
                    self.active_pane = self.active_pane.other();
                    proof {
                        assert(self.active_pane == match old(self).active_pane {
                            PaneId::Left => PaneId::Right,
                            PaneId::Right => PaneId::Left,
                        });
                    }
                }
                Effect::Nothing
            },
            Action::FocusLeftPane => {
                if self.preview_active {
                    self.preview_focused = !self.preview_focused;
                } else {
                    self.active_pane = PaneId::Left;
                }
                Effect::Nothing
            },
            Action::FocusRightPane => {
                if self.preview_active {
                    self.preview_focused = !self.preview_focused;
                } else {
                    self.active_pane = PaneId::Right;
                }
                Effect::Nothing
            },
            Action::EnterSelect => {
                self.mode = Mode::Select;
                Effect::Nothing
            },
            Action::EnterSpace => {
                self.mode = Mode::Space;
                Effect::Nothing
            },
            Action::EnterGoto => {
                self.mode = Mode::Goto;
                Effect::Nothing
            },
            Action::EnterCommand => {
                self.mode = Mode::Command;
                self.input_buffer = String::new();
                Effect::Nothing
            },
            Action::EnterInput(kind) => {
                self.mode = Mode::Input(kind);
                self.input_kind = Some(kind);
                let mut text = String::new();
                if kind == InputKind::Rename {
                    if let Some(entry) = self.active_ref().current_entry() {
                        text = entry.name.clone();
                    }
                }
                self.input_buffer = text;
                Effect::Nothing
            },
            Action::ExitToNormal => {
                self.mode = Mode::Normal;
                self.normal_state = NormalState::new();
                Effect::Nothing
            },
            Action::CopyToOther => Effect::CopyToOther,
            Action::MoveToOther => Effect::MoveToOther,
            Action::DeleteSelected => {
                let paths = self.active_ref().selected_paths();
                if paths.len() > 0 {
                    let message = delete_question(&paths);
                    self.dialog = Some(
                        Dialog::Confirm {
                            title: String::from_str("Confirm Delete"),
                            message,
                            action: ConfirmAction::Delete { paths },
                        },
                    );
                }
                Effect::Nothing
            },
            Action::Rename(name) => {
                if name.unicode_len() > 0 {
                    match self.active_ref().current_entry() {
                        Some(entry) => Effect::Rename { path: entry.path.clone(), new_name: name },
                        None => Effect::Nothing,
                    }
                } else {
                    Effect::Nothing
                }
            },
            Action::Mkdir(name) => {
                if name.unicode_len() > 0 {
                    Effect::Mkdir { dir: self.active_ref().cwd.clone(), name }
                } else {
                    Effect::Nothing
                }
            },
            Action::EditFile | Action::OpenFile | Action::ViewFile => {
                let view = match action {
                    Action::ViewFile => true,
                    _ => false,
                };
                match self.active_ref().current_entry() {
                    Some(entry) => {
                        if entry.is_dir {
                            Effect::Nothing
                        } else if view {
                            Effect::View(entry.path.clone())
                        } else {
                            Effect::Edit(entry.path.clone())
                        }
                    },
                    None => Effect::Nothing,
                }
            },
            Action::GotoHome => Effect::Goto(GotoTarget::Home),
            Action::GotoRoot => Effect::Goto(GotoTarget::Path(String::from_str("/"))),
            Action::GotoOtherPane => Effect::Goto(GotoTarget::Path(self.other_ref().cwd.clone())),
            Action::GotoPrevious => match &self.active_ref().prev_dir {
                Some(p) => Effect::Goto(GotoTarget::Path(p.clone())),
                None => Effect::Nothing,
            },
            Action::ExecuteCommand(cmd) => match cd_path(self.active_ref().cwd.as_str(), cmd.as_str()) {
                Some(p) => Effect::Goto(GotoTarget::Path(p)),
                None => Effect::Nothing,
            },
            Action::ToggleHidden => Effect::Relist(Setting::ToggleHidden),
            Action::SetSort(by) => Effect::Relist(Setting::Sort(by)),
            Action::SetFilter(f) => Effect::Relist(Setting::Filter(f)),
            Action::ShowHelp => {
                self.show_help = !self.show_help;
                Effect::Nothing
            },
            Action::ShowFileInfo => {
                if self.active_ref().current_entry().is_some() {
                    Effect::FileInfo
                } else {
                    Effect::Nothing
                }
            },
            Action::InputChar(c) => {
                string_push(&mut self.input_buffer, c);
                Effect::Nothing
            },
            Action::InputBackspace => {
                string_pop(&mut self.input_buffer);
                Effect::Nothing
            },
            Action::InputCancel => {
                self.input_buffer = String::new();
                self.input_kind = None;
                self.mode = Mode::Normal;
                Effect::Nothing
            },
            Action::EnterFinder => {
                self.mode = Mode::Finder;
                self.input_buffer = String::new();
                self.finder_results = Vec::new();
                self.finder_cursor = 0;
                Effect::Nothing
            },
            Action::TogglePreview => {
                if self.preview_active {
                    self.preview_active = false;
                    self.preview_focused = false;
                    Effect::PreviewOff
                } else {
                    self.preview_active = true;
                    Effect::PreviewOn
                }
            },
            _ => Effect::Nothing,
        }
    }
}

impl App {
    /// Carries out an action.
    pub fn dispatch(&mut self, action: Action) -> (r: Outcome)
        ensures
            App::step(*old(self), action, *final(self), r),
    {
        let confirm = match action {
            Action::InputConfirm => true,
            _ => false,
        };
        if !confirm || (self.preview_active && self.preview_focused) {
            return self.plain(action);
        }
        let mut buf = String::new();
        std::mem::swap(&mut buf, &mut self.input_buffer);
        let kind = self.input_kind;
        self.input_kind = None;
        self.mode = Mode::Normal;
        let ghost mid = *self;
        let effect = match kind {
            Some(InputKind::Rename) => {
                if buf.unicode_len() > 0 {
                    match self.active_ref().current_entry() {
                        Some(entry) => Effect::Rename { path: entry.path.clone(), new_name: buf },
                        None => Effect::Nothing,
                    }
                } else {
                    Effect::Nothing
                }
            },
            Some(InputKind::Mkdir) => {
                if buf.unicode_len() > 0 {
                    Effect::Mkdir { dir: self.active_ref().cwd.clone(), name: buf }
                } else {
                    Effect::Nothing
                }
            },
            Some(InputKind::Search) => {
                if buf.unicode_len() == 0 {
                    Effect::Relist(Setting::Filter(None))
                } else {
                    Effect::Relist(Setting::Filter(Some(buf)))
                }
            },
            Some(InputKind::GlobSelect) => Effect::Pane(PaneStep::SelectGlob(buf)),
            _ => {
                let next = execute_command(buf.as_str());
                let ghost a2 = next;
                let out = self.plain(next);
                proof {
                    assert(App::plain_step(mid, a2, *self, out));
                }
                return Outcome { effect: out.effect, update_preview: true };
            },
        };
        Outcome { effect, update_preview: true }
    }

    /// Applies a pane step to the active pane.
    pub fn apply_pane_step(&mut self, st: PaneStep)
        requires
            step_fits(old(self).active(), st),
        ensures
            pane_stepped(old(self).active(), final(self).active(), st),
            *final(self) == old(self).with_active(final(self).active()),
    {
        let pane = self.active_mut();
        match st {
            PaneStep::Up => pane.cursor_up(),
            PaneStep::Down => pane.cursor_down(),
            PaneStep::Top => pane.cursor_top(),
            PaneStep::Bottom => pane.cursor_bottom(),
            PaneStep::PageUp(p) => pane.page_up(p),
            PaneStep::PageDown(p) => pane.page_down(p),
            PaneStep::HalfPageUp(p) => pane.half_page_up(p),
            PaneStep::HalfPageDown(p) => pane.half_page_down(p),
            PaneStep::ToggleSelect => pane.toggle_select(),
            PaneStep::SelectAll => pane.select_all(),
            PaneStep::DeselectAll => pane.deselect_all(),
            PaneStep::Invert => pane.invert_selection(),
            PaneStep::ExtendDown => pane.select_extend_down(),
            PaneStep::ExtendUp => pane.select_extend_up(),
            PaneStep::SelectGlob(pat) => pane.select_by_glob(pat.as_str()),
        }
    }

    /// Changes a listing setting of the active pane and lists it again from
    /// `listing`, what reading its directory gave.
    pub fn apply_setting(&mut self, st: Setting, listing: Result<Vec<FileEntry>, NcError>) -> (r:
        Result<(), NcError>)
        ensures
            ({
                let changed = with_setting(old(self).active(), st);
                match listing {
                    Ok(raw) => r is Ok && relisted(changed, final(self).active(), raw@),
                    Err(e) => r == Err::<(), NcError>(e) && emptied(changed, final(self).active()),
                }
            }),
            *final(self) == old(self).with_active(final(self).active()),
    {
        let pane = self.active_mut();
        match st {
            Setting::ToggleHidden => pane.show_hidden = !pane.show_hidden,
            Setting::Sort(by) => pane.sort_by = by,
            Setting::Filter(f) => pane.filter = f,
        }
        pane.refresh(listing)
    }

    /// Shows the facts of the entry under the cursor, `modified` being its
    /// modification time as text where it has one.
    pub fn show_file_info(&mut self, modified: Option<String>)
        ensures
            match entry_at(old(self).active()) {
                Some(e) => {
                    &&& *final(self) == (App { dialog: final(self).dialog, ..*old(self) })
                    &&& final(self).dialog matches Some(Dialog::Info { title, message })
                    &&& title@ == "File Info"@
                    &&& message@ == file_info_text(
                        e,
                        match modified {
                            Some(m) => Some(m@),
                            None => None,
                        },
                    )
                },
                None => *final(self) == *old(self),
            },
    {
        let message = match self.active_ref().current_entry() {
            Some(e) => {
                let mut m = concat("Name: ", e.name.as_str());
                m = concat(m.as_str(), "\nPath: ");
                m = concat(m.as_str(), e.path.as_str());
                m = concat(m.as_str(), "\nSize: ");
                let size = format_file_size(e.size);
                m = concat(m.as_str(), size.as_str());
                m = concat(m.as_str(), "\nPermissions: ");
                m = concat(m.as_str(), e.permissions.as_str());
                m = concat(m.as_str(), "\nModified: ");
                match &modified {
                    Some(t) => concat(m.as_str(), t.as_str()),
                    None => concat(m.as_str(), "unknown"),
                }
            },
            None => return ,
        };
        self.dialog = Some(Dialog::Info { title: String::from_str("File Info"), message });
    }

    /// Shows new finder results, the cursor on the first.
    pub fn set_finder_results(&mut self, results: Vec<FinderMatch>)
        ensures
            *final(self) == (App { finder_results: results, finder_cursor: 0, ..*old(self) }),
    {
        self.finder_results = results;
        self.finder_cursor = 0;
    }

    /// A key in the finder: the action it dispatches and the work it asks for.
    fn finder_key(&mut self, key: KeyEvent) -> (r: (Action, Effect))
        requires
            old(self).mode is Finder,
        ensures
            finder_keyed(*old(self), key, *final(self), r.0, r.1),
    {
        match key.code {
            KeyCode::Esc => {
                self.finder_results = Vec::new();
                self.finder_cursor = 0;
                (Action::ExitToNormal, Effect::Nothing)
            },
            KeyCode::Enter => {
                if self.finder_cursor < self.finder_results.len() {
                    let path = self.finder_results[self.finder_cursor].path.clone();
                    self.finder_results = Vec::new();
                    self.finder_cursor = 0;
                    self.mode = Mode::Normal;
                    (Action::NoOp, Effect::FinderOpen(path))
                } else {
                    (Action::NoOp, Effect::Nothing)
                }
            },
            KeyCode::Up => {
                if self.finder_cursor > 0 {
                    self.finder_cursor = self.finder_cursor - 1;
                }
                (Action::NoOp, Effect::Nothing)
            },
            KeyCode::Down => {
                if self.finder_cursor < self.finder_results.len() && self.finder_cursor + 1 < self.finder_results.len() {
                    self.finder_cursor = self.finder_cursor + 1;
                }
                (Action::NoOp, Effect::Nothing)
            },
            KeyCode::Backspace => {
                string_pop(&mut self.input_buffer);
                (Action::NoOp, Effect::FinderSearch)
            },
            KeyCode::Char(c) => {
                string_push(&mut self.input_buffer, c);
                (Action::NoOp, Effect::FinderSearch)
            },
            _ => (Action::NoOp, Effect::Nothing),
        }
    }

    /// Handles one key.
    #[verifier::rlimit(50)]
    pub fn handle_key(&mut self, key: KeyEvent) -> (r: Outcome)
        ensures
            App::keyed(*old(self), key, *final(self), r),
    {
        if self.dialog.is_some() {
            let mut d: Option<Dialog> = None;
            std::mem::swap(&mut d, &mut self.dialog);
            let effect = match d {
                Some(Dialog::Confirm { action, .. }) => {
                    if key.code == KeyCode::Char('y') || key.code == KeyCode::Char('Y') {
                        Effect::Confirmed(action)
                    } else {
                        Effect::Nothing
                    }
                },
                _ => Effect::Nothing,
            };
            return Outcome { effect, update_preview: false };
        }
        if self.show_help {
            if key.code == KeyCode::Esc || key.code == KeyCode::Char('?') {
                self.show_help = false;
            }
            return Outcome { effect: Effect::Nothing, update_preview: false };
        }
        let ghost s = *self;
        if let Mode::Finder = self.mode {
            let (action, fx) = self.finder_key(key);
            let ghost mid = *self;
            let ghost a = action;
            let out = self.dispatch(action);
            let r = match fx {
                Effect::Nothing => out,
                _ => Outcome { effect: fx, update_preview: out.update_preview },
            };
            proof {
                assert(finder_keyed(s, key, mid, a, fx));
                assert(App::step(mid, a, *self, out));
            }
            return r;
        }
        let action = match self.mode {
            Mode::Normal => normal::handle_key(key, &mut self.normal_state),
            Mode::Select => select::handle_key(key),
            Mode::Space => space::handle_key(key),
            Mode::Goto => goto::handle_key(key),
            Mode::Command => command::handle_key(key),
            _ => input::handle_key(key),
        };
        let ghost mid = *self;
        let ghost a = action;
        let out = self.dispatch(action);
        proof {
            assert(mid == App { normal_state: NormalState { pending_g: mid.normal_state.pending_g }, ..s });
            assert(mode_action(s, key, a, mid.normal_state.pending_g));
            assert(App::step(mid, a, *self, out));
        }
        out
    }
}

/// Keys and actions never change a pane's listing, cursor or selection by
/// themselves: every such change is named as an effect for the caller to
/// carry out (so, among others, selections persist across mode changes).
pub proof fn lemma_actions_keep_panes(s: App, a: Action, n: App, r: Outcome)
    requires
        App::step(s, a, n, r),
    ensures
        n.left_pane == s.left_pane,
        n.right_pane == s.right_pane,
{
    if a is InputConfirm && !(s.preview_active && s.preview_focused) {
        match s.input_kind {
            Some(InputKind::Rename) | Some(InputKind::Mkdir) | Some(InputKind::Search) | Some(
                InputKind::GlobSelect,
            ) => {},
            _ => {
                let (mid, a2, r2) = choose|mid: App, a2: Action, r2: Outcome|
                    #![trigger App::plain_step(mid, a2, n, r2)]
                    App::confirmed_state(s, mid) && command_meaning(s.input_buffer@, a2)
                        && App::plain_step(mid, a2, n, r2) && r == Outcome {
                        effect: r2.effect,
                        update_preview: true,
                    };
                lemma_plain_keeps_panes(mid, a2, n, r2);
            },
        }
    } else {
        lemma_plain_keeps_panes(s, a, n, r);
    }
}

proof fn lemma_plain_keeps_panes(s: App, a: Action, n: App, r: Outcome)
    requires
        App::plain_step(s, a, n, r),
    ensures
        n.left_pane == s.left_pane,
        n.right_pane == s.right_pane,
{
}

/// A key never changes a pane by itself either (see
/// `lemma_actions_keep_panes`).
pub proof fn lemma_keys_keep_panes(s: App, key: KeyEvent, n: App, r: Outcome)
    requires
        App::keyed(s, key, n, r),
    ensures
        n.left_pane == s.left_pane,
        n.right_pane == s.right_pane,
{
    if s.dialog is None && !s.show_help {
        if s.mode is Finder {
            let (mid, a, e, r2) = choose|mid: App, a: Action, e: Effect, r2: Outcome|
                #![trigger App::step(mid, a, n, r2), finder_keyed(s, key, mid, a, e)]
                finder_keyed(s, key, mid, a, e) && App::step(mid, a, n, r2) && r == (if e is Nothing {
                    r2
                } else {
                    Outcome { effect: e, update_preview: r2.update_preview }
                });
            lemma_actions_keep_panes(mid, a, n, r2);
        } else {
            let (a, pending) = choose|a: Action, pending: bool|
                #![trigger App::step(
                    App { normal_state: NormalState { pending_g: pending }, ..s },
                    a,
                    n,
                    r,
                )]
                mode_action(s, key, a, pending) && App::step(
                    App { normal_state: NormalState { pending_g: pending }, ..s },
                    a,
                    n,
                    r,
                );
            lemma_actions_keep_panes(
                App { normal_state: NormalState { pending_g: pending }, ..s },
                a,
                n,
                r,
            );
        }
    }
}

fn passes(a: &Action) -> (r: bool)
    ensures
        r == passes_focus(*a),
{
    match a {
        Action::SwitchPane | Action::FocusLeftPane | Action::FocusRightPane | Action::Quit
        | Action::TogglePreview => true,
        _ => false,
    }
}

fn preview_step_of(a: &Action, page: usize) -> (r: Option<PreviewStep>)
    ensures
        r == preview_step(*a, page),
{
    match a {
        Action::CursorUp => Some(PreviewStep::Up(1)),
        Action::CursorDown => Some(PreviewStep::Down(1)),
        Action::HalfPageUp => Some(PreviewStep::Up(page / 2)),
        Action::HalfPageDown => Some(PreviewStep::Down(page / 2)),
        Action::PageUp => Some(PreviewStep::Up(page)),
        Action::PageDown => Some(PreviewStep::Down(page)),
        Action::CursorTop => Some(PreviewStep::Top),
        Action::CursorBottom => Some(PreviewStep::Bottom),
        _ => None,
    }
}

fn pane_step_of(a: &Action, page: usize) -> (r: Option<PaneStep>)
    ensures
        r == pane_step(*a, page),
{
    match a {
        Action::CursorUp => Some(PaneStep::Up),
        Action::CursorDown => Some(PaneStep::Down),
        Action::CursorTop => Some(PaneStep::Top),
        Action::CursorBottom => Some(PaneStep::Bottom),
        Action::PageUp => Some(PaneStep::PageUp(page)),
        Action::PageDown => Some(PaneStep::PageDown(page)),
        Action::HalfPageUp => Some(PaneStep::HalfPageUp(page)),
        Action::HalfPageDown => Some(PaneStep::HalfPageDown(page)),
        Action::ToggleSelect => Some(PaneStep::ToggleSelect),
        Action::SelectAll => Some(PaneStep::SelectAll),
        Action::DeselectAll => Some(PaneStep::DeselectAll),
        Action::InvertSelection => Some(PaneStep::Invert),
        Action::SelectExtendDown => Some(PaneStep::ExtendDown),
        Action::SelectExtendUp => Some(PaneStep::ExtendUp),
        _ => None,
    }
}

/// The question asked before deleting `paths`.
fn delete_question(paths: &Vec<String>) -> (r: String)
    requires
        paths@.len() > 0,
    ensures
        r@ == delete_message(paths@.map_values(|p: String| p@)),
{
    if paths.len() == 1 {
        let head = concat("Delete ", paths[0].as_str());
        concat(head.as_str(), "?")
    } else {
        let n = decimal_string(paths.len() as u64);
        let head = concat("Delete ", n.as_str());
        concat(head.as_str(), " items?")
    }
}

/// Where a `cd <path>` line goes from `cwd`.
fn cd_path(cwd: &str, cmd: &str) -> (r: Option<String>)
    ensures
        match cd_target(cwd@, cmd@) {
            Some(t) => r matches Some(p) && p@ == t,
            None => r is None,
        },
{
    let cs = chars_of(cmd);
    proof {
        reveal_strlit("cd ");
    }
    if cs.len() >= 3 && cs[0] == 'c' && cs[1] == 'd' && cs[2] == ' ' {
        proof {
            assert(cmd@.take(3) =~= "cd "@);
        }
        let rest = sub_chars(&cs, 3, cs.len());
        proof {
            assert(rest@ =~= cmd@.skip(3));
        }
        let t = string_of(&trim_chars(&rest));
        if path_is_absolute(t.as_str()) {
            Some(t)
        } else {
            Some(path_join(cwd, t.as_str()))
        }
    } else {
        proof {
            if cmd@.len() >= 3 && cmd@.take(3) == "cd "@ {
                assert(cmd@[0] == cmd@.take(3)[0]);
                assert(cmd@[1] == cmd@.take(3)[1]);
                assert(cmd@[2] == cmd@.take(3)[2]);
            }
        }
        None
    }
}

} // verus!
