//! Modes: how keystrokes are read in each, and the actions they produce.
pub mod command;
pub mod goto;
pub mod input;
pub mod normal;
pub mod select;
pub mod space;

use vstd::prelude::*;

use crate::pane::SortBy;

verus! {

/// A key, as the library reads it.
#[derive(Debug, Clone, Copy, PartialEq, Eq, Structural)]
pub enum KeyCode {
    Char(char),
    Esc,
    Enter,
    Backspace,
    Tab,
    Up,
    Down,
    Left,
    Right,
    PageUp,
    PageDown,
    /// Any other key.
    Other,
}

/// Modifier bit: Shift.
pub const SHIFT: u8 = 1;

/// Modifier bit: Control.
pub const CONTROL: u8 = 2;

/// Modifier bit: Alt.
pub const ALT: u8 = 4;

/// Modifier bit: Super.
pub const SUPER: u8 = 8;

/// Modifier bit: Hyper.
pub const HYPER: u8 = 16;

/// Modifier bit: Meta.
pub const META: u8 = 32;

/// A key press: the key and the modifier bits held with it.
#[derive(Debug, Clone, Copy, PartialEq, Eq, Structural)]
pub struct KeyEvent {
    pub code: KeyCode,
    pub modifiers: u8,
}

impl KeyEvent {
    pub fn new(code: KeyCode, modifiers: u8) -> (r: KeyEvent)
        ensures
            r.code == code,
            r.modifiers == modifiers,
    {
        KeyEvent { code, modifiers }
    }
}

/// No modifier beyond Shift is held.
pub open spec fn plain_text(key: KeyEvent) -> bool {
    key.modifiers & !SHIFT == 0
}

/// True when a `KeyCode::Char` event is plain typed text: no modifiers beyond
/// SHIFT (which legitimately produces uppercase/symbols). Without this guard,
/// chords like Ctrl-C insert their letter into text inputs.
pub fn accepts_text(key: &KeyEvent) -> (r: bool)
    ensures
        r == plain_text(*key),
{
    key.modifiers & !SHIFT == 0
}

/// Control is held.
pub open spec fn with_control(key: KeyEvent) -> bool {
    key.modifiers & CONTROL != 0
}

/// Application mode — determines how keystrokes are interpreted.
#[derive(Debug, Clone, Copy, PartialEq, Eq, Structural)]
pub enum Mode {
    Normal,
    Select,
    Space,
    Goto,
    Command,
    Input(InputKind),
    Finder,
}

/// What kind of text input we're collecting.
#[derive(Debug, Clone, Copy, PartialEq, Eq, Structural)]
pub enum InputKind {
    Rename,
    Mkdir,
    Search,
    GlobSelect,
    CommandLine,
}

impl Mode {
    /// Short label for the status line.
    pub open spec fn spec_label(self) -> Seq<char> {
        match self {
            Mode::Normal => "NOR"@,
            Mode::Select => "SEL"@,
            Mode::Space => "SPC"@,
            Mode::Goto => "GTO"@,
            Mode::Command => "CMD"@,
            Mode::Input(_) => "INP"@,
            Mode::Finder => "FND"@,
        }
    }

    /// Short label for the status line.
    pub fn label(self) -> (r: &'static str)
        ensures
            r@ == self.spec_label(),
    {
        match self {
            Mode::Normal => "NOR",
            Mode::Select => "SEL",
            Mode::Space => "SPC",
            Mode::Goto => "GTO",
            Mode::Command => "CMD",
            Mode::Input(_) => "INP",
            Mode::Finder => "FND",
        }
    }
}

/// Actions returned by mode handlers, dispatched by the app event loop.
#[derive(Debug, Clone)]
pub enum Action {
    NoOp,
    Quit,
    Redraw,
    // Navigation
    CursorUp,
    CursorDown,
    CursorTop,
    CursorBottom,
    PageUp,
    PageDown,
    HalfPageUp,
    HalfPageDown,
    EnterDir,
    ParentDir,
    SwitchPane,
    FocusLeftPane,
    FocusRightPane,
    // Mode transitions
    EnterSelect,
    EnterSpace,
    EnterGoto,
    EnterCommand,
    EnterInput(InputKind),
    ExitToNormal,
    // Select mode
    ToggleSelect,
    SelectAll,
    InvertSelection,
    SelectExtendDown,
    SelectExtendUp,
    /// Clear the selection (Helix-style `;` collapse; selections otherwise
    /// persist across mode changes, so clearing is an explicit action).
    DeselectAll,
    // File operations
    CopyToOther,
    MoveToOther,
    DeleteSelected,
    Rename(String),
    Mkdir(String),
    EditFile,
    OpenFile,
    // Goto
    GotoHome,
    GotoRoot,
    GotoOtherPane,
    GotoPrevious,
    GotoBookmark(usize),
    // Command mode
    ExecuteCommand(String),
    // Settings
    ToggleHidden,
    SetSort(SortBy),
    SetFilter(Option<String>),
    // Info
    ShowHelp,
    ShowFileInfo,
    // Input mode
    InputChar(char),
    InputBackspace,
    InputConfirm,
    InputCancel,
    // Finder mode
    EnterFinder,
    FinderSelect(usize),
    FinderCursorUp,
    FinderCursorDown,
    // Preview mode
    TogglePreview,
    ViewFile,
}

/// The bookmark a digit key names (`1` is the first).
pub open spec fn bookmark_of(c: char) -> Option<usize> {
    if c == '1' {
        Some(0usize)
    } else if c == '2' {
        Some(1usize)
    } else if c == '3' {
        Some(2usize)
    } else if c == '4' {
        Some(3usize)
    } else if c == '5' {
        Some(4usize)
    } else if c == '6' {
        Some(5usize)
    } else if c == '7' {
        Some(6usize)
    } else if c == '8' {
        Some(7usize)
    } else if c == '9' {
        Some(8usize)
    } else {
        None
    }
}

/// The bookmark a digit key names (`1` is the first).
pub fn bookmark_index(c: char) -> (r: Option<usize>)
    ensures
        r == bookmark_of(c),
{
    match c {
        '1' => Some(0),
        '2' => Some(1),
        '3' => Some(2),
        '4' => Some(3),
        '5' => Some(4),
        '6' => Some(5),
        '7' => Some(6),
        '8' => Some(7),
        '9' => Some(8),
        _ => None,
    }
}

} // verus!
