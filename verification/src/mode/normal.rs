//! Normal mode: navigation and quick actions, with the two-key `g` prefix.
use vstd::prelude::*;

use super::{bookmark_index, bookmark_of, with_control, Action, InputKind, KeyCode, KeyEvent};

verus! {

/// Tracks multi-key sequences like gg.
#[derive(Debug, Default)]
pub struct NormalState {
    /// True if the previous key was 'g' (waiting for second key).
    pub pending_g: bool,
}

impl NormalState {
    pub fn new() -> (r: NormalState)
        ensures
            !r.pending_g,
    {
        NormalState { pending_g: false }
    }
}

/// The action of the key after a `g`.
pub open spec fn after_g(key: KeyEvent) -> Action {
    match key.code {
        KeyCode::Char(c) => if c == 'g' {
            Action::CursorTop
        } else if c == 'e' {
            Action::CursorBottom
        } else if c == 'h' {
            Action::GotoHome
        } else if c == 'r' {
            Action::GotoRoot
        } else if c == 'o' {
            Action::GotoOtherPane
        } else if c == 'p' {
            Action::GotoPrevious
        } else {
            match bookmark_of(c) {
                Some(n) => Action::GotoBookmark(n),
                None => Action::NoOp,
            }
        },
        _ => Action::NoOp,
    }
}

/// The action of a key in normal mode with no `g` pending.
pub open spec fn normal_action(key: KeyEvent) -> Action {
    match key.code {
        KeyCode::Char(c) => if c == 'q' {
            Action::Quit
        } else if c == 'j' {
            Action::CursorDown
        } else if c == 'k' {
            Action::CursorUp
        } else if c == 'h' {
            Action::ParentDir
        } else if c == 'l' {
            Action::EnterDir
        } else if c == 'G' {
            Action::CursorBottom
        } else if c == 'g' {
            Action::NoOp
        } else if c == 'd' && with_control(key) {
            Action::HalfPageDown
        } else if c == 'u' && with_control(key) {
            Action::HalfPageUp
        } else if c == 'v' {
            Action::EnterSelect
        } else if c == ' ' {
            Action::EnterSpace
        } else if c == ':' {
            Action::EnterCommand
        } else if c == '/' {
            Action::EnterInput(InputKind::Search)
        } else if c == 'r' {
            Action::EnterInput(InputKind::Rename)
        } else if c == 'd' {
            Action::DeleteSelected
        } else if c == 'y' {
            Action::CopyToOther
        } else if c == '.' {
            Action::ToggleHidden
        } else if c == 'p' || c == 'P' {
            Action::TogglePreview
        } else if c == '?' {
            Action::ShowHelp
        } else if c == 'J' {
            Action::SelectExtendDown
        } else if c == 'K' {
            Action::SelectExtendUp
        } else {
            Action::NoOp
        },
        KeyCode::Down => Action::CursorDown,
        KeyCode::Up => Action::CursorUp,
        KeyCode::Backspace => Action::ParentDir,
        KeyCode::Enter => Action::EnterDir,
        KeyCode::PageUp => Action::PageUp,
        KeyCode::PageDown => Action::PageDown,
        KeyCode::Tab => Action::SwitchPane,
        KeyCode::Left => Action::FocusLeftPane,
        KeyCode::Right => Action::FocusRightPane,
        KeyCode::Esc => Action::ExitToNormal,
        _ => Action::NoOp,
    }
}

/// Read one key in normal mode. A `g` waits for the next key (`gg` top,
/// `ge` end, `gh` home, `gr` root, `go` other pane, `gp` previous, `g1`-`g9`
/// bookmarks).
pub fn handle_key(key: KeyEvent, state: &mut NormalState) -> (r: Action)
    ensures
        old(state).pending_g ==> r == after_g(key) && !final(state).pending_g,
        !old(state).pending_g ==> r == normal_action(key) && final(state).pending_g == (key.code
            == KeyCode::Char('g')),
{
    if state.pending_g {
        state.pending_g = false;
        return match key.code {
            KeyCode::Char('g') => Action::CursorTop,
            KeyCode::Char('e') => Action::CursorBottom,
            KeyCode::Char('h') => Action::GotoHome,
            KeyCode::Char('r') => Action::GotoRoot,
            KeyCode::Char('o') => Action::GotoOtherPane,
            KeyCode::Char('p') => Action::GotoPrevious,
            KeyCode::Char(c) => match bookmark_index(c) {
                Some(n) => Action::GotoBookmark(n),
                None => Action::NoOp,
            },
            _ => Action::NoOp,
        };
    }
    let control = key.modifiers & super::CONTROL != 0;
    match key.code {
        KeyCode::Char(c) => {
            if c == 'q' {
                Action::Quit
            } else if c == 'j' {
                Action::CursorDown
            } else if c == 'k' {
                Action::CursorUp
            } else if c == 'h' {
                Action::ParentDir
            } else if c == 'l' {
                Action::EnterDir
            } else if c == 'G' {
                Action::CursorBottom
            } else if c == 'g' {
                state.pending_g = true;
                Action::NoOp
            } else if c == 'd' && control {
                Action::HalfPageDown
            } else if c == 'u' && control {
                Action::HalfPageUp
            } else if c == 'v' {
                Action::EnterSelect
            } else if c == ' ' {
                Action::EnterSpace
            } else if c == ':' {
                Action::EnterCommand
            } else if c == '/' {
                Action::EnterInput(InputKind::Search)
            } else if c == 'r' {
                Action::EnterInput(InputKind::Rename)
            } else if c == 'd' {
                Action::DeleteSelected
            } else if c == 'y' {
                Action::CopyToOther
            } else if c == '.' {
                Action::ToggleHidden
            } else if c == 'p' || c == 'P' {
                Action::TogglePreview
            } else if c == '?' {
                Action::ShowHelp
            } else if c == 'J' {
                Action::SelectExtendDown
            } else if c == 'K' {
                Action::SelectExtendUp
            } else {
                Action::NoOp
            }
        },
        KeyCode::Down => Action::CursorDown,
        KeyCode::Up => Action::CursorUp,
        KeyCode::Backspace => Action::ParentDir,
        KeyCode::Enter => Action::EnterDir,
        KeyCode::PageUp => Action::PageUp,
        KeyCode::PageDown => Action::PageDown,
        KeyCode::Tab => Action::SwitchPane,
        KeyCode::Left => Action::FocusLeftPane,
        KeyCode::Right => Action::FocusRightPane,
        KeyCode::Esc => Action::ExitToNormal,
        _ => Action::NoOp,
    }
}

} // verus!
