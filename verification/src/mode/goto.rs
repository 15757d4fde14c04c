//! Goto mode: jumps to the ends of the listing and to directories.
use vstd::prelude::*;

use super::{bookmark_index, bookmark_of, Action, KeyCode, KeyEvent};

verus! {

/// The action of a key in goto mode; any other key leaves the mode.
pub open spec fn goto_action(key: KeyEvent) -> Action {
    match key.code {
        KeyCode::Esc => Action::ExitToNormal,
        KeyCode::Char(c) => if c == 'g' {
            Action::CursorTop
        } else if c == 'e' {
            Action::CursorBottom
        } else if c == 'h' {
            Action::GotoHome
        } else if c == 'r' {
            Action::GotoRoot
        } else if c == 'o' {
            Action::GotoOtherPane
        } else if c == 'p' {
            Action::GotoPrevious
        } else {
            match bookmark_of(c) {
                Some(n) => Action::GotoBookmark(n),
                None => Action::ExitToNormal,
            }
        },
        _ => Action::ExitToNormal,
    }
}

pub fn handle_key(key: KeyEvent) -> (r: Action)
    ensures
        r == goto_action(key),
{
    match key.code {
        KeyCode::Esc => Action::ExitToNormal,
        KeyCode::Char('g') => Action::CursorTop,
        KeyCode::Char('e') => Action::CursorBottom,
        KeyCode::Char('h') => Action::GotoHome,
        KeyCode::Char('r') => Action::GotoRoot,
        KeyCode::Char('o') => Action::GotoOtherPane,
        KeyCode::Char('p') => Action::GotoPrevious,
        KeyCode::Char(c) => match bookmark_index(c) {
            Some(n) => Action::GotoBookmark(n),
            None => Action::ExitToNormal,
        },
        _ => Action::ExitToNormal,
    }
}

} // verus!
