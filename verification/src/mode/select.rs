//! Select mode: marking entries.
use vstd::prelude::*;

use super::{Action, InputKind, KeyCode, KeyEvent};

verus! {

/// The action of a key in select mode.
pub open spec fn select_action(key: KeyEvent) -> Action {
    match key.code {
        KeyCode::Esc => Action::ExitToNormal,
        KeyCode::Down => Action::SelectExtendDown,
        KeyCode::Up => Action::SelectExtendUp,
        KeyCode::Tab => Action::SwitchPane,
        KeyCode::Left => Action::FocusLeftPane,
        KeyCode::Right => Action::FocusRightPane,
        KeyCode::Char(c) => if c == 'j' {
            Action::SelectExtendDown
        } else if c == 'k' {
            Action::SelectExtendUp
        } else if c == 'v' {
            Action::ToggleSelect
        } else if c == 'a' {
            Action::SelectAll
        } else if c == 'n' {
            Action::InvertSelection
        } else if c == ';' {
            Action::DeselectAll
        } else if c == '*' {
            Action::EnterInput(InputKind::GlobSelect)
        } else if c == ' ' {
            Action::EnterSpace
        } else if c == 'd' {
            Action::DeleteSelected
        } else if c == 'y' {
            Action::CopyToOther
        } else {
            Action::NoOp
        },
        _ => Action::NoOp,
    }
}

pub fn handle_key(key: KeyEvent) -> (r: Action)
    ensures
        r == select_action(key),
{
    match key.code {
        KeyCode::Esc => Action::ExitToNormal,
        KeyCode::Char('j') | KeyCode::Down => Action::SelectExtendDown,
        KeyCode::Char('k') | KeyCode::Up => Action::SelectExtendUp,
        KeyCode::Char('v') => Action::ToggleSelect,
        KeyCode::Char('a') => Action::SelectAll,
        KeyCode::Char('n') => Action::InvertSelection,
        KeyCode::Char(';') => Action::DeselectAll,
        KeyCode::Char('*') => Action::EnterInput(InputKind::GlobSelect),
        KeyCode::Char(' ') => Action::EnterSpace,
        KeyCode::Char('d') => Action::DeleteSelected,
        KeyCode::Char('y') => Action::CopyToOther,
        KeyCode::Tab => Action::SwitchPane,
        KeyCode::Left => Action::FocusLeftPane,
        KeyCode::Right => Action::FocusRightPane,
        _ => Action::NoOp,
    }
}

} // verus!
