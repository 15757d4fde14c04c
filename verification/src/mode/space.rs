//! Space mode: the leader menu of file actions.
use vstd::prelude::*;

use super::{Action, InputKind, KeyCode, KeyEvent};

verus! {

/// The action of a key in the space menu; any other key leaves the menu.
pub open spec fn space_action(key: KeyEvent) -> Action {
    match key.code {
        KeyCode::Esc => Action::ExitToNormal,
        KeyCode::Char(c) => if c == 'c' {
            Action::CopyToOther
        } else if c == 'm' {
            Action::MoveToOther
        } else if c == 'd' {
            Action::DeleteSelected
        } else if c == 'r' {
            Action::EnterInput(InputKind::Rename)
        } else if c == 'n' {
            Action::EnterInput(InputKind::Mkdir)
        } else if c == 'e' {
            Action::EditFile
        } else if c == 'v' {
            Action::ViewFile
        } else if c == 's' {
            Action::EnterInput(InputKind::CommandLine)
        } else if c == 'f' {
            Action::EnterFinder
        } else if c == 'i' {
            Action::ShowFileInfo
        } else if c == '?' {
            Action::ShowHelp
        } else {
            Action::ExitToNormal
        },
        _ => Action::ExitToNormal,
    }
}

pub fn handle_key(key: KeyEvent) -> (r: Action)
    ensures
        r == space_action(key),
{
    match key.code {
        KeyCode::Esc => Action::ExitToNormal,
        KeyCode::Char('c') => Action::CopyToOther,
        KeyCode::Char('m') => Action::MoveToOther,
        KeyCode::Char('d') => Action::DeleteSelected,
        KeyCode::Char('r') => Action::EnterInput(InputKind::Rename),
        KeyCode::Char('n') => Action::EnterInput(InputKind::Mkdir),
        KeyCode::Char('e') => Action::EditFile,
        KeyCode::Char('v') => Action::ViewFile,
        KeyCode::Char('s') => Action::EnterInput(InputKind::CommandLine),
        KeyCode::Char('f') => Action::EnterFinder,
        KeyCode::Char('i') => Action::ShowFileInfo,
        KeyCode::Char('?') => Action::ShowHelp,
        _ => Action::ExitToNormal,
    }
}

} // verus!
