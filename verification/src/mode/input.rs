//! Input mode: collecting a line of text (rename, mkdir, search, glob).
use vstd::prelude::*;

use super::{accepts_text, plain_text, Action, KeyCode, KeyEvent};

verus! {

/// The action of a key while text is typed: chords with Control, Alt and
/// the like are not text.
pub open spec fn input_action(key: KeyEvent) -> Action {
    match key.code {
        KeyCode::Esc => Action::InputCancel,
        KeyCode::Enter => Action::InputConfirm,
        KeyCode::Backspace => Action::InputBackspace,
        KeyCode::Char(c) => if plain_text(key) {
            Action::InputChar(c)
        } else {
            Action::NoOp
        },
        _ => Action::NoOp,
    }
}

pub fn handle_key(key: KeyEvent) -> (r: Action)
    ensures
        r == input_action(key),
{
    match key.code {
        KeyCode::Esc => Action::InputCancel,
        KeyCode::Enter => Action::InputConfirm,
        KeyCode::Backspace => Action::InputBackspace,
        KeyCode::Char(c) => if accepts_text(&key) {
            Action::InputChar(c)
        } else {
            Action::NoOp
        },
        _ => Action::NoOp,
    }
}

} // verus!
