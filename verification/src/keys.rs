//! The key bindings: which key asks for which action.

use crate::view::Action;
use crossterm::event::KeyCode;
use vstd::prelude::*;

verus! {

/// `crossterm::event::KeyCode`, with its variants visible to proofs.
#[verifier::external_type_specification]
pub struct ExKeyCode(crossterm::event::KeyCode);

/// `crossterm::event::MediaKeyCode`, with its variants visible to proofs.
#[verifier::external_type_specification]
pub struct ExMediaKeyCode(crossterm::event::MediaKeyCode);

/// `crossterm::event::ModifierKeyCode`, with its variants visible to proofs.
#[verifier::external_type_specification]
pub struct ExModifierKeyCode(crossterm::event::ModifierKeyCode);

/// The action bound to a key, if any: `q` quits, `s` stages, `d` discards,
/// `u` unstages, Tab switches the view, Down and Up move the cursor, Left
/// clears the selection.
pub open spec fn action_of_key(code: KeyCode) -> Option<Action> {
    match code {
        KeyCode::Char(c) => if c == 'q' {
            Some(Action::Quit)
        } else if c == 's' {
            Some(Action::Stage)
        } else if c == 'd' {
            Some(Action::Discard)
        } else if c == 'u' {
            Some(Action::Unstage)
        } else {
            None
        },
        KeyCode::Tab => Some(Action::SwitchView),
        KeyCode::Down => Some(Action::MoveNext),
        KeyCode::Up => Some(Action::MovePrevious),
        KeyCode::Left => Some(Action::ClearSelection),
        _ => None,
    }
}

impl Action {
    /// The action bound to a key, if any.
    pub fn from_key(code: KeyCode) -> (action: Option<Action>)
        ensures
            action == action_of_key(code),
    {
        match code {
            KeyCode::Char('q') => Some(Action::Quit),
            KeyCode::Char('s') => Some(Action::Stage),
            KeyCode::Char('d') => Some(Action::Discard),
            KeyCode::Char('u') => Some(Action::Unstage),
            KeyCode::Tab => Some(Action::SwitchView),
            KeyCode::Down => Some(Action::MoveNext),
            KeyCode::Up => Some(Action::MovePrevious),
            KeyCode::Left => Some(Action::ClearSelection),
            _ => None,
        }
    }
}

} // verus!
