use vstd::prelude::*;

use super::{insert_action, Key, Mode, ModeType};
use crate::state::Action;

verus! {

/// Navigation with the arrow keys; `Esc` goes back to Normal mode.
#[derive(Clone, Copy, Debug, PartialEq, Eq, Structural)]
pub struct InsertMode {}

impl Default for InsertMode {
    fn default() -> (m: InsertMode)
        ensures
            m == (InsertMode {}),
    {
        InsertMode {}
    }
}

impl Mode for InsertMode {
    open spec fn name(&self) -> Seq<char> {
        "INSERT"@
    }

    open spec fn action_for(&self, key: Key) -> Action {
        insert_action(key)
    }

    fn display(&self) -> (r: &'static str) {
        "INSERT"
    }

    fn keypress(&mut self, key: Key) -> (a: Action) {
        match key {
            Key::Esc => Action::SetMode(ModeType::Normal),
            Key::Left => Action::MoveLeft,
            Key::Down => Action::MoveDown,
            Key::Up => Action::MoveUp,
            Key::Right => Action::MoveRight,
            _ => Action::Noop,
        }
    }
}

} // verus!
