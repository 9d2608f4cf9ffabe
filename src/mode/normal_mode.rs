use vstd::prelude::*;

use super::{normal_action, Key, Mode, ModeType};
use crate::state::Action;

verus! {

/// Navigation with `h`, `j`, `k`, `l`; `i` enters Insert mode, `q` quits.
#[derive(Clone, Copy, Debug, PartialEq, Eq, Structural)]
pub struct NormalMode {}

impl Default for NormalMode {
    fn default() -> (m: NormalMode)
        ensures
            m == (NormalMode {}),
    {
        NormalMode {}
    }
}

impl Mode for NormalMode {
    open spec fn name(&self) -> Seq<char> {
        "NORMAL"@
    }

    open spec fn action_for(&self, key: Key) -> Action {
        normal_action(key)
    }

    fn display(&self) -> (r: &'static str) {
        "NORMAL"
    }

    fn keypress(&mut self, key: Key) -> (a: Action) {
        match key {
            Key::Char('q') => Action::Quit,
            Key::Char('i') => Action::SetMode(ModeType::Insert),
            Key::Char('h') => Action::MoveLeft,
            Key::Char('j') => Action::MoveDown,
            Key::Char('k') => Action::MoveUp,
            Key::Char('l') => Action::MoveRight,
            _ => Action::Noop,
        }
    }
}

} // verus!
