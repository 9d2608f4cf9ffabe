use vstd::prelude::*;

use crate::state::Action;

pub mod insert_mode;
pub mod normal_mode;

verus! {

/// A key press, as far as the modes tell keys apart.
#[derive(Clone, Copy, Debug, PartialEq, Eq, Structural)]
pub enum Key {
    Char(char),
    Esc,
    Left,
    Down,
    Up,
    Right,
    Other,
}

/// The active interpretation of key presses.
#[derive(Clone, Copy, Debug, PartialEq, Eq, Structural)]
pub enum ModeType {
    Normal,
    Insert,
}

impl Default for ModeType {
    fn default() -> (m: ModeType)
        ensures
            m == ModeType::Normal,
    {
        ModeType::Normal
    }
}

/// The action that Normal mode gives a key.
pub open spec fn normal_action(key: Key) -> Action {
    match key {
        Key::Char('q') => Action::Quit,
        Key::Char('i') => Action::SetMode(ModeType::Insert),
        Key::Char('h') => Action::MoveLeft,
        Key::Char('j') => Action::MoveDown,
        Key::Char('k') => Action::MoveUp,
        Key::Char('l') => Action::MoveRight,
        _ => Action::Noop,
    }
}

/// The action that Insert mode gives a key.
pub open spec fn insert_action(key: Key) -> Action {
    match key {
        Key::Esc => Action::SetMode(ModeType::Normal),
        Key::Left => Action::MoveLeft,
        Key::Down => Action::MoveDown,
        Key::Up => Action::MoveUp,
        Key::Right => Action::MoveRight,
        _ => Action::Noop,
    }
}

/// The name shown for a mode in the status line.
pub open spec fn mode_name(m: ModeType) -> Seq<char> {
    match m {
        ModeType::Normal => "NORMAL"@,
        ModeType::Insert => "INSERT"@,
    }
}

/// The action that mode `m` gives a key.
pub open spec fn mode_action(m: ModeType, key: Key) -> Action {
    match m {
        ModeType::Normal => normal_action(key),
        ModeType::Insert => insert_action(key),
    }
}

/// A key-press interpreter: a name and a pure map from keys to actions.
pub trait Mode: Sized {
    spec fn name(&self) -> Seq<char>;

    spec fn action_for(&self, key: Key) -> Action;

    fn display(&self) -> (r: &'static str)
        ensures
            r@ == self.name(),
    ;

    fn keypress(&mut self, key: Key) -> (a: Action)
        ensures
            a == old(self).action_for(key),
            *final(self) == *old(self),
    ;
}

impl ModeType {
    /// The name of this mode.
    pub fn display(&self) -> (r: &'static str)
        ensures
            r@ == mode_name(*self),
    {
        match self {
            ModeType::Normal => normal_mode::NormalMode {}.display(),
            ModeType::Insert => insert_mode::InsertMode {}.display(),
        }
    }

    /// The action that this mode gives `key`.
    pub fn keypress(&self, key: Key) -> (a: Action)
        ensures
            a == mode_action(*self, key),
    {
        match self {
            ModeType::Normal => {
                let mut mode = normal_mode::NormalMode {};
                mode.keypress(key)
            },
            ModeType::Insert => {
                let mut mode = insert_mode::InsertMode {};
                mode.keypress(key)
            },
        }
    }
}

} // verus!
