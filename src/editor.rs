use vstd::prelude::*;
use vstd::string::StringExecFns;

use crate::cursor::Position;
use crate::document::{lines_of, Document};
use crate::mode::{mode_name, Key};
use crate::state::{after_key, dispatched, effect_of, Action, Effect, State, StateModel};
use crate::status_bar::{status_line, status_text};

verus! {

/// The steps of the editor's main loop.
#[derive(Clone, Copy, Debug, PartialEq, Eq, Structural)]
pub enum Phase {
    /// Draw the screen.
    Render,
    /// Wait for a key and hand it to the state.
    Poll,
    /// Leave the loop.
    Exit,
}

/// The loop's next step: a poll follows each render until a quit is asked
/// for, then the loop ends; a render follows each poll.
pub open spec fn phase_after(phase: Phase, quit: bool) -> Phase {
    match phase {
        Phase::Render => if quit {
            Phase::Exit
        } else {
            Phase::Poll
        },
        Phase::Poll => Phase::Render,
        Phase::Exit => Phase::Exit,
    }
}

/// The step that follows `phase`, given the state's quit flag.
pub fn next_phase(phase: Phase, quit: bool) -> (r: Phase)
    ensures
        r == phase_after(phase, quit),
{
    match phase {
        Phase::Render => if quit {
            Phase::Exit
        } else {
            Phase::Poll
        },
        Phase::Poll => Phase::Render,
        Phase::Exit => Phase::Exit,
    }
}

/// After the poll in which a quit is asked for, the loop renders exactly
/// once more and then ends.
pub proof fn lemma_one_render_after_quit()
    ensures
        phase_after(Phase::Poll, true) == Phase::Render,
        phase_after(phase_after(Phase::Poll, true), true) == Phase::Exit,
{
}

/// The name that the status line gives a file.
pub open spec fn shown_name(filename: Option<Seq<char>>) -> Seq<char> {
    match filename {
        Some(name) => name,
        None => "[No Name]"@,
    }
}

/// An open file: its name, if it has one, and the editor state on it.
#[derive(Debug)]
pub struct Editor {
    filename: Option<String>,
    state: State,
}

impl Editor {
    /// The state of the editor.
    pub closed spec fn model(&self) -> StateModel {
        self.state@
    }

    /// The file name, if there is one.
    pub closed spec fn file(&self) -> Option<Seq<char>> {
        match self.filename {
            Some(name) => Some(name@),
            None => None,
        }
    }

    /// Opens `filename` with `contents`, the file's text where it could be
    /// read; with no contents the document is empty.
    pub fn open(filename: Option<String>, contents: Option<&str>) -> (e: Editor)
        ensures
            e.file() == (match filename {
                Some(name) => Some(name@),
                None => None::<Seq<char>>,
            }),
            e.model().lines == (match contents {
                Some(text) => lines_of(text@),
                None => Seq::<Seq<char>>::empty(),
            }),
            !e.model().quit,
            e.model().mode == crate::mode::ModeType::Normal,
            e.model().cursor == (crate::cursor::Cursor {
                position: Position { row: 0, col: 0 },
                shape: crate::cursor::CursorShape::Block,
            }),
            e.model().offset == (Position { row: 0, col: 0 }),
    {
        let mut state = State::default();
        match contents {
            Some(text) => state.set_document(Document::from_text(text)),
            None => {},
        }
        Editor { filename, state }
    }

    pub fn filename(&self) -> (r: Option<&str>)
        ensures
            r matches Some(s) ==> self.file() == Some(s@),
            r is None ==> self.file() is None,
    {
        match &self.filename {
            Some(name) => Some(name.as_str()),
            None => None,
        }
    }

    pub fn state(&self) -> (s: &State)
        ensures
            s@ == self.model(),
    {
        &self.state
    }

    /// Hands a key press to the state; see `State::keypress`.
    pub fn keypress(&mut self, key: Key, cols: u16, rows: u16, now: u64) -> (e: Effect)
        ensures
            final(self).model() == after_key(old(self).model(), key, cols, rows, now),
            final(self).file() == old(self).file(),
            e == effect_of(crate::mode::mode_action(old(self).model().mode, key)),
    {
        self.state.keypress(key, cols, rows, now)
    }

    /// Hands an action to the state; see `State::dispatch`.
    pub fn dispatch(&mut self, action: Action, now: u64) -> (e: Effect)
        ensures
            final(self).model() == dispatched(old(self).model(), action, now),
            final(self).file() == old(self).file(),
            e == effect_of(action),
    {
        self.state.dispatch(action, now)
    }

    /// The status line, `cols` characters wide where it fits.
    pub fn status_line(&self, cols: u16) -> (r: String)
        ensures
            r@ == status_text(
                mode_name(self.model().mode),
                shown_name(self.file()),
                self.model().cursor.position.row,
                self.model().cursor.position.col,
                cols as int,
            ),
    {
        let mode = self.state.get_mode().display();
        let position = self.state.get_cursor_position();
        match &self.filename {
            Some(name) => status_line(mode, name.as_str(), position.row, position.col, cols),
            None => status_line(mode, "[No Name]", position.row, position.col, cols),
        }
    }
}

} // verus!
