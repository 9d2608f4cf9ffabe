use vstd::prelude::*;

verus! {

/// How the terminal draws the cursor.
#[derive(Clone, Copy, Debug, PartialEq, Eq, Structural)]
pub enum CursorShape {
    Block,
    Bar,
}

impl Default for CursorShape {
    fn default() -> (s: CursorShape)
        ensures
            s == CursorShape::Block,
    {
        CursorShape::Block
    }
}

/// A zero-based (row, column) cell.
#[derive(Clone, Copy, Debug, PartialEq, Eq, Structural)]
pub struct Position {
    pub row: usize,
    pub col: usize,
}

impl Default for Position {
    fn default() -> (p: Position)
        ensures
            p == (Position { row: 0, col: 0 }),
    {
        Position { row: 0, col: 0 }
    }
}

/// The logical cursor: where it stands and how it is drawn.
#[derive(Clone, Copy, Debug, PartialEq, Eq, Structural)]
pub struct Cursor {
    pub position: Position,
    pub shape: CursorShape,
}

impl Default for Cursor {
    fn default() -> (c: Cursor)
        ensures
            c == (Cursor { position: Position { row: 0, col: 0 }, shape: CursorShape::Block }),
    {
        Cursor { position: Position::default(), shape: CursorShape::default() }
    }
}

impl Cursor {
    /// One row down.
    pub fn move_down(&mut self)
        requires
            old(self).position.row < usize::MAX,
        ensures
            final(self).position.row == old(self).position.row + 1,
            final(self).position.col == old(self).position.col,
            final(self).shape == old(self).shape,
    {
        self.position.row = self.position.row + 1;
    }

    /// One row up.
    pub fn move_up(&mut self)
        requires
            old(self).position.row > 0,
        ensures
            final(self).position.row == old(self).position.row - 1,
            final(self).position.col == old(self).position.col,
            final(self).shape == old(self).shape,
    {
        self.position.row = self.position.row - 1;
    }

    /// One column left.
    pub fn move_left(&mut self)
        requires
            old(self).position.col > 0,
        ensures
            final(self).position.col == old(self).position.col - 1,
            final(self).position.row == old(self).position.row,
            final(self).shape == old(self).shape,
    {
        self.position.col = self.position.col - 1;
    }

    /// One column right.
    pub fn move_right(&mut self)
        requires
            old(self).position.col < usize::MAX,
        ensures
            final(self).position.col == old(self).position.col + 1,
            final(self).position.row == old(self).position.row,
            final(self).shape == old(self).shape,
    {
        self.position.col = self.position.col + 1;
    }
}

} // verus!
