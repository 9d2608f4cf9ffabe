use vstd::prelude::*;
use vstd::string::{StrSliceExecFns, StringExecFns};

pub use crate::cursor::Position;
use crate::cursor::{Cursor, CursorShape};
use crate::document::{line_at, width_of, Document};
use crate::mode::{mode_action, mode_name, Key, ModeType};

verus! {

/// How long a status message stays on screen, in milliseconds.
pub const MESSAGE_LIFETIME_MS: u64 = 5000;

/// Terminal rows taken by the status line and the message line.
pub const RESERVED_ROWS: u16 = 2;

/// What a key press asks the editor to do.
#[derive(Debug)]
pub enum Action {
    MoveUp,
    MoveDown,
    MoveRight,
    MoveLeft,
    ShowCursor,
    HideCursor,
    SetCursorPosition(Position),
    SetMode(ModeType),
    Message(String),
    Quit,
    Noop,
}

/// What the terminal has to be told after a dispatch.
#[derive(Clone, Copy, Debug, PartialEq, Eq, Structural)]
pub enum Effect {
    Nothing,
    Show,
    Hide,
    MoveTo(Position),
    Shape(CursorShape),
}

/// A status message and the time, in milliseconds, at which it was set.
#[derive(Debug)]
pub struct Message {
    pub text: String,
    pub time: u64,
}

/// A message set at `time` is shown at `now` while less than five seconds
/// have passed (a clock that went back counts as no time passed).
pub open spec fn message_shown(time: u64, now: u64) -> bool {
    now - time < MESSAGE_LIFETIME_MS
}

impl Default for Message {
    fn default() -> (m: Message)
        ensures
            m.text@ == " "@,
            m.time == 0,
    {
        Message { text: String::from_str(" "), time: 0 }
    }
}

impl Message {
    /// Whether the message is still on screen at `now`.
    pub fn is_shown(&self, now: u64) -> (r: bool)
        ensures
            r == message_shown(self.time, now),
    {
        now < self.time || now - self.time < MESSAGE_LIFETIME_MS
    }

    /// The text for a message line `cols` characters wide at `now`: the
    /// message cut to the width while it is shown, else nothing.
    pub fn visible_text(&self, now: u64, cols: u16) -> (r: String)
        ensures
            message_shown(self.time, now) ==> r@ == self.text@.take(
                if self.text@.len() < cols { self.text@.len() as int } else { cols as int },
            ),
            !message_shown(self.time, now) ==> r@ == Seq::<char>::empty(),
    {
        if self.is_shown(now) {
            let len = self.text.as_str().unicode_len();
            let end = if len < cols as usize {
                len
            } else {
                cols as usize
            };
            let cut = self.text.as_str().substring_char(0, end);
            assert(cut@ =~= self.text@.take(end as int));
            String::from_str(cut)
        } else {
            String::new()
        }
    }
}

/// How the cursor is drawn in a mode.
pub open spec fn shape_of(m: ModeType) -> CursorShape {
    match m {
        ModeType::Normal => CursorShape::Block,
        ModeType::Insert => CursorShape::Bar,
    }
}

/// Whether `p` lies in the document: on a line or on the row after the last,
/// and at most one column past the line's last character.
pub open spec fn in_bounds(lines: Seq<Seq<char>>, p: Position) -> bool {
    &&& p.row <= lines.len()
    &&& p.col <= width_of(lines, p.row as int)
}

/// Where a movement action takes the cursor; other actions leave it.
pub open spec fn move_step(lines: Seq<Seq<char>>, p: Position, a: Action) -> Position {
    let height = lines.len();
    let width = width_of(lines, p.row as int);
    match a {
        Action::MoveUp => if p.row > 0 {
            Position { row: (p.row - 1) as usize, col: p.col }
        } else {
            p
        },
        Action::MoveDown => if p.row + 1 <= height {
            Position { row: (p.row + 1) as usize, col: p.col }
        } else {
            p
        },
        Action::MoveLeft => if p.col > 0 {
            Position { row: p.row, col: (p.col - 1) as usize }
        } else if p.row > 0 {
            Position { row: (p.row - 1) as usize, col: width_of(lines, p.row - 1) as usize }
        } else {
            p
        },
        Action::MoveRight => if p.col < width {
            Position { row: p.row, col: (p.col + 1) as usize }
        } else if p.row < height {
            Position { row: (p.row + 1) as usize, col: 0 }
        } else {
            p
        },
        _ => p,
    }
}

/// The rows of the terminal left for text.
pub open spec fn visible_rows(rows: u16) -> int {
    if rows >= RESERVED_ROWS {
        rows - RESERVED_ROWS
    } else {
        0
    }
}

/// The least move of a viewport start `off`, `visible` cells wide, that
/// brings `pos` into view; with no cell visible the viewport starts at `pos`.
pub open spec fn scroll_axis(pos: usize, off: usize, visible: int) -> usize {
    if pos < off {
        pos
    } else if pos >= off + visible {
        if visible <= 0 {
            pos
        } else {
            (pos - visible + 1) as usize
        }
    } else {
        off
    }
}

/// The viewport after scrolling to show `cursor` in a `cols` by `rows` terminal.
pub open spec fn scrolled_offset(cursor: Position, offset: Position, cols: u16, rows: u16) -> Position {
    Position {
        row: scroll_axis(cursor.row, offset.row, visible_rows(rows)),
        col: scroll_axis(cursor.col, offset.col, cols as int),
    }
}

/// The editor state as the contracts see it.
pub struct StateModel {
    pub quit: bool,
    pub lines: Seq<Seq<char>>,
    pub mode: ModeType,
    pub cursor: Cursor,
    pub offset: Position,
    pub message: Seq<char>,
    pub message_time: u64,
}

/// The state after dispatching `a` at time `now`.
pub open spec fn dispatched(m: StateModel, a: Action, now: u64) -> StateModel {
    match a {
        Action::MoveUp | Action::MoveDown | Action::MoveLeft | Action::MoveRight => StateModel {
            cursor: Cursor { position: move_step(m.lines, m.cursor.position, a), ..m.cursor },
            ..m
        },
        Action::SetMode(mode) => StateModel {
            mode,
            cursor: Cursor { shape: shape_of(mode), ..m.cursor },
            ..m
        },
        Action::Message(text) => StateModel { message: text@, message_time: now, ..m },
        Action::Quit => StateModel { quit: true, ..m },
        _ => m,
    }
}

/// What the terminal must be told after dispatching `a`.
pub open spec fn effect_of(a: Action) -> Effect {
    match a {
        Action::ShowCursor => Effect::Show,
        Action::HideCursor => Effect::Hide,
        Action::SetCursorPosition(p) => Effect::MoveTo(p),
        Action::SetMode(mode) => Effect::Shape(shape_of(mode)),
        _ => Effect::Nothing,
    }
}

/// The state after scrolling the viewport to the cursor.
pub open spec fn scrolled(m: StateModel, cols: u16, rows: u16) -> StateModel {
    StateModel { offset: scrolled_offset(m.cursor.position, m.offset, cols, rows), ..m }
}

/// The state after a key press: the active mode's action, then a scroll.
pub open spec fn after_key(m: StateModel, key: Key, cols: u16, rows: u16, now: u64) -> StateModel {
    scrolled(dispatched(m, mode_action(m.mode, key), now), cols, rows)
}

/// The state's invariant: the cursor's row lies on a line of the document or
/// on the row just after the last. (Its column may lie past the end of the
/// line after an up or down move, which keeps the column.)
pub open spec fn well_formed(m: StateModel) -> bool {
    m.cursor.position.row <= m.lines.len()
}

/// Whether the cursor lies inside the viewport of a `cols` by `rows` terminal.
pub open spec fn cursor_visible(m: StateModel, cols: u16, rows: u16) -> bool {
    let p = m.cursor.position;
    &&& m.offset.row <= p.row < m.offset.row + visible_rows(rows)
    &&& m.offset.col <= p.col < m.offset.col + cols
}

/// The cursor after a sequence of actions, from `p`.
pub open spec fn apply_moves(lines: Seq<Seq<char>>, p: Position, actions: Seq<Action>) -> Position
    decreases actions.len(),
{
    if actions.len() == 0 {
        p
    } else {
        apply_moves(lines, move_step(lines, p, actions[0]), actions.drop_first())
    }
}

/// Whether an action moves the cursor to another row without wrapping.
pub open spec fn is_vertical(a: Action) -> bool {
    a is MoveUp || a is MoveDown
}

/// A single step keeps the row within `[0, line count]`; one that is not an
/// up or down move also keeps the column within the row's width.
pub proof fn lemma_move_step_bounds(lines: Seq<Seq<char>>, p: Position, a: Action)
    requires
        in_bounds(lines, p),
    ensures
        move_step(lines, p, a).row <= lines.len(),
        !is_vertical(a) ==> in_bounds(lines, move_step(lines, p, a)),
{
}

/// Any sequence of moves keeps the cursor's row within `[0, line count]`; a
/// sequence with no up or down move also keeps its column within
/// `[0, width(row)]`. (Up and down keep the column as it is, which may lie
/// past the end of a shorter line.)
pub proof fn lemma_moves_stay_in_bounds(lines: Seq<Seq<char>>, p: Position, actions: Seq<Action>)
    requires
        in_bounds(lines, p),
    ensures
        apply_moves(lines, p, actions).row <= lines.len(),
        (forall|i: int| 0 <= i < actions.len() ==> !is_vertical(#[trigger] actions[i]))
            ==> in_bounds(lines, apply_moves(lines, p, actions)),
    decreases actions.len(),
{
    if actions.len() > 0 {
        let q = move_step(lines, p, actions[0]);
        lemma_move_step_bounds(lines, p, actions[0]);
        if q.col <= width_of(lines, q.row as int) {
            lemma_moves_stay_in_bounds(lines, q, actions.drop_first());
            if forall|i: int| 0 <= i < actions.len() ==> !is_vertical(#[trigger] actions[i]) {
                assert forall|i: int| 0 <= i < actions.drop_first().len() implies !is_vertical(
                    #[trigger] actions.drop_first()[i],
                ) by {
                    assert(actions.drop_first()[i] == actions[i + 1]);
                }
            }
        } else {
            lemma_rows_stay_in_bounds(lines, q, actions.drop_first());
        }
    }
}

/// Any sequence of moves from a row within `[0, line count]` stays there.
pub proof fn lemma_rows_stay_in_bounds(lines: Seq<Seq<char>>, p: Position, actions: Seq<Action>)
    requires
        p.row <= lines.len(),
    ensures
        apply_moves(lines, p, actions).row <= lines.len(),
    decreases actions.len(),
{
    if actions.len() > 0 {
        lemma_rows_stay_in_bounds(lines, move_step(lines, p, actions[0]), actions.drop_first());
    }
}

/// A move down from the row after the last line leaves the cursor where it is.
pub proof fn lemma_down_past_end(lines: Seq<Seq<char>>, col: usize)
    requires
        lines.len() <= usize::MAX,
    ensures
        ({
            let p = Position { row: lines.len() as usize, col };
            move_step(lines, p, Action::MoveDown) == p
        }),
{
}

/// A key press after which the cursor still lies in the rows shown before
/// does not scroll vertically; likewise for columns.
pub proof fn lemma_minimal_scroll(m: StateModel, key: Key, cols: u16, rows: u16, now: u64)
    ensures
        ({
            let p = dispatched(m, mode_action(m.mode, key), now).cursor.position;
            m.offset.row <= p.row < m.offset.row + visible_rows(rows)
                ==> after_key(m, key, cols, rows, now).offset.row == m.offset.row
        }),
        ({
            let p = dispatched(m, mode_action(m.mode, key), now).cursor.position;
            m.offset.col <= p.col < m.offset.col + cols
                ==> after_key(m, key, cols, rows, now).offset.col == m.offset.col
        }),
{
}

/// Entering Insert mode shows "INSERT" and a bar cursor; going back to
/// Normal mode shows "NORMAL" and a block cursor, and changes nothing else.
pub proof fn lemma_mode_toggle(m: StateModel, now: u64)
    ensures
        ({
            let i = dispatched(m, Action::SetMode(ModeType::Insert), now);
            let n = dispatched(i, Action::SetMode(ModeType::Normal), now);
            &&& mode_name(i.mode) == "INSERT"@
            &&& i.cursor.shape == CursorShape::Bar
            &&& mode_name(n.mode) == "NORMAL"@
            &&& n.cursor.shape == CursorShape::Block
            &&& n == (StateModel {
                mode: ModeType::Normal,
                cursor: Cursor { shape: CursorShape::Block, ..m.cursor },
                ..m
            })
        }),
{
}

/// Dispatching `Quit` sets the quit flag and changes nothing else.
pub proof fn lemma_quit_sets_flag(m: StateModel, now: u64)
    ensures
        dispatched(m, Action::Quit, now) == (StateModel { quit: true, ..m }),
        dispatched(m, Action::Quit, now).quit,
{
}

/// The editor: document, cursor, mode, viewport, message and quit flag.
#[derive(Debug)]
pub struct State {
    quit: bool,
    document: Document,
    mode_type: ModeType,
    cursor: Cursor,
    offset: Position,
    message: Message,
}

impl View for State {
    type V = StateModel;

    closed spec fn view(&self) -> StateModel {
        StateModel {
            quit: self.quit,
            lines: self.document@,
            mode: self.mode_type,
            cursor: self.cursor,
            offset: self.offset,
            message: self.message.text@,
            message_time: self.message.time,
        }
    }
}

impl Default for State {
    fn default() -> (s: State)
        ensures
            !s@.quit,
            s@.lines == Seq::<Seq<char>>::empty(),
            s@.mode == ModeType::Normal,
            s@.cursor == (Cursor { position: Position { row: 0, col: 0 }, shape: CursorShape::Block }),
            s@.offset == (Position { row: 0, col: 0 }),
            s@.message == " "@,
            s@.message_time == 0,
            well_formed(s@),
    {
        State {
            quit: false,
            document: Document::empty(),
            mode_type: ModeType::default(),
            cursor: Cursor::default(),
            offset: Position::default(),
            message: Message::default(),
        }
    }
}

impl State {
    /// Whether a quit was asked for.
    pub fn should_quite(&self) -> (r: bool)
        ensures
            r == self@.quit,
    {
        self.quit
    }

    pub fn get_document(&self) -> (d: &Document)
        ensures
            d@ == self@.lines,
    {
        &self.document
    }

    /// Replaces the document; the cursor and the viewport stay where they are.
    pub fn set_document(&mut self, document: Document)
        ensures
            final(self)@ == (StateModel { lines: document@, ..old(self)@ }),
    {
        self.document = document;
    }

    pub fn get_mode(&self) -> (m: ModeType)
        ensures
            m == self@.mode,
    {
        self.mode_type
    }

    /// Switches mode; the cursor takes the mode's shape, which the returned
    /// effect hands on to the terminal.
    pub fn set_mode(&mut self, mode_type: ModeType) -> (e: Effect)
        ensures
            final(self)@ == dispatched(old(self)@, Action::SetMode(mode_type), 0),
            e == effect_of(Action::SetMode(mode_type)),
    {
        self.mode_type = mode_type;
        let shape = match mode_type {
            ModeType::Normal => CursorShape::Block,
            ModeType::Insert => CursorShape::Bar,
        };
        self.cursor.shape = shape;
        Effect::Shape(shape)
    }

    pub fn get_message(&self) -> (m: &Message)
        ensures
            m.text@ == self@.message,
            m.time == self@.message_time,
    {
        &self.message
    }

    /// Replaces the message, stamped with `now`.
    pub fn set_message(&mut self, text: String, now: u64)
        ensures
            final(self)@ == (StateModel { message: text@, message_time: now, ..old(self)@ }),
    {
        self.message = Message { text, time: now };
    }

    pub fn get_cursor_position(&self) -> (p: &Position)
        ensures
            *p == self@.cursor.position,
    {
        &self.cursor.position
    }

    pub fn get_offset(&self) -> (p: &Position)
        ensures
            *p == self@.offset,
    {
        &self.offset
    }

    /// Where the cursor stands on screen: its position less the viewport's
    /// start, or 0 where the viewport starts past it.
    pub fn screen_cursor(&self) -> (p: Position)
        ensures
            p.row == (if self@.offset.row <= self@.cursor.position.row {
                self@.cursor.position.row - self@.offset.row
            } else {
                0
            }),
            p.col == (if self@.offset.col <= self@.cursor.position.col {
                self@.cursor.position.col - self@.offset.col
            } else {
                0
            }),
    {
        let p = self.cursor.position;
        Position {
            row: if self.offset.row <= p.row {
                p.row - self.offset.row
            } else {
                0
            },
            col: if self.offset.col <= p.col {
                p.col - self.offset.col
            } else {
                0
            },
        }
    }

    /// The document line shown on screen line `index`, if any.
    pub fn screen_line(&self, index: usize) -> (r: Option<&str>)
        ensures
            r matches Some(s) ==> line_at(self@.lines, self@.offset.row + index) == Some(s@),
            r is None ==> line_at(self@.lines, self@.offset.row + index) is None,
    {
        if index < self.document.len() && self.offset.row < self.document.len() - index {
            self.document.row(self.offset.row + index)
        } else {
            None
        }
    }

    /// Lets the active mode interpret `key`, dispatches its action, and
    /// scrolls a `cols` by `rows` terminal's viewport to the cursor.
    pub fn keypress(&mut self, key: Key, cols: u16, rows: u16, now: u64) -> (e: Effect)
        ensures
            final(self)@ == after_key(old(self)@, key, cols, rows, now),
            e == effect_of(mode_action(old(self)@.mode, key)),
            rows > RESERVED_ROWS && cols > 0 ==> cursor_visible(final(self)@, cols, rows),
            well_formed(old(self)@) ==> well_formed(final(self)@),
    {
        let action = self.mode_type.keypress(key);
        let e = self.dispatch(action, now);
        self.scroll(cols, rows);
        e
    }

    /// Applies `action` at time `now`, and returns what the terminal must be told.
    pub fn dispatch(&mut self, action: Action, now: u64) -> (e: Effect)
        ensures
            final(self)@ == dispatched(old(self)@, action, now),
            e == effect_of(action),
            well_formed(old(self)@) ==> well_formed(final(self)@),
    {
        match action {
            Action::MoveUp | Action::MoveDown | Action::MoveLeft | Action::MoveRight => {
                self.move_cursor(&action);
                Effect::Nothing
            },
            Action::ShowCursor => Effect::Show,
            Action::HideCursor => Effect::Hide,
            Action::SetCursorPosition(position) => Effect::MoveTo(position),
            Action::SetMode(mode_type) => self.set_mode(mode_type),
            Action::Message(text) => {
                self.set_message(text, now);
                Effect::Nothing
            },
            Action::Quit => {
                self.quit = true;
                Effect::Nothing
            },
            Action::Noop => Effect::Nothing,
        }
    }

    fn move_cursor(&mut self, action: &Action)
        ensures
            final(self)@ == (StateModel {
                cursor: Cursor {
                    position: move_step(old(self)@.lines, old(self)@.cursor.position, *action),
                    ..old(self)@.cursor
                },
                ..old(self)@
            }),
    {
        let mut row = self.cursor.position.row;
        let mut col = self.cursor.position.col;
        let height = self.document.len();
        let width = self.document.width(row);
        match action {
            Action::MoveUp => {
                if row > 0 {
                    row = row - 1;
                }
            },
            Action::MoveDown => {
                if row < height {
                    row = row + 1;
                }
            },
            Action::MoveLeft => {
                if col > 0 {
                    col = col - 1;
                } else if row > 0 {
                    row = row - 1;
                    col = self.document.width(row);
                }
            },
            Action::MoveRight => {
                if col < width {
                    col = col + 1;
                } else if row < height {
                    row = row + 1;
                    col = 0;
                }
            },
            _ => {},
        }
        self.cursor.position = Position { row, col };
    }

    fn scroll(&mut self, cols: u16, rows: u16)
        ensures
            final(self)@ == scrolled(old(self)@, cols, rows),
    {
        let row = self.cursor.position.row;
        let col = self.cursor.position.col;
        let visible = if rows >= RESERVED_ROWS {
            rows - RESERVED_ROWS
        } else {
            0
        };
        self.offset = Position {
            row: scroll_to(row, self.offset.row, visible as usize),
            col: scroll_to(col, self.offset.col, cols as usize),
        };
    }
}

/// One axis of the scroll: the new viewport start.
fn scroll_to(pos: usize, off: usize, visible: usize) -> (r: usize)
    ensures
        r == scroll_axis(pos, off, visible as int),
{
    if pos < off {
        pos
    } else if pos - off >= visible {
        if visible == 0 {
            pos
        } else {
            pos - visible + 1
        }
    } else {
        off
    }
}

} // verus!
