use modal_editor::cursor::{Cursor, CursorShape, Position};
use modal_editor::document::Document;
use modal_editor::editor::{next_phase, Editor, Phase};
use modal_editor::mode::{Key, ModeType};
use modal_editor::state::{Action, Effect, Message, State};
use modal_editor::status_bar::{pad_between, push_decimal, status_line, StatusBar};

fn state_with(text: &str) -> State {
    let mut state = State::default();
    state.set_document(Document::from_text(text));
    state
}

fn at(state: &State) -> (usize, usize) {
    let p = state.get_cursor_position();
    (p.row, p.col)
}

#[test]
fn left_wraps_to_end_of_previous_line() {
    let mut state = state_with("abc\nxyz");
    state.dispatch(Action::MoveDown, 0);
    assert_eq!(at(&state), (1, 0));
    state.dispatch(Action::MoveLeft, 0);
    assert_eq!(at(&state), (0, 3));
}

#[test]
fn left_at_origin_stays() {
    let mut state = state_with("abc\nxyz");
    state.dispatch(Action::MoveLeft, 0);
    assert_eq!(at(&state), (0, 0));
}

#[test]
fn right_wraps_to_start_of_next_line() {
    let mut state = state_with("abc\nde\n\n");
    assert_eq!(state.get_document().len(), 3);
    for _ in 0..3 {
        state.dispatch(Action::MoveRight, 0);
    }
    assert_eq!(at(&state), (0, 3));
    state.dispatch(Action::MoveRight, 0);
    assert_eq!(at(&state), (1, 0));
}

#[test]
fn right_at_end_of_document_stays() {
    let mut state = state_with("ab");
    for _ in 0..5 {
        state.dispatch(Action::MoveRight, 0);
    }
    assert_eq!(at(&state), (1, 0));
}

#[test]
fn down_past_end_saturates() {
    let mut state = state_with("a\nb\nc");
    for _ in 0..3 {
        state.dispatch(Action::MoveDown, 0);
    }
    assert_eq!(at(&state), (3, 0));
    state.dispatch(Action::MoveDown, 0);
    assert_eq!(at(&state), (3, 0));
}

#[test]
fn up_keeps_column() {
    let mut state = state_with("ab\nwxyz");
    state.dispatch(Action::MoveDown, 0);
    for _ in 0..4 {
        state.dispatch(Action::MoveRight, 0);
    }
    assert_eq!(at(&state), (1, 4));
    state.dispatch(Action::MoveUp, 0);
    assert_eq!(at(&state), (0, 4));
    state.dispatch(Action::MoveUp, 0);
    assert_eq!(at(&state), (0, 4));
}

#[test]
fn moves_stay_in_bounds() {
    let mut state = state_with("abc\n\nde");
    let actions = [
        Action::MoveRight,
        Action::MoveRight,
        Action::MoveRight,
        Action::MoveRight,
        Action::MoveRight,
        Action::MoveLeft,
        Action::MoveRight,
        Action::MoveRight,
        Action::MoveRight,
        Action::MoveRight,
        Action::MoveRight,
        Action::MoveRight,
    ];
    for action in actions {
        state.dispatch(action, 0);
        let (row, col) = at(&state);
        assert!(row <= state.get_document().len());
        assert!(col <= state.get_document().width(row));
    }
    assert_eq!(at(&state), (3, 0));
}

#[test]
fn width_counts_characters() {
    let document = Document::from_text("h\u{e9}llo\n");
    assert_eq!(document.width(0), 5);
    assert_eq!(document.width(1), 0);
    let mut state = state_with("h\u{e9}llo\nx");
    state.dispatch(Action::MoveDown, 0);
    state.dispatch(Action::MoveLeft, 0);
    assert_eq!(at(&state), (0, 5));
}

#[test]
fn viewport_scrolls_down_minimally() {
    let text: Vec<String> = (0..20).map(|i| format!("line {}", i)).collect();
    let mut state = state_with(&text.join("\n"));
    assert_eq!(state.get_document().len(), 20);
    for _ in 0..9 {
        state.keypress(Key::Char('j'), 80, 10, 0);
    }
    assert_eq!(state.get_cursor_position().row, 9);
    assert_eq!(state.get_offset().row, 2);
}

#[test]
fn viewport_scrolls_back_up() {
    let text: Vec<String> = (0..20).map(|i| format!("{}", i)).collect();
    let mut state = state_with(&text.join("\n"));
    for _ in 0..12 {
        state.keypress(Key::Char('j'), 80, 10, 0);
    }
    assert_eq!(state.get_offset().row, 5);
    for _ in 0..7 {
        state.keypress(Key::Char('k'), 80, 10, 0);
    }
    assert_eq!(state.get_cursor_position().row, 5);
    assert_eq!(state.get_offset().row, 5);
    state.keypress(Key::Char('k'), 80, 10, 0);
    assert_eq!(state.get_offset().row, 4);
}

#[test]
fn no_scroll_while_cursor_visible() {
    let text: Vec<String> = (0..20).map(|i| format!("{}", i)).collect();
    let mut state = state_with(&text.join("\n"));
    for _ in 0..7 {
        state.keypress(Key::Char('j'), 80, 10, 0);
        assert_eq!(state.get_offset().row, 0);
    }
    state.keypress(Key::Char('j'), 80, 10, 0);
    assert_eq!(state.get_offset().row, 1);
}

#[test]
fn viewport_scrolls_right() {
    let mut state = state_with("abcdefghij");
    for _ in 0..6 {
        state.keypress(Key::Char('l'), 4, 10, 0);
    }
    assert_eq!(state.get_cursor_position().col, 6);
    assert_eq!(state.get_offset().col, 3);
    let p = state.screen_cursor();
    assert_eq!((p.row, p.col), (0, 3));
}

#[test]
fn mode_toggle_changes_name_and_shape() {
    let mut state = State::default();
    assert_eq!(state.get_mode().display(), "NORMAL");
    let effect = state.dispatch(Action::SetMode(ModeType::Insert), 0);
    assert_eq!(state.get_mode().display(), "INSERT");
    assert_eq!(effect, Effect::Shape(CursorShape::Bar));
    let effect = state.dispatch(Action::SetMode(ModeType::Normal), 0);
    assert_eq!(state.get_mode().display(), "NORMAL");
    assert_eq!(effect, Effect::Shape(CursorShape::Block));
}

#[test]
fn keys_switch_modes() {
    let mut state = State::default();
    let effect = state.keypress(Key::Char('i'), 80, 24, 0);
    assert_eq!(state.get_mode(), ModeType::Insert);
    assert_eq!(effect, Effect::Shape(CursorShape::Bar));
    state.keypress(Key::Char('i'), 80, 24, 0);
    assert_eq!(state.get_mode(), ModeType::Insert);
    state.keypress(Key::Esc, 80, 24, 0);
    assert_eq!(state.get_mode(), ModeType::Normal);
}

#[test]
fn normal_mode_key_table() {
    let normal = ModeType::Normal;
    assert!(matches!(normal.keypress(Key::Char('q')), Action::Quit));
    assert!(matches!(normal.keypress(Key::Char('i')), Action::SetMode(ModeType::Insert)));
    assert!(matches!(normal.keypress(Key::Char('h')), Action::MoveLeft));
    assert!(matches!(normal.keypress(Key::Char('j')), Action::MoveDown));
    assert!(matches!(normal.keypress(Key::Char('k')), Action::MoveUp));
    assert!(matches!(normal.keypress(Key::Char('l')), Action::MoveRight));
    assert!(matches!(normal.keypress(Key::Left), Action::Noop));
    assert!(matches!(normal.keypress(Key::Esc), Action::Noop));
    assert!(matches!(normal.keypress(Key::Char('x')), Action::Noop));
}

#[test]
fn insert_mode_key_table() {
    let insert = ModeType::Insert;
    assert!(matches!(insert.keypress(Key::Esc), Action::SetMode(ModeType::Normal)));
    assert!(matches!(insert.keypress(Key::Left), Action::MoveLeft));
    assert!(matches!(insert.keypress(Key::Down), Action::MoveDown));
    assert!(matches!(insert.keypress(Key::Up), Action::MoveUp));
    assert!(matches!(insert.keypress(Key::Right), Action::MoveRight));
    assert!(matches!(insert.keypress(Key::Char('q')), Action::Noop));
    assert!(matches!(insert.keypress(Key::Char('j')), Action::Noop));
    assert!(matches!(insert.keypress(Key::Other), Action::Noop));
}

#[test]
fn unknown_key_changes_nothing() {
    let mut state = state_with("abc");
    let effect = state.keypress(Key::Other, 80, 24, 0);
    assert_eq!(effect, Effect::Nothing);
    assert_eq!(at(&state), (0, 0));
    assert!(!state.should_quite());
}

#[test]
fn quit_sets_flag_and_loop_renders_once_more() {
    let mut state = State::default();
    assert!(!state.should_quite());
    state.keypress(Key::Char('q'), 80, 24, 0);
    assert!(state.should_quite());
    let phase = next_phase(Phase::Poll, state.should_quite());
    assert_eq!(phase, Phase::Render);
    assert_eq!(next_phase(phase, state.should_quite()), Phase::Exit);
    assert_eq!(next_phase(Phase::Render, false), Phase::Poll);
}

#[test]
fn message_expires_after_five_seconds() {
    let mut state = State::default();
    state.dispatch(Action::Message(String::from("saved")), 1000);
    let message = state.get_message();
    assert_eq!(message.text, "saved");
    assert!(message.is_shown(1000));
    assert!(message.is_shown(5999));
    assert!(!message.is_shown(6000));
    assert!(!message.is_shown(60000));
}

#[test]
fn message_text_is_cut_to_width() {
    let message = Message { text: String::from("hello world"), time: 10 };
    assert_eq!(message.visible_text(20, 5), "hello");
    assert_eq!(message.visible_text(20, 80), "hello world");
    assert_eq!(message.visible_text(5010, 80), "");
    let mut state = State::default();
    state.set_message(String::from("hi"), 7);
    assert_eq!(state.get_message().time, 7);
}

#[test]
fn effects_of_cursor_actions() {
    let mut state = State::default();
    assert_eq!(state.dispatch(Action::ShowCursor, 0), Effect::Show);
    assert_eq!(state.dispatch(Action::HideCursor, 0), Effect::Hide);
    let p = Position { row: 3, col: 4 };
    assert_eq!(state.dispatch(Action::SetCursorPosition(p), 0), Effect::MoveTo(p));
    assert_eq!(at(&state), (0, 0));
    assert_eq!(state.dispatch(Action::Noop, 0), Effect::Nothing);
}

#[test]
fn document_lines() {
    let document = Document::from_text("one\r\ntwo\n\nfour\n");
    assert_eq!(document.len(), 4);
    assert_eq!(document.row(0), Some("one"));
    assert_eq!(document.row(1), Some("two"));
    assert_eq!(document.row(2), Some(""));
    assert_eq!(document.row(3), Some("four"));
    assert_eq!(document.row(4), None);
    assert_eq!(Document::from_text("").len(), 0);
    assert_eq!(Document::empty().len(), 0);
}

#[test]
fn screen_lines_follow_offset() {
    let text: Vec<String> = (0..20).map(|i| format!("{}", i)).collect();
    let mut state = state_with(&text.join("\n"));
    for _ in 0..9 {
        state.keypress(Key::Char('j'), 80, 10, 0);
    }
    assert_eq!(state.screen_line(0), Some("2"));
    assert_eq!(state.screen_line(7), Some("9"));
    assert_eq!(state.screen_line(18), None);
    assert_eq!(state.screen_line(usize::MAX), None);
    let p = state.screen_cursor();
    assert_eq!((p.row, p.col), (7, 0));
}

#[test]
fn cursor_primitives() {
    let mut cursor = Cursor::default();
    assert_eq!(cursor.shape, CursorShape::Block);
    cursor.move_down();
    cursor.move_right();
    cursor.move_right();
    assert_eq!((cursor.position.row, cursor.position.col), (1, 2));
    cursor.move_up();
    cursor.move_left();
    assert_eq!((cursor.position.row, cursor.position.col), (0, 1));
}

#[test]
fn status_line_is_padded() {
    assert_eq!(
        status_line("NORMAL", "a.txt", 12, 3, 24),
        "[NORMAL] a.txt      12:3"
    );
    assert_eq!(status_line("INSERT", "long_name", 0, 0, 5), "[INSERT] long_name0:0");
    assert_eq!(pad_between("ab", "c", 6), "ab   c");
    let mut s = String::from("n=");
    push_decimal(&mut s, 1907);
    assert_eq!(s, "n=1907");
}

#[test]
fn editor_open_and_status() {
    let mut editor = Editor::open(Some(String::from("f.txt")), Some("ab\ncd"));
    assert_eq!(editor.filename(), Some("f.txt"));
    assert_eq!(editor.state().get_document().len(), 2);
    editor.keypress(Key::Char('j'), 80, 24, 0);
    editor.keypress(Key::Char('l'), 80, 24, 0);
    assert_eq!(editor.status_line(20), "[NORMAL] f.txt   1:1");
    let editor = Editor::open(None, None);
    assert_eq!(editor.filename(), None);
    assert_eq!(editor.state().get_document().len(), 0);
    assert_eq!(editor.status_line(22), "[NORMAL] [No Name] 0:0");
}

#[test]
fn status_bar_text_and_update() {
    let mut bar = StatusBar::new(String::from("notes"), "NORMAL");
    assert_eq!(bar.text(15), "NORMAL notes   ");
    let mut state = State::default();
    state.dispatch(Action::SetMode(ModeType::Insert), 0);
    bar.update(&state);
    assert_eq!(bar.mode, "INSERT");
    assert_eq!(bar.text(3), "INSERT notes");
}
