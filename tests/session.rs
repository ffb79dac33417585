use vex::driver::EditorEvent;
use vex::editor::state::{Mode, Outcome, State};
use vex::keyboard::Key;

fn key(state: &mut State, k: Key) -> Outcome {
    state.handle_key(k)
}

fn typed(state: &mut State, s: &str) {
    for c in s.chars() {
        key(state, Key::Char(c));
    }
}

fn session_with(text: &str) -> State {
    let mut state = State::new(80, 12);
    state.open("dir/file.txt", Some(text));
    state
}

#[test]
fn insert_then_escape() {
    let mut state = State::new(80, 24);
    state.ensure_buffer();
    key(&mut state, Key::Char('i'));
    assert_eq!(state.mode(), Mode::Insert);
    typed(&mut state, "ab");
    key(&mut state, Key::Enter);
    typed(&mut state, "c");
    key(&mut state, Key::Left);
    key(&mut state, Key::Esc);
    assert_eq!(state.mode(), Mode::Normal);
    let b = state.active().unwrap();
    assert_eq!(b.line(0), "ab");
    assert_eq!(b.line(1), "c");
    assert_eq!(b.point(), (0, 1));
    assert_eq!(b.window(), (80, 22));
    assert_eq!(b.name(), "untitled");
}

#[test]
fn counted_motion_is_made_once() {
    let mut text = String::new();
    for i in 0..30 {
        text.push_str(&format!("line {}\n", i));
    }
    let mut state = session_with(&text);
    typed(&mut state, "12j");
    let b = state.active().unwrap();
    assert_eq!(b.point(), (0, 1));
    typed(&mut state, "G");
    assert_eq!(state.active().unwrap().point(), (0, 29));
    assert_eq!(state.active().unwrap().offset(), 20);
}

#[test]
fn append_and_open_lines() {
    let mut state = session_with("abc\nxyz\n");
    key(&mut state, Key::Char('a'));
    assert_eq!(state.mode(), Mode::Insert);
    assert_eq!(state.active().unwrap().point(), (1, 0));
    key(&mut state, Key::Esc);
    key(&mut state, Key::Char('o'));
    assert_eq!(state.mode(), Mode::Insert);
    let b = state.active().unwrap();
    assert_eq!(b.line_count(), 3);
    assert_eq!(b.line(0), "ab");
    assert_eq!(b.line(1), "c");
    key(&mut state, Key::Esc);
    key(&mut state, Key::Char('O'));
    let b = state.active().unwrap();
    assert_eq!(b.line_count(), 4);
    assert_eq!(b.line(1), "");
    assert_eq!(b.line(2), "c");
    assert_eq!(b.point(), (0, 1));
}

#[test]
fn colon_write_asks_for_a_save() {
    let mut state = session_with("abc\n");
    key(&mut state, Key::Char(':'));
    assert_eq!(state.mode(), Mode::Colon);
    typed(&mut state, "w");
    assert_eq!(state.colon(), "w");
    assert_eq!(key(&mut state, Key::Enter), Outcome::Save(0));
    assert_eq!(state.mode(), Mode::Normal);
    assert_eq!(state.colon(), "");
    assert_eq!(state.buffers()[0].to_text(), "abc\n");
    assert_eq!(state.buffers()[0].path(), "dir/file.txt");
}

#[test]
fn colon_quit_closes_the_buffer() {
    let mut state = session_with("abc\n");
    state.open("other", None);
    key(&mut state, Key::Char(':'));
    typed(&mut state, "quit");
    assert_eq!(key(&mut state, Key::Enter), Outcome::Continue);
    assert_eq!(state.buffers().len(), 1);
    assert_eq!(state.active_index(), 0);
    assert_eq!(state.active().unwrap().name(), "other");
    key(&mut state, Key::Char(':'));
    typed(&mut state, "q");
    key(&mut state, Key::Enter);
    assert!(!state.is_editing());
}

#[test]
fn unknown_colon_command_and_escape_do_nothing() {
    let mut state = session_with("abc\n");
    key(&mut state, Key::Char(':'));
    typed(&mut state, "zz");
    assert_eq!(key(&mut state, Key::Enter), Outcome::Continue);
    key(&mut state, Key::Char(':'));
    typed(&mut state, "q");
    key(&mut state, Key::Esc);
    assert_eq!(state.mode(), Mode::Normal);
    assert_eq!(state.buffers().len(), 1);
}

#[test]
fn window_keys_scroll_by_the_window() {
    let mut text = String::new();
    for i in 0..50 {
        text.push_str(&format!("line {}\n", i));
    }
    let mut state = session_with(&text);
    let h = state.active().unwrap().window().1;
    assert_eq!(h, 10);
    key(&mut state, Key::Ctrl('f'));
    assert_eq!(state.active().unwrap().offset(), 8);
    key(&mut state, Key::Ctrl('u'));
    assert_eq!(state.active().unwrap().offset(), 3);
    key(&mut state, Key::Ctrl('d'));
    assert_eq!(state.active().unwrap().offset(), 8);
    key(&mut state, Key::Ctrl('b'));
    assert_eq!(state.active().unwrap().offset(), 0);
}

#[test]
fn resize_events_resize_every_buffer() {
    let mut state = session_with("a\nb\n");
    state.handle_event(EditorEvent::Resize(40, 2));
    assert_eq!(state.active().unwrap().window(), (40, 1));
    state.handle_event(EditorEvent::Resize(50, 30));
    assert_eq!(state.active().unwrap().window(), (50, 28));
    assert_eq!(state.handle_event(EditorEvent::Unsupported), Outcome::Continue);
}

#[test]
fn status_message_is_kept() {
    let mut state = State::new(80, 24);
    state.set_status(String::from("cannot open"));
    assert_eq!(state.status(), "cannot open");
    assert!(state.active().is_none());
    assert_eq!(state.get_motion(Key::Ctrl('f')), None);
}
