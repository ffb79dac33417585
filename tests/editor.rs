use vex::driver::{EditorEvent, Key};
use vex::vex_editor::{Command, Editor, HandleKey, InsertMode, Mode, MultiOption, NormalMode};

#[test]
fn new_editor() {
    let editor = Editor::new(80, 24);

    assert_eq!(editor.width(), 80);
    assert_eq!(editor.height(), 24);
}

#[test]
fn insert_mode_keys() {
    match InsertMode::handle_key(Key::Esc) {
        MultiOption::Ready(Command::Modal(Mode::Normal)) => assert!(true, "should enter normal mode"),
        _ => assert!(false, "should enter normal mode"),
    }
}

#[test]
fn normal_mode_keys() {
    match NormalMode::handle_key(Key::Char('i')) {
        MultiOption::Ready(Command::Modal(Mode::Insert)) => assert!(true, "should enter insert mode"),
        _ => assert!(false, "should enter insert mode"),
    }
}

#[test]
fn typing_in_insert_mode_fills_the_buffer() {
    let mut editor = Editor::new(80, 24);
    editor.open_empty();
    assert!(editor.is_editing());
    editor.handle_event(EditorEvent::KeyEvent(Key::Char('x')));
    assert_eq!(editor.bufs()[0].len(), 0);
    editor.handle_event(EditorEvent::KeyEvent(Key::Char('i')));
    assert_eq!(editor.mode(), Mode::Insert);
    editor.handle_event(EditorEvent::KeyEvent(Key::Char('h')));
    editor.handle_event(EditorEvent::KeyEvent(Key::Char('é')));
    editor.handle_event(EditorEvent::KeyEvent(Key::Enter));
    assert_eq!(editor.bufs()[0].iter(), "hé\n".as_bytes().to_vec());
    editor.handle_event(EditorEvent::KeyEvent(Key::Esc));
    assert_eq!(editor.mode(), Mode::Normal);
    editor.handle_event(EditorEvent::Resize(100, 30));
    assert_eq!((editor.width(), editor.height()), (100, 30));
    editor.handle_event(EditorEvent::KeyEvent(Key::Ctrl('c')));
    assert!(!editor.is_editing());
}

#[test]
fn open_reads_the_bytes_given() {
    let mut editor = Editor::new(80, 24);
    editor.open(Some(b"abc".to_vec()));
    editor.open(None);
    assert_eq!(editor.bufs().len(), 2);
    assert_eq!(editor.bufs()[0].iter(), b"abc".to_vec());
    assert_eq!(editor.bufs()[1].len(), 0);
    assert_eq!(editor.top(), 0);
}
