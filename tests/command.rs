use vex::editor::command::{Builder, BuilderResult, Column, Command, Line, Motion, Span};
use vex::editor::Coord;
use vex::keyboard::Key;

#[test]
fn builder_enter_count() {
    let mut builder = Builder::new();
    let cmd = builder.handle_key(Key::Char('1'));

    match cmd {
        BuilderResult::Pending => assert!(true),
        _ => assert!(false, "should be pending"),
    }

    let cmd = builder.handle_key(Key::Char('2'));
    match cmd {
        BuilderResult::Pending => assert!(true),
        _ => assert!(false, "should be pending"),
    }
    assert_eq!(builder.count, Some(12));
}

#[test]
fn compare_coord() {
    let a: Coord = (0, 5);
    let b: Coord = (10, 6);
    assert!(b > a);

    let a: Coord = (0, 6);
    let b: Coord = (10, 6);
    assert!(b > a);

    let a: Coord = (10, 6);
    let b: Coord = (10, 6);
    assert!(b == a);

    let a: Coord = (25, 6);
    let b: Coord = (10, 6);
    assert!(b < a);
}

#[test]
fn count_then_motion_builds_a_command() {
    let mut builder = Builder::new();
    assert_eq!(builder.handle_key(Key::Char('1')), BuilderResult::Pending);
    assert_eq!(builder.handle_key(Key::Char('2')), BuilderResult::Pending);
    assert_eq!(builder.count, Some(12));
    let r = builder.handle_key(Key::Char('j'));
    assert_eq!(
        r,
        BuilderResult::Command(Command {
            count: 12,
            span: Span::Linewise,
            motion: Motion::Goto(Column::Current, Line::Down(1)),
        })
    );
    assert_eq!(builder.count, None);
    assert_eq!(builder.handle_key(Key::Char('3')), BuilderResult::Pending);
    assert_eq!(builder.count, Some(3));
}

#[test]
fn motion_without_count_has_count_one() {
    let mut builder = Builder::new();
    let r = builder.handle_key(Key::Char('h'));
    assert_eq!(
        r,
        BuilderResult::Command(Command::goto(Span::Exclusive, Column::Left(1), Line::Current))
    );
}

#[test]
fn leading_zero_is_a_motion() {
    let mut builder = Builder::new();
    let r = builder.handle_key(Key::Char('0'));
    assert_eq!(
        r,
        BuilderResult::Command(Command::goto(Span::Exclusive, Column::Specific(0), Line::Current))
    );
    assert_eq!(builder.handle_key(Key::Char('1')), BuilderResult::Pending);
    assert_eq!(builder.handle_key(Key::Char('0')), BuilderResult::Pending);
    assert_eq!(builder.count, Some(10));
}

#[test]
fn unbound_key_is_invalid_and_drops_the_count() {
    let mut builder = Builder::new();
    assert_eq!(builder.handle_key(Key::Char('5')), BuilderResult::Pending);
    assert_eq!(builder.handle_key(Key::Char('z')), BuilderResult::Invalid);
    assert_eq!(builder.count, None);
}

#[test]
fn huge_count_is_held_at_the_maximum() {
    let mut builder = Builder::new();
    for _ in 0..30 {
        assert_eq!(builder.handle_key(Key::Char('9')), BuilderResult::Pending);
    }
    assert_eq!(builder.count, Some(usize::MAX));
}

#[test]
fn scroll_keys_are_bound() {
    let mut builder = Builder::new();
    assert_eq!(
        builder.handle_key(Key::Ctrl('e')),
        BuilderResult::Command(Command::scroll(Line::Down(1)))
    );
    assert_eq!(
        builder.handle_key(Key::Ctrl('y')),
        BuilderResult::Command(Command::scroll(Line::Up(1)))
    );
}
