use vex::editor::buffer::Buffer;
use vex::editor::command::{Column, Command, Line, Span};
use vex::editor::Direction;

fn goto(s: Span, c: Column, l: Line) -> Command {
    Command::goto(s, c, l)
}

#[test]
fn new_buffer() {
    let buf = Buffer::new_empty(80, 24);
    assert_eq!(buf.point(), (0, 0));
}

#[test]
fn basic_navigation() {
    let mut buf = Buffer::new_empty(80, 24);
    assert_eq!(buf.point(), (0, 0));

    buf.next(1);
    assert_eq!(buf.point(), (0, 0));
}

#[test]
fn basic_column_nav() {
    let mut buf = Buffer::new_empty(80, 24);
    buf.load_reader(" hello world");

    let fwd = goto(Span::Exclusive, Column::Right(1), Line::Current);
    let back = goto(Span::Exclusive, Column::Left(1), Line::Current);
    let begin = goto(Span::Exclusive, Column::Begin, Line::Current);
    let end = goto(Span::Exclusive, Column::End, Line::Current);
    let zero = goto(Span::Exclusive, Column::Specific(0), Line::Current);

    buf.do_cmd(1, &fwd);
    assert_eq!(buf.point(), (1, 0));

    buf.do_cmd(1, &end);
    assert_eq!(buf.point(), (11, 0));

    buf.do_cmd(1, &back);
    assert_eq!(buf.point(), (10, 0));

    for _ in 1..5 {
        buf.do_cmd(1, &fwd);
    }
    assert_eq!(buf.point(), (12, 0));

    buf.do_cmd(1, &begin);
    assert_eq!(buf.point(), (1, 0));

    buf.do_cmd(1, &zero);
    assert_eq!(buf.point(), (0, 0));
}

fn ten_line_buffer() -> Buffer {
    let mut text = String::from("\n");
    for _ in 1..10 {
        text.push_str(" hello world this is a line\n");
    }
    let mut buf = Buffer::new_empty(80, 24);
    buf.load_reader(&text);
    buf
}

#[test]
fn basic_line_nav() {
    let mut buf = ten_line_buffer();
    assert_eq!(buf.line_count(), 10);
    let down = goto(Span::Linewise, Column::Current, Line::Down(1));
    let up = goto(Span::Linewise, Column::Current, Line::Up(1));
    let first = goto(Span::Linewise, Column::Current, Line::Specific(0));
    let fourth = goto(Span::Linewise, Column::Current, Line::Specific(3));
    let last = goto(Span::Linewise, Column::Current, Line::Last);

    buf.do_cmd(1, &down);
    assert_eq!(buf.point(), (0, 1));

    buf.do_cmd(1, &fourth);
    assert_eq!(buf.point(), (0, 3));

    buf.do_cmd(1, &up);
    assert_eq!(buf.point(), (0, 2));

    for _ in 1..10 {
        buf.do_cmd(1, &down);
    }
    assert_eq!(buf.point(), (0, 9));

    buf.do_cmd(1, &first);
    assert_eq!(buf.point(), (0, 0));

    buf.do_cmd(1, &last);
    assert_eq!(buf.point(), (0, 9));
}

#[test]
fn basic_scroll_nav() {
    let mut buf = Buffer::new_empty(80, 24);
    let mut text = String::new();
    for _ in 1..10 {
        text.push_str(" hello world this is a line");
    }
    buf.load_reader(&text);
    assert_eq!(buf.line_count(), 1);
    buf.scroll(10, Direction::Down);
    assert_eq!(buf.offset(), 0);
    assert_eq!(buf.point(), (0, 0));
    buf.do_cmd(1, &Command::scroll(Line::Down(1)));
    assert_eq!(buf.offset(), 0);
    assert_eq!(buf.point(), (0, 0));
}

#[test]
fn nine_line_navigation() {
    let mut text = String::new();
    for i in 0..9 {
        text.push_str(&format!("line {}\n", i));
    }
    let mut buf = Buffer::new_empty(80, 24);
    buf.load_reader(&text);
    let down = goto(Span::Linewise, Column::Current, Line::Down(1));
    buf.do_cmd(1, &down);
    assert_eq!(buf.point().1, 1);
    buf.do_cmd(1, &goto(Span::Linewise, Column::Current, Line::Specific(3)));
    assert_eq!(buf.point().1, 3);
    buf.do_cmd(1, &goto(Span::Linewise, Column::Current, Line::Up(1)));
    assert_eq!(buf.point().1, 2);
    for _ in 0..10 {
        buf.do_cmd(1, &down);
    }
    assert_eq!(buf.point().1, 8);
    buf.do_cmd(1, &goto(Span::Linewise, Column::Current, Line::Specific(0)));
    assert_eq!(buf.point().1, 0);
    buf.do_cmd(1, &goto(Span::Linewise, Column::Current, Line::Last));
    assert_eq!(buf.point().1, 8);
}

#[test]
fn specific_line_out_of_range_is_ignored() {
    let mut buf = ten_line_buffer();
    buf.do_cmd(1, &goto(Span::Linewise, Column::Current, Line::Specific(4)));
    buf.do_cmd(1, &goto(Span::Linewise, Column::Current, Line::Specific(500)));
    assert_eq!(buf.point(), (0, 4));
}

#[test]
fn last_line_twice_is_the_same_line() {
    let mut buf = ten_line_buffer();
    let last = goto(Span::Linewise, Column::Current, Line::Last);
    buf.do_cmd(1, &last);
    let once = buf.point();
    buf.do_cmd(1, &last);
    assert_eq!(buf.point(), once);
    assert_eq!(once.1, 9);
}

#[test]
fn begin_without_leading_blank_is_column_zero() {
    let mut buf = Buffer::new_empty(80, 24);
    buf.load_reader("hello world");
    buf.end();
    buf.do_cmd(1, &goto(Span::Exclusive, Column::Begin, Line::Current));
    assert_eq!(buf.point(), (0, 0));
}

#[test]
fn viewport_follows_one_line_at_a_time() {
    let mut text = String::new();
    for i in 0..20 {
        text.push_str(&format!("line {}\n", i));
    }
    let mut buf = Buffer::new_empty(80, 5);
    buf.load_reader(&text);
    let down = goto(Span::Linewise, Column::Current, Line::Down(1));
    for step in 1..20usize {
        let before = buf.offset();
        buf.do_cmd(1, &down);
        let (_, line) = buf.point();
        assert_eq!(line, step);
        let expected = if step > 4 { step - 4 } else { 0 };
        assert_eq!(buf.offset(), expected);
        assert!(buf.offset() - before <= 1);
        assert!(buf.offset() <= line && line <= buf.offset() + 4);
    }
}

#[test]
fn next_follows_the_cursor() {
    let mut text = String::new();
    for i in 0..20 {
        text.push_str(&format!("{}\n", i));
    }
    let mut buf = Buffer::new_empty(80, 5);
    buf.load_reader(&text);
    buf.next(4);
    assert_eq!(buf.offset(), 0);
    buf.next(1);
    assert_eq!(buf.point(), (0, 5));
    assert_eq!(buf.offset(), 1);
    buf.next(100);
    assert_eq!(buf.point(), (0, 19));
    assert_eq!(buf.offset(), 15);
    buf.prev(3);
    assert_eq!(buf.point(), (0, 16));
    assert_eq!(buf.offset(), 15);
    buf.prev(10);
    assert_eq!(buf.point(), (0, 6));
    assert_eq!(buf.offset(), 6);
}

#[test]
fn wide_characters_count_as_one_column_each() {
    let mut buf = Buffer::new_empty(80, 24);
    buf.load_reader("hello world.");
    let before = vex::editor::text::width(buf.line(0));
    buf.insert('東');
    buf.insert(' ');
    assert_eq!(buf.line(0), "東 hello world.");
    assert_eq!(vex::editor::text::width(buf.line(0)), before + 2);
    assert_eq!(buf.point(), (2, 0));
}

#[test]
fn insert_after_combined_grapheme() {
    let mut buf = Buffer::new_empty(80, 24);
    buf.load_reader("e\u{301}x");
    buf.right(1);
    assert_eq!(buf.point(), (1, 0));
    buf.insert('y');
    assert_eq!(buf.line(0), "e\u{301}yx");
    assert_eq!(buf.point(), (2, 0));
}

#[test]
fn insert_newline_splits_the_line() {
    let mut buf = Buffer::new_empty(80, 24);
    buf.load_reader("hello world");
    buf.right(5);
    buf.insert('\n');
    assert_eq!(buf.line_count(), 2);
    assert_eq!(buf.line(0), "hello");
    assert_eq!(buf.line(1), " world");
    assert_eq!(buf.point(), (0, 1));
}

#[test]
fn left_right_begin_end() {
    let mut buf = Buffer::new_empty(80, 24);
    buf.load_reader("  abc");
    buf.right(100);
    assert_eq!(buf.point(), (4, 0));
    buf.left(2);
    assert_eq!(buf.point(), (2, 0));
    buf.left(100);
    assert_eq!(buf.point(), (0, 0));
    buf.begin();
    assert_eq!(buf.point(), (2, 0));
    buf.end();
    assert_eq!(buf.point(), (4, 0));
}

#[test]
fn end_and_right_on_an_empty_line_stay_at_zero() {
    let mut buf = Buffer::new_empty(80, 24);
    buf.end();
    assert_eq!(buf.point(), (0, 0));
    buf.right(3);
    assert_eq!(buf.point(), (0, 0));
}

#[test]
fn delete_line_keeps_the_cursor_valid() {
    let mut buf = ten_line_buffer();
    buf.do_cmd(1, &goto(Span::Linewise, Column::Current, Line::Last));
    buf.delete_line(9);
    assert_eq!(buf.line_count(), 9);
    assert_eq!(buf.point().1, 8);
    buf.delete_line(0);
    assert_eq!(buf.point().1, 7);
}

#[test]
fn deleting_the_only_line_leaves_an_empty_line() {
    let mut buf = Buffer::new_empty(80, 24);
    buf.load_reader("only");
    buf.delete_line(0);
    assert_eq!(buf.line_count(), 1);
    assert_eq!(buf.line(0), "");
    assert_eq!(buf.point(), (0, 0));
}

#[test]
fn scroll_moves_the_viewport_and_resets_the_column() {
    let mut text = String::new();
    for i in 0..20 {
        text.push_str(&format!("line {}\n", i));
    }
    let mut buf = Buffer::new_empty(80, 5);
    buf.load_reader(&text);
    buf.right(3);
    buf.scroll(3, Direction::Down);
    assert_eq!(buf.offset(), 3);
    assert_eq!(buf.point(), (0, 3));
    buf.scroll(100, Direction::Down);
    assert_eq!(buf.offset(), 15);
    assert_eq!(buf.point(), (0, 15));
    buf.scroll(2, Direction::Up);
    assert_eq!(buf.offset(), 13);
    assert_eq!(buf.point(), (0, 15));
    buf.scroll(100, Direction::Up);
    assert_eq!(buf.offset(), 0);
    assert_eq!(buf.point(), (0, 4));
}

#[test]
fn page_forward_and_back() {
    let mut text = String::new();
    for i in 0..40 {
        text.push_str(&format!("line {}\n", i));
    }
    let mut buf = Buffer::new_empty(80, 10);
    buf.load_reader(&text);
    buf.page_fwd(1);
    assert_eq!(buf.offset(), 7);
    buf.page_fwd(2);
    assert_eq!(buf.offset(), 22);
    buf.page_back(1);
    assert_eq!(buf.offset(), 15);
}

#[test]
fn scroll_command_brings_the_cursor_into_view() {
    let mut text = String::new();
    for i in 0..20 {
        text.push_str(&format!("  line {}\n", i));
    }
    let mut buf = Buffer::new_empty(80, 5);
    buf.load_reader(&text);
    buf.do_cmd(1, &Command::scroll(Line::Down(6)));
    assert_eq!(buf.offset(), 6);
    assert_eq!(buf.point(), (2, 6));
    buf.do_cmd(1, &Command::scroll(Line::Up(3)));
    assert_eq!(buf.offset(), 3);
    assert_eq!(buf.point(), (2, 6));
    buf.do_cmd(1, &Command::scroll(Line::Last));
    assert_eq!(buf.offset(), 15);
}

#[test]
fn resize_keeps_the_cursor_visible() {
    let mut text = String::new();
    for i in 0..20 {
        text.push_str(&format!("{}\n", i));
    }
    let mut buf = Buffer::new_empty(80, 10);
    buf.load_reader(&text);
    buf.next(9);
    assert_eq!(buf.offset(), 0);
    buf.resize(40, 3);
    assert_eq!(buf.window(), (40, 3));
    assert_eq!(buf.offset(), 7);
    buf.resize(40, 30);
    assert_eq!(buf.offset(), 0);
}

#[test]
fn save_then_load_gives_the_same_lines() {
    let mut buf = Buffer::new_empty(80, 24);
    buf.load_reader("first\r\n\nthird\n");
    assert_eq!(buf.line_count(), 3);
    assert_eq!(buf.line(0), "first");
    let text = buf.to_text();
    assert_eq!(text, "first\n\nthird\n");
    let mut again = Buffer::new_empty(80, 24);
    again.load_reader(&text);
    assert_eq!(again.line_count(), 3);
    for i in 0..3 {
        assert_eq!(again.line(i), buf.line(i));
    }
}

#[test]
fn loading_nothing_gives_one_empty_line() {
    let mut buf = Buffer::new("dir/notes.txt", 80, 24);
    buf.load_reader("");
    assert_eq!(buf.line_count(), 1);
    assert_eq!(buf.line(0), "");
    assert_eq!(buf.name(), "notes.txt");
    assert_eq!(buf.path(), "dir/notes.txt");
}

#[test]
fn yank_del_leaves_the_buffer() {
    let mut buf = ten_line_buffer();
    buf.next(2);
    buf.yank_del(((0, 0), (3, 2)), vex::editor::Yank::YankDel);
    assert_eq!(buf.line_count(), 10);
    assert_eq!(buf.point(), (0, 2));
}

#[test]
fn wide_character_and_space_add_two_columns() {
    let line = "hello world.  this is a new line!";
    assert_eq!(line.chars().count(), 33);
    let mut buf = Buffer::new_empty(80, 24);
    buf.load_reader(line);
    let before = vex::editor::text::width(buf.line(0));
    assert_eq!(before, 33);
    buf.insert('東');
    buf.insert(' ');
    assert_eq!(vex::editor::text::width(buf.line(0)), 35);
    assert_eq!(buf.line(0).len(), line.len() + 4);
}
