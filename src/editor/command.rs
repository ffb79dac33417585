//! Motions, commands, and the incremental `[count]motion` grammar.
use crate::keyboard::Key;
use vstd::prelude::*;

verus! {

/// How a motion varies the column: not at all, relatively, to a given
/// column, or to a conceptual one (`Begin` is the first non-blank grapheme,
/// `End` the last grapheme; column 0 is `Specific(0)`).
#[derive(Debug, Clone, Copy, PartialEq, Eq, Structural)]
pub enum Column {
    Current,
    Left(usize),
    Right(usize),
    Specific(usize),
    Begin,
    End,
}

/// How a motion varies the line.
#[derive(Debug, Clone, Copy, PartialEq, Eq, Structural)]
pub enum Line {
    Current,
    Up(usize),
    Down(usize),
    Specific(usize),
    Last,
}

/// How an operator would combine with the end point of a motion.
#[derive(Debug, Clone, Copy, PartialEq, Eq, Structural)]
pub enum Span {
    Inclusive,
    Exclusive,
    Linewise,
}

/// Where the cursor, or the viewport, should move.
#[derive(Debug, Clone, Copy, PartialEq, Eq, Structural)]
pub enum Motion {
    Goto(Column, Line),
    Scroll(Line),
}

/// An operator that acts on the text a motion covers.
pub enum Operator {
    Delete,
    Insert,
}

/// What a key may stand for in the grammar.
pub enum Action {
    Operator(Operator),
    Motion(Motion),
}

/// The kind of a text object, with the anchor it is measured from.
pub enum Kind {
    Char,
    Line(Anchor),
    Word(Anchor),
    Paragraph(Anchor),
}

/// Where, relative to a text object, a motion lands.
pub enum Anchor {
    Before,
    Start,
    End,
    After,
    Same,
}

/// A text object: its kind and how far away it is.
pub struct TextObject {
    pub kind: Kind,
    pub offset: Offset,
}

/// The distance to a text object.
pub enum Offset {
    Absolute(usize),
    Backward(usize),
    Forward(usize),
}

/// A complete command: a motion, how an operator would span it, and how
/// many times it was asked for.
#[derive(Debug, Clone, Copy, PartialEq, Eq, Structural)]
pub struct Command {
    pub count: usize,
    pub span: Span,
    pub motion: Motion,
}

impl Command {
    /// A single cursor motion.
    pub fn goto(s: Span, c: Column, l: Line) -> (r: Command)
        ensures
            r == (Command { count: 1, span: s, motion: Motion::Goto(c, l) }),
    {
        Command { count: 1, span: s, motion: Motion::Goto(c, l) }
    }

    /// A single linewise viewport motion.
    pub fn scroll(l: Line) -> (r: Command)
        ensures
            r == (Command { count: 1, span: Span::Linewise, motion: Motion::Scroll(l) }),
    {
        Command { count: 1, span: Span::Linewise, motion: Motion::Scroll(l) }
    }
}

/// The motion bound to a key by the fixed key table, with a count of 1.
pub open spec fn key_command(key: Key) -> Option<Command> {
    match key {
        Key::Ctrl('h') | Key::Char('h') | Key::Left => Some(
            Command { count: 1, span: Span::Exclusive, motion: Motion::Goto(Column::Left(1), Line::Current) },
        ),
        Key::Ctrl('j') | Key::Char('j') | Key::Down => Some(
            Command { count: 1, span: Span::Linewise, motion: Motion::Goto(Column::Current, Line::Down(1)) },
        ),
        Key::Ctrl('p') | Key::Char('k') | Key::Up => Some(
            Command { count: 1, span: Span::Linewise, motion: Motion::Goto(Column::Current, Line::Up(1)) },
        ),
        Key::Char(' ') | Key::Char('l') | Key::Right => Some(
            Command { count: 1, span: Span::Exclusive, motion: Motion::Goto(Column::Right(1), Line::Current) },
        ),
        Key::Char('0') => Some(
            Command { count: 1, span: Span::Exclusive, motion: Motion::Goto(Column::Specific(0), Line::Current) },
        ),
        Key::Char('^') => Some(
            Command { count: 1, span: Span::Exclusive, motion: Motion::Goto(Column::Begin, Line::Current) },
        ),
        Key::Char('$') => Some(
            Command { count: 1, span: Span::Exclusive, motion: Motion::Goto(Column::End, Line::Current) },
        ),
        Key::Char('G') => Some(
            Command { count: 1, span: Span::Linewise, motion: Motion::Goto(Column::Current, Line::Last) },
        ),
        Key::Char('+') | Key::Char('m') => Some(
            Command { count: 1, span: Span::Exclusive, motion: Motion::Goto(Column::Begin, Line::Down(1)) },
        ),
        Key::Char('-') => Some(
            Command { count: 1, span: Span::Exclusive, motion: Motion::Goto(Column::Begin, Line::Up(1)) },
        ),
        Key::Ctrl('e') => Some(
            Command { count: 1, span: Span::Linewise, motion: Motion::Scroll(Line::Down(1)) },
        ),
        Key::Ctrl('y') => Some(
            Command { count: 1, span: Span::Linewise, motion: Motion::Scroll(Line::Up(1)) },
        ),
        _ => None,
    }
}

/// The value of a decimal digit.
pub open spec fn digit_value(c: char) -> nat {
    (c as u32 - '0' as u32) as nat
}

/// Whether a key extends the pending count: a digit, except a leading `0`,
/// which is the motion to column 0.
pub open spec fn extends_count(count: Option<usize>, key: Key) -> bool {
    match key {
        Key::Char(c) => '0' <= c <= '9' && (c != '0' || count is Some),
        _ => false,
    }
}

/// The pending count once digit `d` is appended, held at `usize::MAX` once
/// it grows past it.
pub open spec fn appended_count(count: Option<usize>, d: nat) -> usize {
    match count {
        None => d as usize,
        Some(n) => if n * 10 + d <= usize::MAX {
            (n * 10 + d) as usize
        } else {
            usize::MAX
        },
    }
}

/// What the grammar answers to one key.
#[derive(Debug, Clone, Copy, PartialEq, Eq, Structural)]
pub enum BuilderResult {
    Invalid,
    Pending,
    Command(Command),
}

/// The incremental command grammar: a repeat count accumulated over digit
/// keys, then a key that names a motion. A key that names nothing is
/// rejected, and the pending count is dropped with it.
pub struct Builder {
    pub count: Option<usize>,
}

impl Builder {
    /// A grammar with no pending count.
    pub fn new() -> (r: Builder)
        ensures
            r.count is None,
    {
        Builder { count: None }
    }

    /// Feeds one key to the grammar.
    pub fn handle_key(&mut self, key: Key) -> (r: BuilderResult)
        ensures
            extends_count(old(self).count, key) ==> {
                &&& r == BuilderResult::Pending
                &&& final(self).count == Some(
                    appended_count(old(self).count, digit_value(key->Char_0)),
                )
            },
            !extends_count(old(self).count, key) ==> {
                &&& final(self).count is None
                &&& r == match key_command(key) {
                    Some(cmd) => BuilderResult::Command(
                        Command {
                            count: match old(self).count {
                                Some(n) => n,
                                None => 1,
                            },
                            ..cmd
                        },
                    ),
                    None => BuilderResult::Invalid,
                }
            },
    {
        if let Key::Char(c) = key {
            if '0' <= c && c <= '9' && (c != '0' || self.count.is_some()) {
                let d = (c as u32 - '0' as u32) as usize;
                self.count = match self.count {
                    None => Some(d),
                    Some(n) => if n <= (usize::MAX - d) / 10 {
                        Some(n * 10 + d)
                    } else {
                        Some(usize::MAX)
                    },
                };
                return BuilderResult::Pending;
            }
        }
        match self.lookup_key(key) {
            Some(cmd) => BuilderResult::Command(self.build_cmd(cmd)),
            None => {
                self.count = None;
                BuilderResult::Invalid
            },
        }
    }

    /// Completes a command from the pending count (1 when none was given)
    /// and clears the count.
    fn build_cmd(&mut self, cmd: Command) -> (r: Command)
        ensures
            r == (Command {
                count: match old(self).count {
                    Some(n) => n,
                    None => 1,
                },
                ..cmd
            }),
            final(self).count is None,
    {
        let count = match self.count {
            Some(n) => n,
            None => 1,
        };
        self.count = None;
        Command { count, span: cmd.span, motion: cmd.motion }
    }

    /// The motion a key names in the fixed key table.
    pub(crate) fn lookup_key(&self, key: Key) -> (r: Option<Command>)
        ensures
            r == key_command(key),
    {
        match key {
            Key::Ctrl('h') | Key::Char('h') | Key::Left => Some(
                Command::goto(Span::Exclusive, Column::Left(1), Line::Current),
            ),
            Key::Ctrl('j') | Key::Char('j') | Key::Down => Some(
                Command::goto(Span::Linewise, Column::Current, Line::Down(1)),
            ),
            Key::Ctrl('p') | Key::Char('k') | Key::Up => Some(
                Command::goto(Span::Linewise, Column::Current, Line::Up(1)),
            ),
            Key::Char(' ') | Key::Char('l') | Key::Right => Some(
                Command::goto(Span::Exclusive, Column::Right(1), Line::Current),
            ),
            Key::Char('0') => Some(Command::goto(Span::Exclusive, Column::Specific(0), Line::Current)),
            Key::Char('^') => Some(Command::goto(Span::Exclusive, Column::Begin, Line::Current)),
            Key::Char('$') => Some(Command::goto(Span::Exclusive, Column::End, Line::Current)),
            Key::Char('G') => Some(Command::goto(Span::Linewise, Column::Current, Line::Last)),
            Key::Char('+') | Key::Char('m') => Some(
                Command::goto(Span::Exclusive, Column::Begin, Line::Down(1)),
            ),
            Key::Char('-') => Some(Command::goto(Span::Exclusive, Column::Begin, Line::Up(1))),
            Key::Ctrl('e') => Some(Command::scroll(Line::Down(1))),
            Key::Ctrl('y') => Some(Command::scroll(Line::Up(1))),
            _ => None,
        }
    }
}

} // verus!
