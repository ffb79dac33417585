//! A buffer of lines with a cursor and a viewport onto a window of the
//! terminal.
use crate::editor::command::{Column, Command, Line, Motion};
use crate::editor::text::{
    column_offset, column_start, file_name, file_name_of, first_non_blank,
    first_non_blank_column, first_non_blank_from, insert_char, is_single_line, join_lines,
    join_text, last_column, lemma_split_join, prefix, split_lines, split_text, strip_cr, suffix,
    width, width_of,
};
use crate::editor::{Coord, Direction, Range, Yank};
use vstd::prelude::*;

verus! {

/// The largest offset at which the viewport still ends on or before the last
/// line: `max(0, n - h)` for `n` lines and a window `h` lines high.
pub open spec fn max_offset(n: nat, h: nat) -> nat {
    if n > h {
        (n - h) as nat
    } else {
        0
    }
}

/// `a - b`, or 0 when `b` is larger.
pub open spec fn sat_sub(a: nat, b: nat) -> nat {
    if a >= b {
        (a - b) as nat
    } else {
        0
    }
}

/// The smaller of two numbers.
pub open spec fn at_most(a: nat, b: nat) -> nat {
    if a <= b {
        a
    } else {
        b
    }
}

/// The offset nearest to `offset` that shows line `line` in a window `h`
/// lines high.
pub open spec fn follow(line: nat, offset: nat, h: nat) -> nat {
    if line < offset {
        line
    } else if line > offset + h - 1 {
        (line - (h - 1)) as nat
    } else {
        offset
    }
}

/// The offset nearest to `offset` that shows line `line` of `n` lines in a
/// window `h` lines high, without scrolling past the last line.
pub open spec fn fit_offset(line: nat, offset: nat, h: nat, n: nat) -> nat {
    at_most(follow(line, offset, h), max_offset(n, h))
}

/// The last line that a window `h` lines high shows from offset `offset` in
/// a document of `n` lines.
pub open spec fn last_visible(offset: nat, h: nat, n: nat) -> nat {
    at_most((offset + h - 1) as nat, (n - 1) as nat)
}

/// How far a page motion of `c` pages scrolls a window `h` lines high:
/// `c * (h - 2) - 1`, each step held at 0 from below and the product at
/// `usize::MAX` from above.
pub open spec fn page_lines(c: nat, h: nat) -> nat {
    sat_sub(at_most(c * sat_sub(h, 2), usize::MAX as nat), 1)
}

/// The lines a document is read as: its lines, or one empty line when it has
/// none.
pub open spec fn loaded_lines(s: Seq<char>) -> Seq<Seq<char>> {
    if split_lines(s).len() == 0 {
        seq![seq![]]
    } else {
        split_lines(s)
    }
}

/// What a buffer holds, as mathematical values.
pub struct BufferView {
    pub name: Seq<char>,
    pub point: (usize, usize),
    pub window: (usize, usize),
    pub offset: usize,
    pub lines: Seq<Seq<char>>,
}

impl BufferView {
    /// What holds of a buffer between operations: it has a line, its cursor
    /// stands on a line and at most one column past the line's last
    /// grapheme, and the viewport shows the cursor's line without scrolling
    /// past the last line.
    pub open spec fn well_formed(self) -> bool {
        &&& self.lines.len() >= 1
        &&& self.window.1 >= 1
        &&& self.point.1 < self.lines.len()
        &&& self.point.0 <= width_of(self.lines[self.point.1 as int])
        &&& self.offset <= self.point.1
        &&& self.point.1 <= self.offset + self.window.1 - 1
        &&& self.offset <= max_offset(self.lines.len(), self.window.1 as nat)
    }

    /// The text of the cursor's line.
    pub open spec fn current(self) -> Seq<char> {
        self.lines[self.point.1 as int]
    }

    /// The buffer with the cursor at (`col`, `line`) and the viewport moved
    /// as little as needed to show it.
    pub open spec fn with_point(self, col: nat, line: nat) -> BufferView {
        BufferView {
            point: (col as usize, line as usize),
            offset: fit_offset(line, self.offset as nat, self.window.1 as nat, self.lines.len())
                as usize,
            ..self
        }
    }

    /// The cursor `c` columns to the left, stopping at column 0.
    pub open spec fn after_left(self, c: nat) -> BufferView {
        self.with_point(sat_sub(self.point.0 as nat, c), self.point.1 as nat)
    }

    /// The cursor `c` columns to the right, stopping at the last grapheme.
    pub open spec fn after_right(self, c: nat) -> BufferView {
        self.with_point(at_most((self.point.0 + c) as nat, last_column(self.current())), self.point.1 as nat)
    }

    /// The cursor on the first non-blank grapheme of its line.
    pub open spec fn after_begin(self) -> BufferView {
        self.with_point(first_non_blank(self.current()), self.point.1 as nat)
    }

    /// The cursor on the last grapheme of its line.
    pub open spec fn after_end(self) -> BufferView {
        self.with_point(last_column(self.current()), self.point.1 as nat)
    }

    /// The cursor on line `line`, keeping its column where that line is wide
    /// enough.
    pub open spec fn on_line(self, line: nat) -> BufferView {
        self.with_point(at_most(self.point.0 as nat, width_of(self.lines[line as int])), line)
    }

    /// The cursor `c` lines up, stopping at the first line.
    pub open spec fn after_prev(self, c: nat) -> BufferView {
        self.on_line(sat_sub(self.point.1 as nat, c))
    }

    /// The cursor `c` lines down, stopping at the last line.
    pub open spec fn after_next(self, c: nat) -> BufferView {
        self.on_line(at_most((self.point.1 + c) as nat, (self.lines.len() - 1) as nat))
    }

    /// The viewport at `offset`, with the cursor moved to column 0 of the
    /// shown line nearest to it.
    pub open spec fn scrolled_to(self, offset: nat) -> BufferView {
        let last = last_visible(offset, self.window.1 as nat, self.lines.len());
        let line = if self.point.1 < offset {
            offset
        } else if self.point.1 > last {
            last
        } else {
            self.point.1 as nat
        };
        BufferView { point: (0, line as usize), offset: offset as usize, ..self }
    }

    /// The viewport `c` lines up or down, held between the first line and
    /// the largest offset.
    pub open spec fn after_scroll(self, c: nat, up: bool) -> BufferView {
        let max = max_offset(self.lines.len(), self.window.1 as nat);
        self.scrolled_to(
            if up {
                sat_sub(self.offset as nat, c)
            } else {
                at_most((self.offset + c) as nat, max)
            },
        )
    }

    /// The window resized, and the viewport moved as little as needed to
    /// show the cursor.
    pub open spec fn after_resize(self, w: nat, h: nat) -> BufferView {
        BufferView {
            window: (w as usize, h as usize),
            offset: fit_offset(self.point.1 as nat, self.offset as nat, h, self.lines.len())
                as usize,
            ..self
        }
    }

    /// Line `i` removed (the only line emptied instead), and the cursor and
    /// the viewport moved as little as needed to stay valid.
    pub open spec fn after_delete(self, i: nat) -> BufferView {
        let lines = if self.lines.len() == 1 {
            seq![seq![]]
        } else {
            self.lines.remove(i as int)
        };
        let line = at_most(self.point.1 as nat, (lines.len() - 1) as nat);
        BufferView {
            lines,
            point: (at_most(self.point.0 as nat, width_of(lines[line as int])) as usize, line as usize),
            offset: fit_offset(line, self.offset as nat, self.window.1 as nat, lines.len()) as usize,
            ..self
        }
    }

    /// The cursor's line cut where the cursor stands, the rest becoming a new
    /// line below, with the cursor at its start.
    pub open spec fn after_newline(self) -> BufferView {
        let s = self.current();
        let k = column_offset(s, self.point.0 as nat);
        let l = self.point.1 as int;
        let lines = self.lines.update(l, s.take(k as int)).insert(l + 1, s.skip(k as int));
        BufferView { lines, ..self }.with_point(0, (l + 1) as nat)
    }

    /// Character `c` put in before the cursor's grapheme, and the cursor one
    /// column further, though not past the new end of the line; a line
    /// terminator cuts the line instead.
    pub open spec fn after_insert(self, c: char) -> BufferView {
        if c == '\n' {
            self.after_newline()
        } else {
            let s = self.current();
            let k = column_offset(s, self.point.0 as nat);
            let t = s.take(k as int).push(c) + s.skip(k as int);
            BufferView {
                lines: self.lines.update(self.point.1 as int, t),
                point: (at_most((self.point.0 + 1) as nat, width_of(t)) as usize, self.point.1),
                ..self
            }
        }
    }

    /// The line a line motion of a cursor motion goes to.
    pub open spec fn target_line(self, line: Line) -> nat {
        let n = self.lines.len();
        let l = self.point.1 as nat;
        match line {
            Line::Current => l,
            Line::Up(i) => sat_sub(l, i as nat),
            Line::Down(i) => at_most((l + i) as nat, (n - 1) as nat),
            Line::Specific(i) => if i < n {
                i as nat
            } else {
                l
            },
            Line::Last => (n - 1) as nat,
        }
    }

    /// The column a column motion goes to on a line with text `t`, from
    /// column `c0`.
    pub open spec fn target_column(col: Column, t: Seq<char>, c0: nat) -> nat {
        match col {
            Column::Current => c0,
            Column::Left(i) => sat_sub(c0, i as nat),
            Column::Right(i) => at_most((c0 + i) as nat, width_of(t)),
            Column::Specific(i) => if i < width_of(t) {
                i as nat
            } else {
                c0
            },
            Column::Begin => first_non_blank(t),
            Column::End => last_column(t),
        }
    }

    /// The offset a viewport motion goes to.
    pub open spec fn scroll_target(self, line: Line) -> nat {
        let max = max_offset(self.lines.len(), self.window.1 as nat);
        match line {
            Line::Current => self.offset as nat,
            Line::Up(i) => sat_sub(self.offset as nat, i as nat),
            Line::Down(i) => at_most((self.offset + i) as nat, max),
            Line::Specific(i) => at_most(i as nat, max),
            Line::Last => max,
        }
    }

    /// The viewport at `offset`; a cursor it no longer shows moves to the
    /// first non-blank grapheme of the shown line nearest to it.
    pub open spec fn viewport_at(self, offset: nat) -> BufferView {
        let last = last_visible(offset, self.window.1 as nat, self.lines.len());
        let moved = BufferView { offset: offset as usize, ..self };
        if self.point.1 < offset {
            BufferView { point: (first_non_blank(self.lines[offset as int]) as usize, offset as usize), ..moved }
        } else if self.point.1 > last {
            BufferView { point: (first_non_blank(self.lines[last as int]) as usize, last as usize), ..moved }
        } else {
            moved
        }
    }

    /// The buffer after a command: a cursor motion resolves the line first,
    /// then the column on that line (from the cursor's column, held to the
    /// line's width), and moves the viewport as little as needed; a viewport
    /// motion moves the viewport and brings the cursor into it.
    pub open spec fn after_cmd(self, cmd: Command) -> BufferView {
        match cmd.motion {
            Motion::Goto(col, line) => {
                let l = self.target_line(line);
                let t = self.lines[l as int];
                let c0 = at_most(self.point.0 as nat, width_of(t));
                self.with_point(Self::target_column(col, t, c0), l)
            },
            Motion::Scroll(line) => self.viewport_at(self.scroll_target(line)),
        }
    }

    /// The buffer after each command of `cmds` in turn.
    pub open spec fn after_cmds(self, cmds: Seq<Command>) -> BufferView
        decreases cmds.len(),
    {
        if cmds.len() == 0 {
            self
        } else {
            self.after_cmd(cmds[0]).after_cmds(cmds.drop_first())
        }
    }

    /// Its sizes fit the machine: the number of lines and the width of each
    /// line are at most `usize::MAX`.
    pub open spec fn fits_machine(self) -> bool {
        &&& self.lines.len() <= usize::MAX
        &&& forall|i: int| 0 <= i < self.lines.len() ==> width_of(#[trigger] self.lines[i]) <= usize::MAX
    }

    /// The buffer holding the lines of document `s`, with the cursor and
    /// the viewport at the start.
    pub open spec fn after_load(self, s: Seq<char>) -> BufferView {
        BufferView { lines: loaded_lines(s), point: (0, 0), offset: 0, ..self }
    }
}

/// A buffer of lines being edited: its path, cursor, window and viewport.
pub struct Buffer {
    name: String,
    point: Coord,
    window: (usize, usize),
    offset: usize,
    lines: Vec<String>,
}

impl View for Buffer {
    type V = BufferView;

    closed spec fn view(&self) -> BufferView {
        BufferView {
            name: self.name@,
            point: self.point,
            window: self.window,
            offset: self.offset,
            lines: self.lines@.map_values(|l: String| l@),
        }
    }
}

proof fn lemma_first_non_blank_from_bound(gs: Seq<Seq<char>>, i: nat)
    ensures
        first_non_blank_from(gs, i) <= gs.len(),
    decreases gs.len() - i,
{
    if i < gs.len() {
        lemma_first_non_blank_from_bound(gs, i + 1);
    }
}

proof fn lemma_first_non_blank_bound(s: Seq<char>)
    ensures
        first_non_blank(s) <= width_of(s),
{
    lemma_first_non_blank_from_bound(crate::editor::text::grapheme_split(s), 0);
}

/// Moving the cursor to a column of a line keeps the buffer well formed.
proof fn lemma_with_point(v: BufferView, col: nat, line: nat)
    requires
        v.lines.len() >= 1,
        v.window.1 >= 1,
        line < v.lines.len(),
        col <= width_of(v.lines[line as int]),
        col <= usize::MAX,
        line <= usize::MAX,
    ensures
        v.with_point(col, line).well_formed(),
{
    let h = v.window.1 as nat;
    let n = v.lines.len();
    let f = follow(line, v.offset as nat, h);
    assert(f <= line && line <= f + h - 1);
    assert(line <= max_offset(n, h) + h - 1);
}


impl Buffer {
    /// A buffer for the file at path `name`, holding one empty line, with
    /// the cursor and the viewport at the start.
    pub fn new(name: &str, width: usize, height: usize) -> (r: Buffer)
        requires
            height >= 1,
        ensures
            r@ == (BufferView {
                name: name@,
                point: (0, 0),
                window: (width, height),
                offset: 0,
                lines: seq![seq![]],
            }),
            r@.well_formed(),
    {
        let mut lines: Vec<String> = Vec::new();
        lines.push(String::new());
        let r = Buffer {
            name: String::from_str(name),
            point: (0, 0),
            window: (width, height),
            offset: 0,
            lines,
        };
        assert(r@.lines =~= seq![Seq::<char>::empty()]);
        r
    }

    /// An empty buffer named `untitled`.
    pub fn new_empty(width: usize, height: usize) -> (r: Buffer)
        requires
            height >= 1,
        ensures
            r@ == (BufferView {
                name: "untitled"@,
                point: (0, 0),
                window: (width, height),
                offset: 0,
                lines: seq![seq![]],
            }),
            r@.well_formed(),
    {
        Buffer::new("untitled", width, height)
    }

    /// Replaces the lines with those of document `text`, the cursor and the
    /// viewport back at the start.
    pub fn load_reader(&mut self, text: &str)
        requires
            old(self)@.well_formed(),
        ensures
            final(self)@ == old(self)@.after_load(text@),
            final(self)@.well_formed(),
    {
        let mut lines = split_text(text);
        if lines.len() == 0 {
            lines.push(String::new());
            assert(lines@.map_values(|l: String| l@) =~= seq![Seq::<char>::empty()]);
        }
        self.lines = lines;
        self.point = (0, 0);
        self.offset = 0;
    }

    /// The document the buffer holds: each line followed by `'\n'`.
    pub fn to_text(&self) -> (r: String)
        ensures
            r@ == join_lines(self@.lines),
    {
        join_text(&self.lines)
    }

    /// The last component of the buffer's path.
    pub fn name(&self) -> (r: String)
        ensures
            r@ == file_name(self@.name),
    {
        file_name_of(self.name.as_str())
    }

    /// The buffer's path.
    pub fn path(&self) -> (r: &str)
        ensures
            r@ == self@.name,
    {
        self.name.as_str()
    }

    /// The cursor, as (column, line).
    pub fn point(&self) -> (r: Coord)
        ensures
            r == self@.point,
    {
        self.point
    }

    /// The window, as (width, height).
    pub fn window(&self) -> (r: (usize, usize))
        ensures
            r == self@.window,
    {
        self.window
    }

    /// The first line the viewport shows.
    pub fn offset(&self) -> (r: usize)
        ensures
            r == self@.offset,
    {
        self.offset
    }

    /// The number of lines.
    pub fn line_count(&self) -> (r: usize)
        ensures
            r == self@.lines.len(),
    {
        self.lines.len()
    }

    /// The text of line `i`.
    pub fn line(&self, i: usize) -> (r: &str)
        requires
            i < self@.lines.len(),
        ensures
            r@ == self@.lines[i as int],
    {
        self.lines[i].as_str()
    }

    /// Moves the viewport as little as needed to show the cursor's line,
    /// without scrolling past the last line.
    fn fit(&mut self)
        requires
            old(self)@.lines.len() >= 1,
            old(self)@.window.1 >= 1,
            old(self)@.point.1 < old(self)@.lines.len(),
        ensures
            final(self)@ == old(self)@.with_point(
                old(self)@.point.0 as nat,
                old(self)@.point.1 as nat,
            ),
    {
        let l = self.point.1;
        let h = self.window.1;
        let n = self.lines.len();
        let f = if l < self.offset {
            l
        } else if l - self.offset > h - 1 {
            l - (h - 1)
        } else {
            self.offset
        };
        let max = if n > h {
            n - h
        } else {
            0
        };
        self.offset = if f <= max {
            f
        } else {
            max
        };
    }

    /// Removes line `i`; removing the only line leaves one empty line. The
    /// cursor stays on its line number where that still exists, else goes
    /// to the last line, and the viewport follows it.
    pub fn delete_line(&mut self, i: usize)
        requires
            old(self)@.well_formed(),
            i < old(self)@.lines.len(),
        ensures
            final(self)@ == old(self)@.after_delete(i as nat),
            final(self)@.well_formed(),
    {
        let ghost v = self@;
        if self.lines.len() == 1 {
            self.lines = Vec::new();
            self.lines.push(String::new());
            assert(self@.lines =~= seq![Seq::<char>::empty()]);
        } else {
            self.lines.remove(i);
            assert(self@.lines =~= v.lines.remove(i as int));
        }
        let last = self.lines.len() - 1;
        if self.point.1 > last {
            self.point.1 = last;
        }
        let w = width(self.lines[self.point.1].as_str());
        if self.point.0 > w {
            self.point.0 = w;
        }
        self.fit();
        proof {
            lemma_with_point(self@, self.point.0 as nat, self.point.1 as nat);
        }
    }

    /// Puts `ch` in before the cursor and moves the cursor past it; a line
    /// terminator cuts the line instead.
    pub fn insert(&mut self, ch: char)
        requires
            old(self)@.well_formed(),
        ensures
            final(self)@ == old(self)@.after_insert(ch),
            final(self)@.well_formed(),
    {
        if ch == '\n' {
            self.newline();
            return;
        }
        let ghost v = self@;
        let l = self.point.1;
        let (k, _) = column_start(self.lines[l].as_str(), self.point.0);
        let t = insert_char(self.lines[l].as_str(), k, ch);
        let w = width(t.as_str());
        let ghost tv = t@;
        self.lines.set(l, t);
        self.point.0 = if self.point.0 < w {
            self.point.0 + 1
        } else {
            w
        };
        assert(self@.lines =~= v.lines.update(l as int, tv));
    }

    /// Cuts the cursor's line at the cursor; the rest becomes a new line
    /// below, and the cursor goes to its start.
    pub fn newline(&mut self)
        requires
            old(self)@.well_formed(),
        ensures
            final(self)@ == old(self)@.after_newline(),
            final(self)@.well_formed(),
    {
        let ghost v = self@;
        let l = self.point.1;
        let (k, _) = column_start(self.lines[l].as_str(), self.point.0);
        let head = prefix(self.lines[l].as_str(), k);
        let tail = suffix(self.lines[l].as_str(), k);
        let ghost hv = head@;
        let ghost tv = tail@;
        self.lines.set(l, head);
        let n = self.lines.len();
        assert(l < n);
        self.lines.insert(l + 1, tail);
        assert(self@.lines =~= v.lines.update(l as int, hv).insert(l + 1, tv));
        self.point = (0, l + 1);
        self.fit();
        proof {
            lemma_with_point(self@, 0, (l + 1) as nat);
        }
    }

    /// Copies, and may delete, the text of a range; no operator is bound to
    /// it yet, so the buffer is left as it is.
    pub fn yank_del(&mut self, r: Range, mode: Yank)
        ensures
            final(self)@ == old(self)@,
    {
    }

    /// Moves the cursor `c` columns left, stopping at column 0.
    pub fn left(&mut self, c: usize)
        requires
            old(self)@.well_formed(),
        ensures
            final(self)@ == old(self)@.after_left(c as nat),
            final(self)@.well_formed(),
    {
        self.point.0 = self.point.0.saturating_sub(c);
        self.fit();
        proof {
            lemma_with_point(self@, self.point.0 as nat, self.point.1 as nat);
        }
    }

    /// Moves the cursor `c` columns right, stopping at the last grapheme of
    /// the line.
    pub fn right(&mut self, c: usize)
        requires
            old(self)@.well_formed(),
        ensures
            final(self)@ == old(self)@.after_right(c as nat),
            final(self)@.well_formed(),
    {
        let w = width(self.lines[self.point.1].as_str());
        let last = if w > 0 {
            w - 1
        } else {
            0
        };
        self.point.0 = if self.point.0 <= last && c <= last - self.point.0 {
            self.point.0 + c
        } else {
            last
        };
        self.fit();
        proof {
            lemma_with_point(self@, self.point.0 as nat, self.point.1 as nat);
        }
    }

    /// Moves the cursor to the first non-blank grapheme of its line.
    pub fn begin(&mut self)
        requires
            old(self)@.well_formed(),
        ensures
            final(self)@ == old(self)@.after_begin(),
            final(self)@.well_formed(),
    {
        let ghost cur = self@.current();
        self.point.0 = first_non_blank_column(self.lines[self.point.1].as_str());
        self.fit();
        proof {
            lemma_first_non_blank_bound(cur);
            lemma_with_point(self@, self.point.0 as nat, self.point.1 as nat);
        }
    }

    /// Moves the cursor to the last grapheme of its line.
    pub fn end(&mut self)
        requires
            old(self)@.well_formed(),
        ensures
            final(self)@ == old(self)@.after_end(),
            final(self)@.well_formed(),
    {
        let w = width(self.lines[self.point.1].as_str());
        self.point.0 = if w > 0 {
            w - 1
        } else {
            0
        };
        self.fit();
        proof {
            lemma_with_point(self@, self.point.0 as nat, self.point.1 as nat);
        }
    }

    /// The last line the viewport shows.
    fn last_line(&self) -> (r: usize)
        requires
            self@.lines.len() >= 1,
            self@.window.1 >= 1,
            self.offset < self@.lines.len(),
        ensures
            r == last_visible(self.offset as nat, self.window.1 as nat, self@.lines.len()),
    {
        let n = self.lines.len();
        let h = self.window.1;
        if n - 1 - self.offset > h - 1 {
            self.offset + (h - 1)
        } else {
            n - 1
        }
    }

    /// Scrolls the viewport `c` lines in direction `dir`, held between the
    /// first line and the largest offset; the cursor goes to column 0 of the
    /// shown line nearest to it.
    pub fn scroll(&mut self, c: usize, dir: Direction)
        requires
            old(self)@.well_formed(),
        ensures
            final(self)@ == old(self)@.after_scroll(c as nat, dir is Up),
            final(self)@.well_formed(),
    {
        let n = self.lines.len();
        let h = self.window.1;
        let max = if n > h {
            n - h
        } else {
            0
        };
        self.offset = match dir {
            Direction::Up => self.offset.saturating_sub(c),
            Direction::Down => if c <= max - self.offset {
                self.offset + c
            } else {
                max
            },
        };
        if self.point.1 < self.offset {
            self.point.1 = self.offset;
        }
        let end = self.last_line();
        if self.point.1 > end {
            self.point.1 = end;
        }
        self.point.0 = 0;
    }

    /// Scrolls back `c` pages of `height - 2` lines, less one.
    pub fn page_back(&mut self, c: usize)
        requires
            old(self)@.well_formed(),
        ensures
            final(self)@ == old(self)@.after_scroll(page_lines(c as nat, old(self)@.window.1 as nat), true),
            final(self)@.well_formed(),
    {
        let cnt = self.page_count(c);
        self.scroll(cnt, Direction::Up);
    }

    /// Scrolls forward `c` pages of `height - 2` lines, less one.
    pub fn page_fwd(&mut self, c: usize)
        requires
            old(self)@.well_formed(),
        ensures
            final(self)@ == old(self)@.after_scroll(page_lines(c as nat, old(self)@.window.1 as nat), false),
            final(self)@.well_formed(),
    {
        let cnt = self.page_count(c);
        self.scroll(cnt, Direction::Down);
    }

    /// `c * (height - 2) - 1`, held at 0 from below and at `usize::MAX` from
    /// above.
    fn page_count(&self, c: usize) -> (r: usize)
        ensures
            r == page_lines(c as nat, self.window.1 as nat),
    {
        let h2 = self.window.1.saturating_sub(2);
        let all = match c.checked_mul(h2) {
            Some(x) => x,
            None => usize::MAX,
        };
        all.saturating_sub(1)
    }

    /// Moves the cursor `c` lines up, stopping at the first line.
    pub fn prev(&mut self, c: usize)
        requires
            old(self)@.well_formed(),
        ensures
            final(self)@ == old(self)@.after_prev(c as nat),
            final(self)@.well_formed(),
    {
        let l = self.point.1.saturating_sub(c);
        self.move_to_line(l);
    }

    /// Moves the cursor `c` lines down, stopping at the last line; the
    /// viewport follows it.
    pub fn next(&mut self, c: usize)
        requires
            old(self)@.well_formed(),
        ensures
            final(self)@ == old(self)@.after_next(c as nat),
            final(self)@.well_formed(),
    {
        let last = self.lines.len() - 1;
        let l = if c <= last - self.point.1 {
            self.point.1 + c
        } else {
            last
        };
        self.move_to_line(l);
    }

    /// Moves the cursor to line `l`, keeping its column where the line is
    /// wide enough.
    fn move_to_line(&mut self, l: usize)
        requires
            old(self)@.well_formed(),
            l < old(self)@.lines.len(),
        ensures
            final(self)@ == old(self)@.on_line(l as nat),
            final(self)@.well_formed(),
    {
        let w = width(self.lines[l].as_str());
        let col = if self.point.0 <= w {
            self.point.0
        } else {
            w
        };
        self.point = (col, l);
        self.fit();
        proof {
            lemma_with_point(self@, col as nat, l as nat);
        }
    }

    /// Resizes the window, moving the viewport as little as needed to show
    /// the cursor.
    pub fn resize(&mut self, w: usize, h: usize)
        requires
            old(self)@.well_formed(),
            h >= 1,
        ensures
            final(self)@ == old(self)@.after_resize(w as nat, h as nat),
            final(self)@.well_formed(),
    {
        self.window = (w, h);
        self.window_to_point();
        proof {
            lemma_with_point(self@, self.point.0 as nat, self.point.1 as nat);
        }
    }

    /// Moves the viewport as little as needed to show the cursor.
    fn window_to_point(&mut self)
        requires
            old(self)@.lines.len() >= 1,
            old(self)@.window.1 >= 1,
            old(self)@.point.1 < old(self)@.lines.len(),
        ensures
            final(self)@ == old(self)@.with_point(
                old(self)@.point.0 as nat,
                old(self)@.point.1 as nat,
            ),
    {
        self.fit();
    }

    /// Moves the viewport to `offset`, and the cursor into it where it no
    /// longer shows.
    fn point_to_window(&mut self, offset: usize)
        requires
            old(self)@.well_formed(),
            offset <= max_offset(old(self)@.lines.len(), old(self)@.window.1 as nat),
        ensures
            final(self)@ == old(self)@.viewport_at(offset as nat),
            final(self)@.well_formed(),
    {
        self.offset = offset;
        let l = self.point.1;
        let end = self.last_line();
        if l < offset {
            let c = first_non_blank_column(self.lines[offset].as_str());
            proof {
                lemma_first_non_blank_bound(self@.lines[offset as int]);
            }
            self.point = (c, offset);
        } else if l > end {
            let c = first_non_blank_column(self.lines[end].as_str());
            proof {
                lemma_first_non_blank_bound(self@.lines[end as int]);
            }
            self.point = (c, end);
        }
    }

    /// Carries out a command; the count is accepted for operators, and a
    /// motion is made once.
    pub fn do_cmd(&mut self, count: usize, cmd: &Command)
        requires
            old(self)@.well_formed(),
        ensures
            final(self)@ == old(self)@.after_cmd(*cmd),
            final(self)@.well_formed(),
    {
        let n = self.lines.len();
        match cmd.motion {
            Motion::Goto(col, line) => {
                let p = self.point.1;
                let l = match line {
                    Line::Current => p,
                    Line::Up(i) => p.saturating_sub(i),
                    Line::Down(i) => if i <= n - 1 - p {
                        p + i
                    } else {
                        n - 1
                    },
                    Line::Specific(i) => if i < n {
                        i
                    } else {
                        p
                    },
                    Line::Last => n - 1,
                };
                let w = width(self.lines[l].as_str());
                let c0 = if self.point.0 <= w {
                    self.point.0
                } else {
                    w
                };
                let c = match col {
                    Column::Current => c0,
                    Column::Left(i) => c0.saturating_sub(i),
                    Column::Right(i) => if i <= w - c0 {
                        c0 + i
                    } else {
                        w
                    },
                    Column::Specific(i) => if i < w {
                        i
                    } else {
                        c0
                    },
                    Column::Begin => {
                        let b = first_non_blank_column(self.lines[l].as_str());
                        proof {
                            lemma_first_non_blank_bound(self@.lines[l as int]);
                        }
                        b
                    },
                    Column::End => if w > 0 {
                        w - 1
                    } else {
                        0
                    },
                };
                self.point = (c, l);
                self.window_to_point();
                proof {
                    lemma_with_point(self@, c as nat, l as nat);
                }
            },
            Motion::Scroll(line) => {
                let h = self.window.1;
                let max = if n > h {
                    n - h
                } else {
                    0
                };
                let off = match line {
                    Line::Current => self.offset,
                    Line::Down(i) => if i <= max - self.offset {
                        self.offset + i
                    } else {
                        max
                    },
                    Line::Up(i) => self.offset.saturating_sub(i),
                    Line::Specific(i) => if i <= max {
                        i
                    } else {
                        max
                    },
                    Line::Last => max,
                };
                self.point_to_window(off);
            },
        }
    }
}


/// A command keeps a well-formed buffer well formed.
pub proof fn lemma_cmd_keeps_invariant(v: BufferView, cmd: Command)
    requires
        v.well_formed(),
        v.fits_machine(),
    ensures
        v.after_cmd(cmd).well_formed(),
        v.after_cmd(cmd).fits_machine(),
        v.after_cmd(cmd).lines == v.lines,
        v.after_cmd(cmd).window == v.window,
{
    match cmd.motion {
        Motion::Goto(col, line) => {
            let l = v.target_line(line);
            let t = v.lines[l as int];
            assert(width_of(t) <= usize::MAX);
            lemma_first_non_blank_bound(t);
            let c0 = at_most(v.point.0 as nat, width_of(t));
            lemma_with_point(v, BufferView::target_column(col, t, c0), l);
        },
        Motion::Scroll(line) => {
            let off = v.scroll_target(line);
            let last = last_visible(off, v.window.1 as nat, v.lines.len());
            lemma_first_non_blank_bound(v.lines[off as int]);
            lemma_first_non_blank_bound(v.lines[last as int]);
        },
    }
}

/// Whatever navigation commands are applied to a well-formed buffer of `n`
/// lines in a window `h` lines high, the cursor stays on one of the `n`
/// lines and within the `h` lines that the viewport shows.
pub proof fn lemma_navigation_keeps_invariant(v: BufferView, cmds: Seq<Command>)
    requires
        v.well_formed(),
        v.fits_machine(),
    ensures
        v.after_cmds(cmds).well_formed(),
        v.after_cmds(cmds).offset <= v.after_cmds(cmds).point.1,
        v.after_cmds(cmds).point.1 <= v.after_cmds(cmds).offset + v.window.1 - 1,
        v.after_cmds(cmds).point.1 < v.lines.len(),
    decreases cmds.len(),
{
    if cmds.len() > 0 {
        lemma_cmd_keeps_invariant(v, cmds[0]);
        lemma_navigation_keeps_invariant(v.after_cmd(cmds[0]), cmds.drop_first());
    }
}

/// Going to the last line twice lands on the same line both times: the
/// last one.
pub proof fn lemma_last_line_idempotent(v: BufferView, cmd: Command)
    requires
        v.well_formed(),
        v.fits_machine(),
        cmd.motion is Goto,
        cmd.motion->Goto_1 == Line::Last,
    ensures
        v.after_cmd(cmd).point.1 == v.lines.len() - 1,
        v.after_cmd(cmd).after_cmd(cmd).point.1 == v.after_cmd(cmd).point.1,
{
    lemma_cmd_keeps_invariant(v, cmd);
}

/// On a line whose first grapheme is not blank (or that is empty), going to
/// the first non-blank grapheme goes to column 0.
pub proof fn lemma_begin_without_leading_blank(v: BufferView, cmd: Command)
    requires
        v.well_formed(),
        cmd.motion == Motion::Goto(Column::Begin, Line::Current),
        width_of(v.current()) == 0 || !crate::editor::text::is_blank_grapheme(
            crate::editor::text::grapheme_split(v.current())[0],
        ),
    ensures
        v.after_cmd(cmd).point.0 == 0,
        v.after_begin().point.0 == 0,
{
}

/// Moving down one line scrolls the viewport by at most one line: by one
/// exactly when the cursor would otherwise leave it.
pub proof fn lemma_down_one_follows(v: BufferView, cmd: Command)
    requires
        v.well_formed(),
        v.fits_machine(),
        cmd.motion == Motion::Goto(Column::Current, Line::Down(1)),
    ensures
        v.after_cmd(cmd).offset == (if v.point.1 + 1 < v.lines.len() && v.point.1 + 1
            > v.offset + v.window.1 - 1 {
            v.offset + 1
        } else {
            v.offset as int
        }),
        v.after_next(1).offset == v.after_cmd(cmd).offset,
{
}

/// A buffer saved and read back holds the same lines, provided no line
/// holds a `'\n'` or ends with a `'\r'`.
pub proof fn lemma_save_then_load(v: BufferView)
    requires
        v.well_formed(),
        forall|i: int| 0 <= i < v.lines.len() ==> is_single_line(#[trigger] v.lines[i]),
        forall|i: int| 0 <= i < v.lines.len() ==> strip_cr(#[trigger] v.lines[i]) == v.lines[i],
    ensures
        loaded_lines(join_lines(v.lines)) == v.lines,
        v.after_load(join_lines(v.lines)).lines == v.lines,
{
    lemma_split_join(v.lines);
}

} // verus!
