//! The editing session: its buffers, its input mode, and how each key is
//! dispatched to the grammar and to the active buffer.
use crate::driver::EditorEvent;
use crate::editor::buffer::{Buffer, BufferView};
use crate::editor::command::{
    appended_count, digit_value, extends_count, key_command, Builder, BuilderResult, Column,
    Command, Line, Motion, Span,
};
use crate::editor::text::{push_char, same_text};
use crate::keyboard::Key;
use vstd::prelude::*;

verus! {

/// The input modes of a session; `:` starts a colon command.
#[derive(Clone, Copy, PartialEq, Eq, Debug, Structural)]
pub enum Mode {
    Colon,
    Normal,
    Insert,
}

/// What a session asks of the loop around it after an event.
#[derive(Clone, Copy, PartialEq, Eq, Debug, Structural)]
pub enum Outcome {
    /// Nothing beyond drawing the screen again.
    Continue,
    /// Write buffer `i` to its file.
    Save(usize),
}

/// The height of the buffers' windows on a screen `h` lines high: a line is
/// kept for the buffer names above and one for the status line below, and
/// a window keeps at least one line.
pub open spec fn view_height(h: nat) -> nat {
    if h > 2 {
        (h - 2) as nat
    } else {
        1
    }
}

/// A command that a normal-mode key names once the window height is known:
/// Ctrl-b and Ctrl-f scroll by a page of `lines - 2` lines, Ctrl-u and Ctrl-d
/// by half a window; other keys are looked up in the fixed key table.
pub open spec fn window_command(key: Key, lines: nat) -> Option<Command> {
    let page = if lines >= 2 { (lines - 2) as nat } else { 0 };
    let half = lines / 2;
    match key {
        Key::Ctrl('b') => Some(
            Command { count: 1, span: Span::Linewise, motion: Motion::Scroll(Line::Up(page as usize)) },
        ),
        Key::Ctrl('f') => Some(
            Command { count: 1, span: Span::Linewise, motion: Motion::Scroll(Line::Down(page as usize)) },
        ),
        Key::Ctrl('d') => Some(
            Command { count: 1, span: Span::Linewise, motion: Motion::Scroll(Line::Down(half as usize)) },
        ),
        Key::Ctrl('u') => Some(
            Command { count: 1, span: Span::Linewise, motion: Motion::Scroll(Line::Up(half as usize)) },
        ),
        _ => key_command(key),
    }
}

/// Whether a key scrolls by an amount that depends on the window height.
pub open spec fn is_window_key(key: Key) -> bool {
    key == Key::Ctrl('b') || key == Key::Ctrl('f') || key == Key::Ctrl('d') || key == Key::Ctrl(
        'u',
    )
}

/// The command that opens a line above the cursor starts with: column 0.
pub open spec fn to_column_zero() -> Command {
    Command { count: 1, span: Span::Exclusive, motion: Motion::Goto(Column::Specific(0), Line::Current) }
}

/// What a session holds, as mathematical values.
pub struct StateView {
    pub mode: Mode,
    pub width: usize,
    pub height: usize,
    pub active: usize,
    pub buffers: Seq<BufferView>,
    pub count: Option<usize>,
    pub colon: Seq<char>,
    pub status: Seq<char>,
}

impl StateView {
    /// Every buffer is well formed and the active index names one of them
    /// (or is 0 when none is open).
    pub open spec fn well_formed(self) -> bool {
        &&& forall|i: int| 0 <= i < self.buffers.len() ==> (#[trigger] self.buffers[i]).well_formed()
        &&& (self.active < self.buffers.len() || (self.buffers.len() == 0 && self.active == 0))
    }

    /// The active buffer.
    pub open spec fn current(self) -> BufferView {
        self.buffers[self.active as int]
    }

    /// The session with the active buffer replaced by `b`, when one is open.
    pub open spec fn map_active(self, b: BufferView) -> StateView {
        if self.buffers.len() > 0 {
            StateView { buffers: self.buffers.update(self.active as int, b), ..self }
        } else {
            self
        }
    }

    /// A key in normal mode: `:` starts a colon command, `i` goes to insert
    /// mode, `a` does so one grapheme to the right, `o` and `O` open a line
    /// below and above; the keys that scroll by the window height scroll the
    /// active buffer; anything else goes to the command grammar, and a
    /// completed command moves the active buffer.
    pub open spec fn after_normal_key(self, key: Key) -> StateView {
        let b = self.current();
        let cleared = StateView { count: None, ..self };
        match key {
            Key::Char(':') => StateView { mode: Mode::Colon, ..cleared },
            Key::Char('i') => StateView { mode: Mode::Insert, ..cleared },
            Key::Char('a') => StateView { mode: Mode::Insert, ..cleared.map_active(b.after_right(1)) },
            Key::Char('o') => StateView {
                mode: Mode::Insert,
                ..cleared.map_active(b.after_end().after_newline())
            },
            Key::Char('O') => StateView {
                mode: Mode::Insert,
                ..cleared.map_active(b.after_cmd(to_column_zero()).after_newline().after_prev(1))
            },
            _ => if is_window_key(key) {
                if self.buffers.len() > 0 {
                    cleared.map_active(b.after_cmd(window_command(key, b.window.1 as nat)->0))
                } else {
                    cleared
                }
            } else if extends_count(self.count, key) {
                StateView {
                    count: Some(appended_count(self.count, digit_value(key->Char_0))),
                    ..self
                }
            } else {
                match key_command(key) {
                    Some(cmd) => cleared.map_active(b.after_cmd(cmd)),
                    None => cleared,
                }
            },
        }
    }

    /// A key in insert mode: Esc goes back to normal mode, Enter cuts the
    /// line, a character is put in, and the arrows and Ctrl-h still move the
    /// cursor.
    pub open spec fn after_insert_key(self, key: Key) -> StateView {
        let b = self.current();
        match key {
            Key::Esc => StateView { mode: Mode::Normal, ..self },
            Key::Enter => self.map_active(b.after_newline()),
            Key::Char(c) => self.map_active(b.after_insert(c)),
            Key::Left | Key::Right | Key::Up | Key::Down | Key::Ctrl('h') => self.map_active(
                b.after_cmd(key_command(key)->0),
            ),
            _ => self,
        }
    }

    /// Whether the colon command names quitting.
    pub open spec fn colon_quits(self) -> bool {
        self.colon == "q"@ || self.colon == "quit"@
    }

    /// Whether the colon command names writing.
    pub open spec fn colon_writes(self) -> bool {
        self.colon == "w"@ || self.colon == "write"@
    }

    /// A key in colon mode: a character extends the command, Esc drops it,
    /// and Enter carries it out (quitting closes the active buffer) and
    /// returns to normal mode.
    pub open spec fn after_colon_key(self, key: Key) -> StateView {
        match key {
            Key::Char(c) => StateView { colon: self.colon.push(c), ..self },
            Key::Esc => StateView { colon: seq![], mode: Mode::Normal, ..self },
            Key::Enter => {
                let done = StateView { colon: seq![], mode: Mode::Normal, ..self };
                if self.colon_quits() && self.buffers.len() > 0 {
                    let rest = self.buffers.remove(self.active as int);
                    StateView {
                        buffers: rest,
                        active: if self.active >= rest.len() {
                            0
                        } else {
                            self.active
                        },
                        ..done
                    }
                } else {
                    done
                }
            },
            _ => self,
        }
    }

    /// The session after a key, in whatever mode it is.
    pub open spec fn after_key(self, key: Key) -> StateView {
        match self.mode {
            Mode::Normal => self.after_normal_key(key),
            Mode::Colon => self.after_colon_key(key),
            Mode::Insert => self.after_insert_key(key),
        }
    }

    /// What the loop is asked to do after a key: write the active buffer
    /// when Enter confirms a write command.
    pub open spec fn key_outcome(self, key: Key) -> Outcome {
        if self.mode == Mode::Colon && key == Key::Enter && self.colon_writes()
            && self.buffers.len() > 0 {
            Outcome::Save(self.active)
        } else {
            Outcome::Continue
        }
    }

    /// The session with the screen resized: every buffer's window gets the
    /// screen's width and the height left for it.
    pub open spec fn after_resize(self, w: nat, h: nat) -> StateView {
        StateView {
            width: w as usize,
            height: h as usize,
            buffers: self.buffers.map_values(|b: BufferView| b.after_resize(w, view_height(h))),
            ..self
        }
    }
}


/// An editing session: the open buffers, the active one, the input mode, the
/// pending count of the grammar, the colon command being typed, and a status
/// message.
pub struct State {
    mode: Mode,
    height: usize,
    width: usize,
    buf_idx: usize,
    buffers: Vec<Buffer>,
    builder: Builder,
    status: String,
    colon: String,
}

impl View for State {
    type V = StateView;

    closed spec fn view(&self) -> StateView {
        StateView {
            mode: self.mode,
            width: self.width,
            height: self.height,
            active: self.buf_idx,
            buffers: self.buffers@.map_values(|b: Buffer| b@),
            count: self.builder.count,
            colon: self.colon@,
            status: self.status@,
        }
    }
}

/// The height of the buffers' windows on a screen `h` lines high.
fn window_height(h: usize) -> (r: usize)
    ensures
        r == view_height(h as nat),
        r >= 1,
{
    if h > 2 {
        h - 2
    } else {
        1
    }
}

/// A buffer just opened for the file at `path` in a session whose screen is
/// `w` by `h`.
pub open spec fn fresh_buffer(path: Seq<char>, w: usize, h: usize) -> BufferView {
    BufferView {
        name: path,
        point: (0, 0),
        window: (w, view_height(h as nat) as usize),
        offset: 0,
        lines: seq![seq![]],
    }
}

impl State {
    /// A session for a screen `w` wide and `h` high, in normal mode, with no
    /// buffer open.
    pub fn new(w: usize, h: usize) -> (r: State)
        ensures
            r@ == (StateView {
                mode: Mode::Normal,
                width: w,
                height: h,
                active: 0,
                buffers: seq![],
                count: None,
                colon: seq![],
                status: seq![],
            }),
            r@.well_formed(),
    {
        let r = State {
            mode: Mode::Normal,
            width: w,
            height: h,
            buf_idx: 0,
            buffers: Vec::new(),
            builder: Builder::new(),
            status: String::new(),
            colon: String::new(),
        };
        assert(r@.buffers =~= seq![]);
        r
    }

    /// Opens a buffer for the file at `path`, holding the document
    /// `contents`, or no text when the file could not be read.
    pub fn open(&mut self, path: &str, contents: Option<&str>)
        requires
            old(self)@.well_formed(),
        ensures
            final(self)@.well_formed(),
            final(self)@ == (StateView {
                buffers: old(self)@.buffers.push(
                    match contents {
                        Some(t) => fresh_buffer(path@, old(self)@.width, old(self)@.height).after_load(t@),
                        None => fresh_buffer(path@, old(self)@.width, old(self)@.height),
                    },
                ),
                ..old(self)@
            }),
    {
        let mut buffer = Buffer::new(path, self.width, window_height(self.height));
        match contents {
            Some(t) => buffer.load_reader(t),
            None => {},
        }
        self.buffers.push(buffer);
        assert(self@.buffers =~= old(self)@.buffers.push(buffer@));
    }

    /// Opens an empty buffer when none is open, as editing starts.
    pub fn ensure_buffer(&mut self)
        requires
            old(self)@.well_formed(),
        ensures
            final(self)@.well_formed(),
            final(self)@.buffers.len() > 0,
            old(self)@.buffers.len() > 0 ==> final(self)@ == old(self)@,
            old(self)@.buffers.len() == 0 ==> final(self)@ == (StateView {
                buffers: seq![fresh_buffer("untitled"@, old(self)@.width, old(self)@.height)],
                ..old(self)@
            }),
    {
        if self.buffers.len() == 0 {
            let b = Buffer::new_empty(self.width, window_height(self.height));
            self.buffers.push(b);
            assert(self@.buffers =~= seq![b@]);
        }
    }

    /// Whether any buffer is still open: editing goes on while one is.
    pub fn is_editing(&self) -> (r: bool)
        ensures
            r == (self@.buffers.len() > 0),
    {
        self.buffers.len() > 0
    }

    /// The input mode.
    pub fn mode(&self) -> (r: Mode)
        ensures
            r == self@.mode,
    {
        self.mode
    }

    /// The colon command being typed.
    pub fn colon(&self) -> (r: &str)
        ensures
            r@ == self@.colon,
    {
        self.colon.as_str()
    }

    /// The status message.
    pub fn status(&self) -> (r: &str)
        ensures
            r@ == self@.status,
    {
        self.status.as_str()
    }

    /// Replaces the status message.
    pub fn set_status(&mut self, text: String)
        ensures
            final(self)@ == (StateView { status: text@, ..old(self)@ }),
    {
        self.status = text;
    }

    /// The index of the active buffer.
    pub fn active_index(&self) -> (r: usize)
        ensures
            r == self@.active,
    {
        self.buf_idx
    }

    /// The open buffers.
    pub fn buffers(&self) -> (r: &Vec<Buffer>)
        ensures
            r@.map_values(|b: Buffer| b@) == self@.buffers,
    {
        &self.buffers
    }

    /// The active buffer, if one is open.
    pub fn active(&self) -> (r: Option<&Buffer>)
        requires
            self@.well_formed(),
        ensures
            self@.buffers.len() > 0 ==> r.is_some() && r->0@ == self@.current(),
            self@.buffers.len() == 0 ==> r.is_none(),
    {
        if self.buf_idx < self.buffers.len() {
            Some(&self.buffers[self.buf_idx])
        } else {
            None
        }
    }

    /// The command a normal-mode key names for the active buffer.
    pub fn get_motion(&self, key: Key) -> (r: Option<Command>)
        requires
            self@.well_formed(),
        ensures
            self@.buffers.len() > 0 ==> r == window_command(key, self@.current().window.1 as nat),
            self@.buffers.len() == 0 ==> r == (if is_window_key(key) {
                None
            } else {
                key_command(key)
            }),
    {
        let lines: usize = if self.buf_idx < self.buffers.len() {
            self.buffers[self.buf_idx].window().1
        } else {
            match key {
                Key::Ctrl('b') | Key::Ctrl('f') | Key::Ctrl('d') | Key::Ctrl('u') => {
                    return None;
                },
                _ => 0,
            }
        };
        let page = lines.saturating_sub(2);
        let half = lines / 2;
        match key {
            Key::Ctrl('b') => Some(Command::scroll(Line::Up(page))),
            Key::Ctrl('f') => Some(Command::scroll(Line::Down(page))),
            Key::Ctrl('d') => Some(Command::scroll(Line::Down(half))),
            Key::Ctrl('u') => Some(Command::scroll(Line::Up(half))),
            _ => self.builder.lookup_key(key),
        }
    }

    /// Carries out a key in normal mode.
    fn do_cmd_key(&mut self, key: Key)
        requires
            old(self)@.well_formed(),
        ensures
            final(self)@ == old(self)@.after_normal_key(key),
            final(self)@.well_formed(),
    {
        let ghost v = self@;
        let has = self.buf_idx < self.buffers.len();
        let i = self.buf_idx;
        match key {
            Key::Char(':') => {
                self.builder.count = None;
                self.mode = Mode::Colon;
                return;
            },
            Key::Char('i') => {
                self.builder.count = None;
                self.mode = Mode::Insert;
                return;
            },
            Key::Char('a') => {
                self.builder.count = None;
                self.mode = Mode::Insert;
                if has {
                    self.buffers[i].right(1);
                }
            },
            Key::Char('o') => {
                self.builder.count = None;
                self.mode = Mode::Insert;
                if has {
                    self.buffers[i].end();
                    self.buffers[i].newline();
                }
            },
            Key::Char('O') => {
                self.builder.count = None;
                self.mode = Mode::Insert;
                if has {
                    let zero = Command::goto(Span::Exclusive, Column::Specific(0), Line::Current);
                    self.buffers[i].do_cmd(1, &zero);
                    self.buffers[i].newline();
                    self.buffers[i].prev(1);
                }
            },
            Key::Ctrl('b') | Key::Ctrl('f') | Key::Ctrl('d') | Key::Ctrl('u') => {
                self.builder.count = None;
                if has {
                    match self.get_motion(key) {
                        Some(cmd) => self.buffers[i].do_cmd(cmd.count, &cmd),
                        None => {},
                    }
                }
            },
            _ => {
                match self.builder.handle_key(key) {
                    BuilderResult::Command(cmd) => {
                        if has {
                            self.buffers[i].do_cmd(cmd.count, &cmd);
                        }
                    },
                    _ => {},
                }
            },
        }
        proof {
            self.lemma_active_changed(v);
        }
    }

    /// Carries out a key in insert mode.
    fn do_insert_key(&mut self, key: Key)
        requires
            old(self)@.well_formed(),
        ensures
            final(self)@ == old(self)@.after_insert_key(key),
            final(self)@.well_formed(),
    {
        let ghost v = self@;
        let has = self.buf_idx < self.buffers.len();
        let i = self.buf_idx;
        match key {
            Key::Esc => {
                self.mode = Mode::Normal;
                return;
            },
            Key::Enter => {
                if has {
                    self.buffers[i].newline();
                }
            },
            Key::Char(c) => {
                if has {
                    self.buffers[i].insert(c);
                }
            },
            Key::Left | Key::Right | Key::Up | Key::Down | Key::Ctrl('h') => {
                if has {
                    match self.builder.lookup_key(key) {
                        Some(cmd) => self.buffers[i].do_cmd(1, &cmd),
                        None => {},
                    }
                }
            },
            _ => {
                return;
            },
        }
        proof {
            self.lemma_active_changed(v);
        }
    }

    /// When only the active buffer changed, and it stays well formed, the
    /// session is the old one with that buffer replaced.
    proof fn lemma_active_changed(&self, v: StateView)
        requires
            v.well_formed(),
            self.buf_idx == v.active,
            self.buffers@.len() == v.buffers.len(),
            forall|j: int| 0 <= j < v.buffers.len() && j != v.active ==> (#[trigger] self.buffers@[j])@ == v.buffers[j],
            v.buffers.len() > 0 ==> self.buffers@[v.active as int]@.well_formed(),
        ensures
            self@.buffers == (if v.buffers.len() > 0 {
                v.buffers.update(v.active as int, self.buffers@[v.active as int]@)
            } else {
                v.buffers
            }),
            self@.well_formed(),
    {
        if v.buffers.len() > 0 {
            assert(self@.buffers =~= v.buffers.update(v.active as int, self.buffers@[v.active as int]@));
        } else {
            assert(self@.buffers =~= v.buffers);
        }
    }

    /// Carries out a key in colon mode; says whether a buffer is to be
    /// written.
    fn do_colon_key(&mut self, key: Key) -> (r: Outcome)
        requires
            old(self)@.well_formed(),
            old(self)@.mode == Mode::Colon,
        ensures
            final(self)@ == old(self)@.after_colon_key(key),
            final(self)@.well_formed(),
            r == old(self)@.key_outcome(key),
    {
        match key {
            Key::Char(c) => {
                push_char(&mut self.colon, c);
                Outcome::Continue
            },
            Key::Esc => {
                self.colon = String::new();
                self.mode = Mode::Normal;
                Outcome::Continue
            },
            Key::Enter => {
                let ghost v = self@;
                proof {
                    reveal_strlit("q");
                    reveal_strlit("quit");
                    reveal_strlit("w");
                    reveal_strlit("write");
                }
                let quits = same_text(self.colon.as_str(), "q") || same_text(self.colon.as_str(), "quit");
                let writes = same_text(self.colon.as_str(), "w") || same_text(self.colon.as_str(), "write");
                let mut r = Outcome::Continue;
                if writes && self.buf_idx < self.buffers.len() {
                    r = Outcome::Save(self.buf_idx);
                }
                if quits && self.buf_idx < self.buffers.len() {
                    self.buffers.remove(self.buf_idx);
                    if self.buf_idx >= self.buffers.len() {
                        self.buf_idx = 0;
                    }
                    assert(self@.buffers =~= v.buffers.remove(v.active as int));
                }
                self.colon = String::new();
                self.mode = Mode::Normal;
                r
            },
            _ => Outcome::Continue,
        }
    }

    /// Carries out a key in the current mode; says whether a buffer is to be
    /// written.
    pub fn handle_key(&mut self, key: Key) -> (r: Outcome)
        requires
            old(self)@.well_formed(),
        ensures
            final(self)@ == old(self)@.after_key(key),
            final(self)@.well_formed(),
            r == old(self)@.key_outcome(key),
    {
        match self.mode {
            Mode::Normal => {
                self.do_cmd_key(key);
                Outcome::Continue
            },
            Mode::Colon => self.do_colon_key(key),
            Mode::Insert => {
                self.do_insert_key(key);
                Outcome::Continue
            },
        }
    }

    /// Resizes the screen and every buffer's window.
    fn resize(&mut self, w: usize, h: usize)
        requires
            old(self)@.well_formed(),
        ensures
            final(self)@ == old(self)@.after_resize(w as nat, h as nat),
            final(self)@.well_formed(),
    {
        let ghost v = self@;
        self.width = w;
        self.height = h;
        let vh = window_height(h);
        let n = self.buffers.len();
        let mut i: usize = 0;
        assert forall|j: int| 0 <= j < n implies (#[trigger] self.buffers@[j])@.well_formed() by {
            assert(v.buffers[j] == self.buffers@[j]@);
        }
        while i < n
            invariant
                v.well_formed(),
                n == v.buffers.len(),
                n == self.buffers@.len(),
                vh == view_height(h as nat),
                vh >= 1,
                i <= n,
                self.width == w,
                self.height == h,
                self.buf_idx == v.active,
                self.mode == v.mode,
                self.builder.count == v.count,
                self.colon@ == v.colon,
                self.status@ == v.status,
                forall|j: int| 0 <= j < i ==> (#[trigger] self.buffers@[j])@ == v.buffers[j].after_resize(w as nat, vh as nat),
                forall|j: int| i <= j < n ==> (#[trigger] self.buffers@[j])@ == v.buffers[j],
                forall|j: int| 0 <= j < n ==> (#[trigger] self.buffers@[j])@.well_formed(),
            decreases n - i,
        {
            assert(self.buffers@[i as int]@ == v.buffers[i as int]);
            self.buffers[i].resize(w, vh);
            i = i + 1;
        }
        assert(self@.buffers =~= v.buffers.map_values(|b: BufferView| b.after_resize(w as nat, view_height(h as nat))));
    }

    /// Handles one event of the editing loop; says whether a buffer is to be
    /// written.
    pub fn handle_event(&mut self, event: EditorEvent) -> (r: Outcome)
        requires
            old(self)@.well_formed(),
        ensures
            final(self)@.well_formed(),
            match event {
                EditorEvent::KeyEvent(key) => final(self)@ == old(self)@.after_key(key) && r
                    == old(self)@.key_outcome(key),
                EditorEvent::Resize(w, h) => final(self)@ == old(self)@.after_resize(w as nat, h as nat)
                    && r == Outcome::Continue,
                EditorEvent::Unsupported => final(self)@ == old(self)@ && r == Outcome::Continue,
            },
    {
        match event {
            EditorEvent::KeyEvent(key) => self.handle_key(key),
            EditorEvent::Resize(w, h) => {
                self.resize(w, h);
                Outcome::Continue
            },
            EditorEvent::Unsupported => Outcome::Continue,
        }
    }
}

} // verus!
