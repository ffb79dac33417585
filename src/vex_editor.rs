//! A minimal modal editor over flat byte buffers: keys are bound per mode to
//! editor commands, and the editor carries those commands out.
use crate::buffer::{bytes_after_insert, Buffer};
use crate::driver::{EditorEvent, Key};
use vstd::prelude::*;

verus! {

/// Draws an editor on some screen.
pub trait Render {
    fn render(&self, editor: &Editor);
}

/// The input modes of the editor.
#[derive(Clone, Copy, PartialEq, Eq, Debug, Structural)]
pub enum Mode {
    Normal,
    Insert,
}

/// The answer to a key: nothing bound, more keys needed, or a value.
pub enum MultiOption<T> {
    Unbound,
    Pending,
    Ready(T),
}

/// What a key asks the editor to do.
pub enum Command {
    Insert(char),
    Modal(Mode),
    MoveCursor,
    Quit,
}

/// A key table of one mode.
pub trait HandleKey {
    /// The command a key is bound to.
    spec fn binding(key: Key) -> MultiOption<Command>;

    fn handle_key(key: Key) -> (r: MultiOption<Command>)
        ensures
            r == Self::binding(key),
    ;
}

/// The key table of insert mode.
#[derive(Debug)]
pub struct InsertMode;

impl HandleKey for InsertMode {
    /// A character is put in, Enter puts in a line terminator, and Esc goes
    /// back to normal mode.
    open spec fn binding(key: Key) -> MultiOption<Command> {
        match key {
            Key::Char(c) => MultiOption::Ready(Command::Insert(c)),
            Key::Enter => MultiOption::Ready(Command::Insert('\n')),
            Key::Esc => MultiOption::Ready(Command::Modal(Mode::Normal)),
            _ => MultiOption::Unbound,
        }
    }

    fn handle_key(key: Key) -> (r: MultiOption<Command>) {
        match key {
            Key::Char(c) => MultiOption::Ready(Command::Insert(c)),
            Key::Enter => MultiOption::Ready(Command::Insert('\n')),
            Key::Esc => MultiOption::Ready(Command::Modal(Mode::Normal)),
            _ => MultiOption::Unbound,
        }
    }
}

/// The key table of normal mode.
#[derive(Debug)]
pub struct NormalMode;

impl HandleKey for NormalMode {
    /// Ctrl-c quits, `i` goes to insert mode, and `h`, `j`, `k`, `l` move
    /// the cursor.
    open spec fn binding(key: Key) -> MultiOption<Command> {
        match key {
            Key::Ctrl('c') => MultiOption::Ready(Command::Quit),
            Key::Char('i') => MultiOption::Ready(Command::Modal(Mode::Insert)),
            Key::Char('h') | Key::Char('j') | Key::Char('k') | Key::Char('l') => MultiOption::Ready(
                Command::MoveCursor,
            ),
            _ => MultiOption::Unbound,
        }
    }

    fn handle_key(key: Key) -> (r: MultiOption<Command>) {
        match key {
            Key::Ctrl('c') => MultiOption::Ready(Command::Quit),
            Key::Char('i') => MultiOption::Ready(Command::Modal(Mode::Insert)),
            Key::Char('h') => MultiOption::Ready(Command::MoveCursor),
            Key::Char('j') => MultiOption::Ready(Command::MoveCursor),
            Key::Char('k') => MultiOption::Ready(Command::MoveCursor),
            Key::Char('l') => MultiOption::Ready(Command::MoveCursor),
            _ => MultiOption::Unbound,
        }
    }
}

/// The command a key is bound to in mode `mode`.
pub open spec fn binding_in(mode: Mode, key: Key) -> MultiOption<Command> {
    match mode {
        Mode::Insert => <InsertMode as HandleKey>::binding(key),
        Mode::Normal => <NormalMode as HandleKey>::binding(key),
    }
}

/// An editor over a list of byte buffers; the first one is edited.
pub struct Editor {
    mode: Mode,
    height: usize,
    width: usize,
    top: usize,
    bufs: Vec<Buffer>,
}

impl Editor {
    /// The input mode.
    pub closed spec fn spec_mode(&self) -> Mode {
        self.mode
    }

    /// The screen height.
    pub closed spec fn spec_height(&self) -> usize {
        self.height
    }

    /// The screen width.
    pub closed spec fn spec_width(&self) -> usize {
        self.width
    }

    /// The first line shown.
    pub closed spec fn spec_top(&self) -> usize {
        self.top
    }

    /// The open buffers, in order.
    pub closed spec fn spec_bufs(&self) -> Seq<Buffer> {
        self.bufs@
    }

    /// Every open buffer is well formed.
    pub open spec fn wf(&self) -> bool {
        forall|i: int| 0 <= i < self.spec_bufs().len() ==> (#[trigger] self.spec_bufs()[i]).wf()
    }

    /// An editor for a screen `w` wide and `h` high, in normal mode, with no
    /// buffer open.
    pub fn new(w: usize, h: usize) -> (r: Editor)
        ensures
            r.spec_mode() == Mode::Normal,
            r.spec_top() == 0,
            r.spec_width() == w,
            r.spec_height() == h,
            r.spec_bufs().len() == 0,
            r.wf(),
    {
        Editor { mode: Mode::Normal, top: 0, width: w, height: h, bufs: Vec::new() }
    }

    /// Opens a buffer on the bytes of a file, or an empty one when the file
    /// could not be read.
    pub fn open(&mut self, contents: Option<Vec<u8>>)
        requires
            old(self).wf(),
        ensures
            final(self).wf(),
            final(self).spec_mode() == old(self).spec_mode(),
            final(self).spec_bufs().len() == old(self).spec_bufs().len() + 1,
            final(self).spec_bufs().drop_last() == old(self).spec_bufs(),
            final(self).spec_bufs().last().bytes() == match contents {
                Some(b) => b@,
                None => Seq::<u8>::empty(),
            },
            final(self).spec_bufs().last().cursor() == 0,
    {
        let buf = match contents {
            Some(b) => Buffer::from_iter(b),
            None => Buffer::new(),
        };
        self.bufs.push(buf);
        assert(self.spec_bufs().drop_last() =~= old(self).spec_bufs());
    }

    /// Opens an empty buffer.
    pub fn open_empty(&mut self)
        requires
            old(self).wf(),
        ensures
            final(self).wf(),
            final(self).spec_mode() == old(self).spec_mode(),
            final(self).spec_bufs().len() == old(self).spec_bufs().len() + 1,
            final(self).spec_bufs().drop_last() == old(self).spec_bufs(),
            final(self).spec_bufs().last().bytes() == Seq::<u8>::empty(),
            final(self).spec_bufs().last().cursor() == 0,
    {
        let buf = Buffer::new();
        self.bufs.push(buf);
        assert(self.spec_bufs().drop_last() =~= old(self).spec_bufs());
    }

    /// The open buffers.
    pub fn bufs(&self) -> (r: &Vec<Buffer>)
        ensures
            r@ == self.spec_bufs(),
    {
        &self.bufs
    }

    /// The screen width.
    pub fn width(&self) -> (r: usize)
        ensures
            r == self.spec_width(),
    {
        self.width
    }

    /// The screen height.
    pub fn height(&self) -> (r: usize)
        ensures
            r == self.spec_height(),
    {
        self.height
    }

    /// The first line shown.
    pub fn top(&self) -> (r: usize)
        ensures
            r == self.spec_top(),
    {
        self.top
    }

    /// The input mode.
    pub fn mode(&self) -> (r: Mode)
        ensures
            r == self.spec_mode(),
    {
        self.mode
    }

    /// Handles one event of the editing loop: a key is looked up in the
    /// current mode's table and carried out, and a resize is recorded.
    pub fn handle_event(&mut self, event: EditorEvent)
        requires
            old(self).wf(),
        ensures
            final(self).wf(),
            match event {
                EditorEvent::KeyEvent(key) => match binding_in(old(self).spec_mode(), key) {
                    MultiOption::Ready(cmd) => final(self).did(*old(self), cmd),
                    _ => *final(self) == *old(self),
                },
                EditorEvent::Resize(w, h) => {
                    &&& final(self).spec_width() == w
                    &&& final(self).spec_height() == h
                    &&& final(self).spec_mode() == old(self).spec_mode()
                    &&& final(self).spec_bufs() == old(self).spec_bufs()
                },
                EditorEvent::Unsupported => *final(self) == *old(self),
            },
    {
        match event {
            EditorEvent::KeyEvent(key) => self.handle_key(key),
            EditorEvent::Resize(w, h) => self.resize(w, h),
            EditorEvent::Unsupported => {},
        }
    }

    /// Looks a key up in the current mode's table and carries out what it
    /// is bound to.
    pub fn handle_key(&mut self, key: Key)
        requires
            old(self).wf(),
        ensures
            final(self).wf(),
            match binding_in(old(self).spec_mode(), key) {
                MultiOption::Ready(cmd) => final(self).did(*old(self), cmd),
                _ => *final(self) == *old(self),
            },
    {
        let cmd = match self.mode {
            Mode::Insert => InsertMode::handle_key(key),
            Mode::Normal => NormalMode::handle_key(key),
        };
        match cmd {
            MultiOption::Ready(cmd) => {
                self.do_cmd(cmd);
            },
            MultiOption::Pending => {},
            MultiOption::Unbound => {},
        }
    }

    /// `self` is `before` with `cmd` carried out: Quit closes the first
    /// buffer, a mode change sets the mode, and Insert puts the character in
    /// the first buffer at its cursor (when a buffer is open and has room).
    pub open spec fn did(self, before: Editor, cmd: Command) -> bool {
        &&& self.spec_width() == before.spec_width()
        &&& self.spec_height() == before.spec_height()
        &&& self.spec_top() == before.spec_top()
        &&& match cmd {
            Command::Quit => {
                &&& self.spec_mode() == before.spec_mode()
                &&& self.spec_bufs() == if before.spec_bufs().len() > 0 {
                    before.spec_bufs().drop_first()
                } else {
                    before.spec_bufs()
                }
            },
            Command::Modal(m) => {
                &&& self.spec_mode() == m
                &&& self.spec_bufs() == before.spec_bufs()
            },
            Command::Insert(c) => {
                &&& self.spec_mode() == before.spec_mode()
                &&& self.spec_bufs().len() == before.spec_bufs().len()
                &&& self.spec_bufs().drop_first() == before.spec_bufs().drop_first()
                &&& (before.spec_bufs().len() > 0 ==> {
                    let b = before.spec_bufs()[0];
                    if b.bytes().len() + 4 <= isize::MAX {
                        &&& self.spec_bufs()[0].bytes() == bytes_after_insert(b.bytes(), b.cursor(), c)
                        &&& self.spec_bufs()[0].cursor() == b.cursor() + vstd::utf8::encode_utf8(seq![c]).len()
                    } else {
                        self.spec_bufs()[0] == b
                    }
                })
            },
            Command::MoveCursor => self == before,
        }
    }

    /// Carries out an editor command.
    fn do_cmd(&mut self, cmd: Command)
        requires
            old(self).wf(),
        ensures
            final(self).wf(),
            final(self).did(*old(self), cmd),
    {
        match cmd {
            Command::Quit => {
                if self.bufs.len() > 0 {
                    self.bufs.remove(0);
                    assert(self.spec_bufs() =~= old(self).spec_bufs().drop_first());
                }
            },
            Command::Modal(mode) => {
                self.mode = mode;
            },
            Command::Insert(ch) => {
                if self.bufs.len() > 0 {
                    assert(self.spec_bufs()[0].wf());
                    let n = self.bufs[0].len();
                    if n <= isize::MAX as usize - 4 {
                        let mut b = self.bufs.remove(0);
                        b.insert(ch);
                        self.bufs.insert(0, b);
                        assert(self.spec_bufs().drop_first() =~= old(self).spec_bufs().drop_first());
                    }
                }
            },
            Command::MoveCursor => {},
        }
    }

    /// Whether any buffer is still open.
    pub fn is_editing(&self) -> (r: bool)
        ensures
            r == (self.spec_bufs().len() > 0),
    {
        self.bufs.len() > 0
    }

    /// Records a new screen size.
    pub fn resize(&mut self, w: usize, h: usize)
        ensures
            final(self).spec_width() == w,
            final(self).spec_height() == h,
            final(self).spec_top() == old(self).spec_top(),
            final(self).spec_mode() == old(self).spec_mode(),
            final(self).spec_bufs() == old(self).spec_bufs(),
    {
        self.width = w;
        self.height = h;
    }
}

} // verus!
