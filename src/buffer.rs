//! A flat buffer of bytes kept in a gap buffer, with an insertion cursor,
//! and a reader over it.
use gapbuffer::GapBuffer;
use vstd::prelude::*;
use vstd::utf8::encode_utf8;
use crate::editor::text::push_char;

verus! {

#[verifier::external_type_specification]
#[verifier::external_body]
#[verifier::reject_recursive_types(T)]
pub struct ExGapBuffer<T>(GapBuffer<T>);

#[verifier::external_type_specification]
#[verifier::external_body]
pub struct ExIoError(std::io::Error);

/// The bytes a gap buffer holds, in order.
pub uninterp spec fn gap_contents(b: GapBuffer<u8>) -> Seq<u8>;

/// Relies on `GapBuffer::new`: a buffer that holds nothing.
#[verifier::external_body]
fn gap_new() -> (r: GapBuffer<u8>)
    ensures
        gap_contents(r) == Seq::<u8>::empty(),
{
    GapBuffer::new()
}

/// Relies on `GapBuffer`'s `FromIterator`: the items, in the order given.
#[verifier::external_body]
fn gap_from_vec(v: Vec<u8>) -> (r: GapBuffer<u8>)
    ensures
        gap_contents(r) == v@,
{
    v.into_iter().collect()
}

/// Relies on `GapBuffer::len`: the number of items held.
#[verifier::external_body]
fn gap_len(b: &GapBuffer<u8>) -> (r: usize)
    ensures
        r == gap_contents(*b).len(),
{
    b.len()
}

/// Relies on `GapBuffer::insert`: `x` put in at index `i`, which may be the
/// length but not more (it panics there, as its `VecDeque` does when it
/// outgrows `isize::MAX` bytes).
#[verifier::external_body]
fn gap_insert(b: &mut GapBuffer<u8>, i: usize, x: u8)
    requires
        i <= gap_contents(*old(b)).len(),
        gap_contents(*old(b)).len() < isize::MAX,
    ensures
        gap_contents(*final(b)) == gap_contents(*old(b)).insert(i as int, x),
{
    b.insert(i, x)
}

/// Relies on `GapBuffer::get`: the item at index `i`, if there is one.
#[verifier::external_body]
fn gap_get(b: &GapBuffer<u8>, i: usize) -> (r: Option<u8>)
    ensures
        i < gap_contents(*b).len() ==> r == Some(gap_contents(*b)[i as int]),
        i >= gap_contents(*b).len() ==> r is None,
{
    b.get(i).copied()
}

/// `bytes` with the UTF-8 encoding of `c` put in at `cursor`.
pub open spec fn bytes_after_insert(bytes: Seq<u8>, cursor: nat, c: char) -> Seq<u8> {
    bytes.take(cursor as int) + encode_utf8(seq![c]) + bytes.skip(cursor as int)
}

enum BufferMode {
    Character,
    Line,
}

/// A flat buffer of bytes with an insertion cursor.
pub struct Buffer {
    cursor: usize,
    mode: BufferMode,
    buf: GapBuffer<u8>,
}

impl Buffer {
    /// The bytes held, in order.
    pub closed spec fn bytes(&self) -> Seq<u8> {
        gap_contents(self.buf)
    }

    /// Where the next inserted byte goes.
    pub closed spec fn cursor(&self) -> nat {
        self.cursor as nat
    }

    /// The cursor lies within the bytes or just after them.
    pub open spec fn wf(&self) -> bool {
        self.cursor() <= self.bytes().len()
    }

    /// An empty buffer.
    pub fn new() -> (r: Buffer)
        ensures
            r.bytes() == Seq::<u8>::empty(),
            r.cursor() == 0,
            r.wf(),
    {
        Buffer { cursor: 0, mode: BufferMode::Line, buf: gap_new() }
    }

    /// A buffer holding `bytes`, with the cursor at the start.
    pub fn from_iter(bytes: Vec<u8>) -> (r: Buffer)
        ensures
            r.bytes() == bytes@,
            r.cursor() == 0,
            r.wf(),
    {
        Buffer { cursor: 0, mode: BufferMode::Line, buf: gap_from_vec(bytes) }
    }

    /// The number of bytes held.
    pub fn len(&self) -> (r: usize)
        ensures
            r == self.bytes().len(),
    {
        gap_len(&self.buf)
    }

    /// The bytes held, in order.
    pub fn iter(&self) -> (r: Vec<u8>)
        ensures
            r@ == self.bytes(),
    {
        let n = gap_len(&self.buf);
        let mut out: Vec<u8> = Vec::new();
        let mut i: usize = 0;
        while i < n
            invariant
                n == self.bytes().len(),
                i <= n,
                out@ == self.bytes().take(i as int),
            decreases n - i,
        {
            let b = gap_get(&self.buf, i);
            match b {
                Some(x) => {
                    out.push(x);
                },
                None => {},
            }
            assert(self.bytes().take(i + 1) =~= self.bytes().take(i as int).push(
                self.bytes()[i as int],
            ));
            i = i + 1;
        }
        assert(self.bytes().take(n as int) =~= self.bytes());
        out
    }

    /// A reader over the bytes, from the start.
    pub fn as_read<'a>(&'a self) -> (r: Bytes<'a>)
        ensures
            r.source() == self.bytes(),
            r.position() == 0,
    {
        Bytes { idx: 0, buf: &self.buf }
    }

    /// A reader over the bytes, from byte `from` on.
    pub fn as_read_from<'a>(&'a self, from: usize) -> (r: Bytes<'a>)
        ensures
            r.source() == self.bytes(),
            r.position() == from,
    {
        Bytes { idx: from, buf: &self.buf }
    }

    /// Puts the UTF-8 encoding of `c` in at the cursor, and moves the cursor
    /// past it.
    pub fn insert(&mut self, c: char)
        requires
            old(self).wf(),
            old(self).bytes().len() + 4 <= isize::MAX,
        ensures
            final(self).wf(),
            final(self).bytes() == bytes_after_insert(old(self).bytes(), old(self).cursor(), c),
            final(self).cursor() == old(self).cursor() + encode_utf8(seq![c]).len(),
    {
        let mut s = String::new();
        push_char(&mut s, c);
        let enc = vstd::slice::slice_to_vec(s.as_str().as_bytes());
        proof {
            assert(s@ =~= seq![c]);
            assert(seq![c].drop_first() =~= Seq::<char>::empty());
            assert(encode_utf8(Seq::<char>::empty()) =~= Seq::<u8>::empty());
            assert(encode_utf8(seq![c]) =~= vstd::utf8::encode_scalar(c as u32));
        }
        let ghost before = self.bytes();
        let ghost start = self.cursor();
        let mut i: usize = 0;
        while i < enc.len()
            invariant
                enc@ == encode_utf8(seq![c]),
                enc@.len() <= 4,
                before.len() + 4 <= isize::MAX,
                start <= before.len(),
                i <= enc@.len(),
                self.cursor == start + i,
                self.bytes() == before.take(start as int) + enc@.take(i as int) + before.skip(
                    start as int,
                ),
            decreases enc.len() - i,
        {
            gap_insert(&mut self.buf, self.cursor, enc[i]);
            assert(before.take(start as int) + enc@.take(i + 1) + before.skip(start as int)
                =~= (before.take(start as int) + enc@.take(i as int) + before.skip(
                start as int,
            )).insert(start + i, enc@[i as int]));
            self.cursor = self.cursor + 1;
            i = i + 1;
        }
        assert(enc@.take(enc@.len() as int) =~= enc@);
    }
}

/// A reader over the bytes of a buffer, from a position on.
pub struct Bytes<'a> {
    idx: usize,
    buf: &'a GapBuffer<u8>,
}

impl<'a> Bytes<'a> {
    /// The bytes read from.
    pub closed spec fn source(&self) -> Seq<u8> {
        gap_contents(*self.buf)
    }

    /// Where the next read starts.
    pub closed spec fn position(&self) -> nat {
        self.idx as nat
    }

    /// Copies bytes from the current position into `out`, as many as fit
    /// and as remain, moves the position past them, and says how many.
    pub fn read_into(&mut self, out: &mut [u8]) -> (r: usize)
        ensures
            final(self).source() == old(self).source(),
            r == (if old(self).position() >= old(self).source().len() {
                0
            } else if old(out)@.len() <= old(self).source().len() - old(self).position() {
                old(out)@.len() as int
            } else {
                old(self).source().len() - old(self).position()
            }),
            final(self).position() == old(self).position() + r,
            final(out)@.len() == old(out)@.len(),
            r > 0 ==> final(out)@.take(r as int) == old(self).source().subrange(
                old(self).position() as int,
                old(self).position() + r,
            ),
            final(out)@.skip(r as int) == old(out)@.skip(r as int),
    {
        let expected = out.len();
        let size = gap_len(self.buf);
        let n = if self.idx >= size {
            0
        } else if expected <= size - self.idx {
            expected
        } else {
            size - self.idx
        };
        if n == 0 {
            return 0;
        }
        let ghost src = gap_contents(*self.buf);
        let ghost start = self.idx as int;
        let ghost orig = out@;
        let mut i: usize = 0;
        while i < n
            invariant
                src == gap_contents(*self.buf),
                n <= out@.len(),
                start == self.idx,
                start + n <= src.len(),
                src.len() <= usize::MAX,
                i <= n,
                out@.len() == orig.len(),
                out@.take(i as int) == src.subrange(start, start + i),
                out@.skip(i as int) == orig.skip(i as int),
            decreases n - i,
        {
            let b = gap_get(self.buf, self.idx + i);
            let ghost prev = out@;
            match b {
                Some(x) => {
                    out[i] = x;
                },
                None => {},
            }
            assert(out@.take(i + 1) =~= src.subrange(start, start + i + 1));
            assert(out@.skip(i + 1) =~= orig.skip(i + 1)) by {
                assert(out@ == prev.update(i as int, src[start + i]));
                assert forall|j: int| 0 <= j < orig.len() - (i + 1) implies #[trigger] out@.skip(i + 1)[j]
                    == orig.skip(i + 1)[j] by {
                    assert(prev.skip(i as int)[j + 1] == orig.skip(i as int)[j + 1]);
                }
            }
            i = i + 1;
        }
        self.idx = self.idx + n;
        n
    }
}

impl<'a> std::io::Read for Bytes<'a> {
    fn read(&mut self, buf: &mut [u8]) -> std::io::Result<usize> {
        Ok(self.read_into(buf))
    }
}

} // verus!
