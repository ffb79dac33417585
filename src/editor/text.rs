//! Text measurement and line framing: grapheme clusters, blanks, and the
//! split of a document into lines and back.
use unicode_segmentation::UnicodeSegmentation;
use vstd::prelude::*;
use vstd::seq_lib::lemma_flatten_concat;
use vstd::string::StrSliceExecFns;

verus! {

broadcast use vstd::string::group_string_axioms;

/// The extended grapheme clusters of a line, in order.
pub uninterp spec fn grapheme_split(s: Seq<char>) -> Seq<Seq<char>>;

/// Relies on `UnicodeSegmentation::graphemes(s, true)`: the extended
/// grapheme clusters of `s`, in order; each is non-empty and together they
/// spell `s`.
#[verifier::external_body]
pub(crate) fn graphemes<'a>(s: &'a str) -> (r: Vec<&'a str>)
    ensures
        r@.map_values(|g: &str| g@) == grapheme_split(s@),
        r@.map_values(|g: &str| g@).flatten() == s@,
        forall|i: int| 0 <= i < r@.len() ==> (#[trigger] r@[i])@.len() > 0,
{
    s.graphemes(true).collect()
}

/// Relies on `String::push`: appends one character.
#[verifier::external_body]
pub(crate) fn push_char(s: &mut String, c: char)
    ensures
        final(s)@ == old(s)@.push(c),
{
    s.push(c)
}

/// The number of grapheme clusters of a line: its width in cursor columns.
pub open spec fn width_of(s: Seq<char>) -> nat {
    grapheme_split(s).len()
}

/// The column of the last grapheme of a line, 0 on an empty line.
pub open spec fn last_column(s: Seq<char>) -> nat {
    if width_of(s) > 0 {
        (width_of(s) - 1) as nat
    } else {
        0
    }
}

/// The number of characters in the first `col` grapheme clusters of a line
/// (all of them when `col` is past the end): where column `col` starts.
pub open spec fn column_offset(s: Seq<char>, col: nat) -> nat {
    let w = width_of(s);
    let n = if col <= w { col } else { w };
    grapheme_split(s).take(n as int).flatten().len()
}

/// The characters that have the Unicode `White_Space` property.
pub open spec fn is_blank_char(c: char) -> bool {
    ||| '\u{9}' <= c <= '\u{d}'
    ||| c == ' '
    ||| c == '\u{85}'
    ||| c == '\u{a0}'
    ||| c == '\u{1680}'
    ||| '\u{2000}' <= c <= '\u{200a}'
    ||| c == '\u{2028}'
    ||| c == '\u{2029}'
    ||| c == '\u{202f}'
    ||| c == '\u{205f}'
    ||| c == '\u{3000}'
}

/// A grapheme cluster that starts with a blank.
pub open spec fn is_blank_grapheme(g: Seq<char>) -> bool {
    g.len() > 0 && is_blank_char(g[0])
}

/// The index of the first cluster at or after `i` that is not blank, or 0
/// when there is none.
pub open spec fn first_non_blank_from(gs: Seq<Seq<char>>, i: nat) -> nat
    decreases gs.len() - i,
{
    if i >= gs.len() {
        0
    } else if !is_blank_grapheme(gs[i as int]) {
        i
    } else {
        first_non_blank_from(gs, i + 1)
    }
}

/// The column of the first non-blank grapheme of a line, 0 when it has none.
pub open spec fn first_non_blank(s: Seq<char>) -> nat {
    first_non_blank_from(grapheme_split(s), 0)
}

/// Whether `c` has the Unicode `White_Space` property.
pub fn is_blank(c: char) -> (r: bool)
    ensures
        r == is_blank_char(c),
{
    ('\u{9}' <= c && c <= '\u{d}') || c == ' ' || c == '\u{85}' || c == '\u{a0}' || c
        == '\u{1680}' || ('\u{2000}' <= c && c <= '\u{200a}') || c == '\u{2028}' || c
        == '\u{2029}' || c == '\u{202f}' || c == '\u{205f}' || c == '\u{3000}'
}

/// The number of grapheme clusters in `s`.
pub fn width(s: &str) -> (r: usize)
    ensures
        r == width_of(s@),
{
    let gs = graphemes(s);
    gs.len()
}


/// Where column `col` of `s` starts, in characters, together with the width
/// of `s`.
pub fn column_start(s: &str, col: usize) -> (r: (usize, usize))
    ensures
        r.0 == column_offset(s@, col as nat),
        r.0 <= s@.len(),
        r.1 == width_of(s@),
{
    let gs = graphemes(s);
    let ghost parts = gs@.map_values(|g: &str| g@);
    let n = if col <= gs.len() { col } else { gs.len() };
    let total = s.unicode_len();
    let mut k: usize = 0;
    let mut i: usize = 0;
    while i < n
        invariant
            n <= gs@.len(),
            total == s@.len(),
            parts == grapheme_split(s@),
            i <= n,
            parts == gs@.map_values(|g: &str| g@),
            parts.flatten() == s@,
            k == parts.take(i as int).flatten().len(),
            k <= s@.len(),
        decreases n - i,
    {
        proof {
            assert(parts.take(i + 1) =~= parts.take(i as int).push(parts[i as int]));
            parts.take(i as int).lemma_flatten_push(parts[i as int]);
            assert(parts =~= parts.take(i + 1) + parts.skip(i + 1));
            lemma_flatten_concat(parts.take(i + 1), parts.skip(i + 1));
            assert(parts[i as int] == gs@[i as int]@);
        }
        k = k + gs[i].unicode_len();
        i = i + 1;
    }
    (k, gs.len())
}

/// The column of the first non-blank grapheme of `s`, 0 when it has none.
pub fn first_non_blank_column(s: &str) -> (r: usize)
    ensures
        r == first_non_blank(s@),
{
    let gs = graphemes(s);
    let ghost parts = gs@.map_values(|g: &str| g@);
    let mut i: usize = 0;
    while i < gs.len()
        invariant
            i <= gs@.len(),
            parts == gs@.map_values(|g: &str| g@),
            parts == grapheme_split(s@),
            forall|j: int| 0 <= j < gs@.len() ==> (#[trigger] gs@[j])@.len() > 0,
            first_non_blank_from(parts, 0) == first_non_blank_from(parts, i as nat),
        decreases gs.len() - i,
    {
        let g = gs[i];
        proof {
            assert(parts[i as int] == g@);
            assert(gs@[i as int]@.len() > 0);
        }
        if !is_blank(g.get_char(0)) {
            return i;
        }
        i = i + 1;
    }
    0
}


/// Where the first `'\n'` of `s` stands, or `s.len()` when it has none.
pub open spec fn newline_at(s: Seq<char>) -> nat
    decreases s.len(),
{
    if s.len() == 0 {
        0
    } else if s[0] == '\n' {
        0
    } else {
        1 + newline_at(s.drop_first())
    }
}

/// A line with no `'\n'` in it.
pub open spec fn is_single_line(s: Seq<char>) -> bool {
    forall|i: int| 0 <= i < s.len() ==> s[i] != '\n'
}

/// A line without the `'\r'` that ends it, if one does.
pub open spec fn strip_cr(s: Seq<char>) -> Seq<char> {
    if s.len() > 0 && s.last() == '\r' {
        s.drop_last()
    } else {
        s
    }
}

/// The lines of a document: the text is cut at each `'\n'`, a `'\r'` just
/// before a `'\n'` goes with it, and a final `'\n'` starts no new line.
pub open spec fn split_lines(s: Seq<char>) -> Seq<Seq<char>>
    decreases s.len(),
{
    if s.len() == 0 {
        seq![]
    } else {
        let i = newline_at(s);
        if i >= s.len() {
            seq![s]
        } else {
            seq![strip_cr(s.take(i as int))] + split_lines(s.skip(i + 1 as int))
        }
    }
}

/// A document written line by line, each line followed by `'\n'`.
pub open spec fn join_lines(ls: Seq<Seq<char>>) -> Seq<char>
    decreases ls.len(),
{
    if ls.len() == 0 {
        seq![]
    } else {
        ls[0] + seq!['\n'] + join_lines(ls.drop_first())
    }
}

proof fn lemma_newline_at_end(cur: Seq<char>, rest: Seq<char>)
    requires
        is_single_line(cur),
    ensures
        newline_at(cur + rest) == cur.len() + newline_at(rest),
    decreases cur.len(),
{
    if cur.len() > 0 {
        assert((cur + rest).drop_first() =~= cur.drop_first() + rest);
        lemma_newline_at_end(cur.drop_first(), rest);
    } else {
        assert(cur + rest =~= rest);
    }
}

proof fn lemma_split_after_line(cur: Seq<char>, rest: Seq<char>)
    requires
        is_single_line(cur),
    ensures
        split_lines(cur + seq!['\n'] + rest) == seq![strip_cr(cur)] + split_lines(rest),
{
    let s = cur + seq!['\n'] + rest;
    assert(s =~= cur + (seq!['\n'] + rest));
    lemma_newline_at_end(cur, seq!['\n'] + rest);
    assert(newline_at(seq!['\n'] + rest) == 0);
    assert(s.take(cur.len() as int) =~= cur);
    assert(s.skip(cur.len() + 1 as int) =~= rest);
}

proof fn lemma_split_last_line(cur: Seq<char>)
    requires
        is_single_line(cur),
    ensures
        split_lines(cur) == (if cur.len() == 0 { seq![] } else { seq![cur] }),
{
    lemma_newline_at_end(cur, seq![]);
    assert(cur + seq![] =~= cur);
}

proof fn lemma_join_push(ls: Seq<Seq<char>>, l: Seq<char>)
    ensures
        join_lines(ls.push(l)) == join_lines(ls) + l + seq!['\n'],
    decreases ls.len(),
{
    if ls.len() == 0 {
        let t = ls.push(l);
        assert(t[0] == l);
        assert(t.drop_first().len() == 0);
        assert(join_lines(t.drop_first()) == Seq::<char>::empty());
        assert(join_lines(t) =~= l + seq!['\n']);
        assert(join_lines(ls) + l + seq!['\n'] =~= l + seq!['\n']);
    } else {
        assert(ls.push(l).drop_first() =~= ls.drop_first().push(l));
        lemma_join_push(ls.drop_first(), l);
        assert(join_lines(ls.push(l)) =~= join_lines(ls) + l + seq!['\n']);
    }
}

/// Lines written out with `join_lines` read back, by `split_lines`, as the
/// same lines, provided none holds a `'\n'` or ends with a `'\r'`.
pub proof fn lemma_split_join(ls: Seq<Seq<char>>)
    requires
        forall|i: int| 0 <= i < ls.len() ==> is_single_line(#[trigger] ls[i]),
        forall|i: int| 0 <= i < ls.len() ==> strip_cr(#[trigger] ls[i]) == ls[i],
    ensures
        split_lines(join_lines(ls)) == ls,
    decreases ls.len(),
{
    if ls.len() > 0 {
        let rest = ls.drop_first();
        assert forall|i: int| 0 <= i < rest.len() implies is_single_line(#[trigger] rest[i])
            && strip_cr(rest[i]) == rest[i] by {
            assert(rest[i] == ls[i + 1]);
        }
        lemma_split_join(rest);
        lemma_split_after_line(ls[0], join_lines(rest));
        assert(seq![ls[0]] + rest =~= ls);
    } else {
        assert(split_lines(join_lines(ls)) =~= ls);
    }
}

fn strip_cr_of(cur: &String) -> (r: String)
    ensures
        r@ == strip_cr(cur@),
{
    let n = cur.as_str().unicode_len();
    if n > 0 && cur.as_str().get_char(n - 1) == '\r' {
        let t = cur.as_str().substring_char(0, n - 1);
        let r = String::from_str(t);
        assert(r@ =~= cur@.drop_last());
        r
    } else {
        cur.clone()
    }
}

/// Cuts a document into its lines.
pub fn split_text(s: &str) -> (r: Vec<String>)
    ensures
        r@.map_values(|l: String| l@) == split_lines(s@),
        forall|i: int| 0 <= i < r@.len() ==> is_single_line(#[trigger] r@[i]@),
{
    let mut out: Vec<String> = Vec::new();
    let mut cur = String::new();
    let ghost whole = s@;
    let ghost mut idx: int = 0;
    proof {
        assert(cur@ + whole.skip(0) =~= whole);
        assert(out@.map_values(|l: String| l@) + split_lines(whole) =~= split_lines(whole));
    }
    for c in it: s.chars()
        invariant
            whole == s@,
            it.seq() == whole,
            idx == it.index(),
            is_single_line(cur@),
            forall|i: int| 0 <= i < out@.len() ==> is_single_line(#[trigger] out@[i]@),
            out@.map_values(|l: String| l@) + split_lines(cur@ + whole.skip(idx as int))
                == split_lines(whole),
    {
        proof {
            assert(whole.skip(idx as int) =~= seq![c] + whole.skip(idx + 1));
        }
        if c == '\n' {
            proof {
                assert(cur@ + whole.skip(idx as int) =~= cur@ + seq!['\n'] + whole.skip(
                    idx + 1,
                ));
                lemma_split_after_line(cur@, whole.skip(idx + 1));
            }
            let line = strip_cr_of(&cur);
            proof {
                assert forall|i: int| 0 <= i < line@.len() implies line@[i] != '\n' by {
                    assert(line@[i] == cur@[i]);
                }
            }
            let ghost before = out@.map_values(|l: String| l@);
            out.push(line);
            cur = String::new();
            proof {
                assert(out@.map_values(|l: String| l@) =~= before.push(line@));
                assert(cur@ + whole.skip(idx + 1) =~= whole.skip(idx + 1));
                assert(before.push(line@) + split_lines(whole.skip(idx + 1)) =~= before + (seq![
                    line@,
                ] + split_lines(whole.skip(idx + 1))));
            }
        } else {
            let ghost before = cur@;
            push_char(&mut cur, c);
            proof {
                assert(cur@ + whole.skip(idx + 1) =~= before + whole.skip(idx as int));
            }
        }
        proof {
            idx = idx + 1;
        }
    }
    proof {
        assert(whole.skip(idx as int) =~= seq![]);
        assert(cur@ + whole.skip(idx as int) =~= cur@);
        lemma_split_last_line(cur@);
    }
    if cur.as_str().unicode_len() > 0 {
        out.push(cur);
    }
    out
}


/// Writes lines out as a document, each line followed by `'\n'`.
pub fn join_text(lines: &Vec<String>) -> (r: String)
    ensures
        r@ == join_lines(lines@.map_values(|l: String| l@)),
{
    let ghost ls = lines@.map_values(|l: String| l@);
    let mut r = String::new();
    let mut i: usize = 0;
    proof {
        reveal_strlit("\n");
        assert(ls.take(0) =~= seq![]);
    }
    while i < lines.len()
        invariant
            i <= lines@.len(),
            ls == lines@.map_values(|l: String| l@),
            r@ == join_lines(ls.take(i as int)),
        decreases lines.len() - i,
    {
        proof {
            lemma_join_push(ls.take(i as int), ls[i as int]);
            assert(ls.take(i + 1) =~= ls.take(i as int).push(ls[i as int]));
            reveal_strlit("\n");
            assert("\n"@ =~= seq!['\n']);
            assert(lines@[i as int]@ == ls[i as int]);
        }
        r.append(lines[i].as_str());
        r.append("\n");
        i = i + 1;
    }
    proof {
        assert(ls.take(i as int) =~= ls);
    }
    r
}


/// The characters of `s` before position `k`, as a new string.
pub fn prefix(s: &str, k: usize) -> (r: String)
    requires
        k <= s@.len(),
    ensures
        r@ == s@.take(k as int),
{
    String::from_str(s.substring_char(0, k))
}

/// The characters of `s` from position `k` on, as a new string.
pub fn suffix(s: &str, k: usize) -> (r: String)
    requires
        k <= s@.len(),
    ensures
        r@ == s@.skip(k as int),
{
    let n = s.unicode_len();
    String::from_str(s.substring_char(k, n))
}

/// `s` with `c` put in at character position `k`.
pub fn insert_char(s: &str, k: usize, c: char) -> (r: String)
    requires
        k <= s@.len(),
    ensures
        r@ == s@.take(k as int).push(c) + s@.skip(k as int),
{
    let mut r = prefix(s, k);
    push_char(&mut r, c);
    let n = s.unicode_len();
    r.append(s.substring_char(k, n));
    r
}

/// The last component of a path: what follows its last `'/'`.
pub open spec fn file_name(p: Seq<char>) -> Seq<char>
    decreases p.len(),
{
    if p.len() == 0 {
        p
    } else if p.last() == '/' {
        seq![]
    } else {
        file_name(p.drop_last()).push(p.last())
    }
}

/// The last component of the path `p`.
pub fn file_name_of(p: &str) -> (r: String)
    ensures
        r@ == file_name(p@),
{
    let ghost whole = p@;
    let mut cur = String::new();
    let ghost mut idx: int = 0;
    proof {
        assert(whole.take(0) =~= seq![]);
    }
    for c in it: p.chars()
        invariant
            whole == p@,
            it.seq() == whole,
            idx == it.index(),
            cur@ == file_name(whole.take(idx)),
    {
        proof {
            assert(whole.take(idx + 1).drop_last() =~= whole.take(idx));
            assert(whole.take(idx + 1).last() == c);
        }
        if c == '/' {
            cur = String::new();
        } else {
            push_char(&mut cur, c);
        }
        proof {
            idx = idx + 1;
        }
    }
    proof {
        assert(whole.take(idx) =~= whole);
    }
    cur
}


/// Whether two strings hold the same characters.
pub fn same_text(a: &str, b: &str) -> (r: bool)
    ensures
        r == (a@ == b@),
{
    let n = a.unicode_len();
    if n != b.unicode_len() {
        return false;
    }
    let mut i: usize = 0;
    while i < n
        invariant
            n == a@.len(),
            n == b@.len(),
            i <= n,
            forall|j: int| 0 <= j < i ==> a@[j] == b@[j],
        decreases n - i,
    {
        if a.get_char(i) != b.get_char(i) {
            return false;
        }
        i = i + 1;
    }
    assert(a@ =~= b@);
    true
}

} // verus!
