use vstd::prelude::*;

verus! {

/// The unit of text an operator may act on.
#[derive(Debug)]
pub enum TextObject {
    Char,
    Word,
    Line,
    Sentence,
    Paragraph,
}

/// Where, relative to a text object, a position lies.
#[derive(Debug)]
pub enum Relative {
    Before,
    Begin,
    Current,
    End,
    After,
}

} // verus!
