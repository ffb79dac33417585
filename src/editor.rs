//! The line-oriented editing engine: buffers of lines with a cursor and a
//! viewport, the command grammar, and the session that dispatches keys.
pub mod buffer;
pub mod command;
pub mod state;
pub mod text;

pub use self::command::{Column, Command, Line, Motion, Span};
pub use self::state::State;

use vstd::prelude::*;

verus! {

/// A position as (column, line); tuples order by their first field, then
/// their second.
pub type Coord = (usize, usize);

/// A stretch of text between two positions.
pub type Range = (Coord, Coord);

/// Whether a yank also deletes what it copies.
pub enum Yank {
    YankOnly,
    YankDel,
}

/// The direction in which the viewport scrolls.
pub enum Direction {
    Up,
    Down,
}

} // verus!
