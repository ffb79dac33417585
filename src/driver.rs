use vstd::prelude::*;

pub use crate::keyboard::Key;

verus! {

/// One input event from a terminal.
#[derive(Clone, Copy, PartialEq, Eq, Debug, Structural)]
pub enum EditorEvent {
    KeyEvent(Key),
    Resize(usize, usize),
    Unsupported,
}

/// The terminal capability the editor loop runs against: a blocking source
/// of events and the current size of the screen.
pub trait Driver {
    fn poll_event(&self) -> EditorEvent;

    fn height(&self) -> usize;

    fn width(&self) -> usize;
}

} // verus!
