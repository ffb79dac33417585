use vstd::prelude::*;

verus! {

/// A key press, as delivered by a terminal driver.
#[derive(Clone, Copy, PartialEq, Eq, Hash, Debug, Structural)]
pub enum Key {
    Tab,
    Enter,
    Esc,
    Backspace,
    Right,
    Left,
    Up,
    Down,
    Delete,
    Insert,
    Home,
    End,
    PageUp,
    PageDown,
    Char(char),
    Ctrl(char),
    F(u32),
    Unknown(u16),
}

} // verus!
