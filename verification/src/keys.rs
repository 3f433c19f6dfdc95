use vstd::prelude::*;

verus! {

/// A key press as the editor reads it from the terminal.
#[derive(Clone, Copy, Debug, PartialEq, Eq, Structural)]
pub enum Key {
    Backspace,
    Left,
    Right,
    Up,
    Down,
    Home,
    End,
    PageUp,
    PageDown,
    Delete,
    Esc,
    /// A character typed without a modifier.
    Char(char),
    /// A character typed with Ctrl held.
    Ctrl(char),
    /// Any key that the editor does not act on.
    Other,
}

} // verus!
