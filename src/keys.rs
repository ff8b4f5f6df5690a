use vstd::prelude::*;

verus! {

/// A key press delivered to a page by the host shell.
#[derive(Clone, Copy, Debug, PartialEq, Eq, Structural)]
pub enum Key {
    Up,
    Down,
    Left,
    Right,
    Enter,
    Esc,
    Backspace,
    Tab,
    Char(char),
    Ctrl(char),
}

/// Whether a page took an event, or left it for another handler.
#[derive(Clone, Copy, Debug, PartialEq, Eq, Structural)]
pub enum MessageResponse {
    Consumed,
    NotConsumed,
}

} // verus!
