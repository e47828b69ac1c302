//! Key presses as the interface sees them.
use vstd::prelude::*;

verus! {

/// The key of a key press.
#[derive(Clone, Copy, Debug, PartialEq, Eq, Structural)]
pub enum KeyCode {
    Backspace,
    Enter,
    Left,
    Right,
    Up,
    Down,
    Home,
    End,
    PageUp,
    PageDown,
    Tab,
    BackTab,
    Delete,
    Insert,
    Esc,
    Char(char),
    F(u8),
    Null,
}

/// A key press: the key, and whether Control was held.
#[derive(Clone, Copy, Debug, PartialEq, Eq, Structural)]
pub struct KeyPress {
    pub code: KeyCode,
    pub ctrl: bool,
}

impl KeyPress {
    /// A press of `code` with no modifier.
    pub fn new(code: KeyCode) -> (r: KeyPress)
        ensures
            r == (KeyPress { code, ctrl: false }),
    {
        KeyPress { code, ctrl: false }
    }

    /// A press of `code` with Control held.
    pub fn with_ctrl(code: KeyCode) -> (r: KeyPress)
        ensures
            r == (KeyPress { code, ctrl: true }),
    {
        KeyPress { code, ctrl: true }
    }
}

} // verus!
