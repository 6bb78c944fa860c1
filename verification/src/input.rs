//! Normalized input: keys with modifiers, and the events the shell forwards.

use vstd::prelude::*;

verus! {

#[derive(Clone, Copy, Debug, PartialEq, Eq, Hash, Structural)]
pub enum Key {
    Char(char),
    F(u8),
    Up,
    Down,
    Left,
    Right,
    Enter,
    Esc,
    Tab,
    Backspace,
    PageUp,
    PageDown,
}

/// A key together with its modifiers.
#[derive(Clone, Copy, Debug, PartialEq, Eq, Hash, Structural)]
pub struct KeyChord {
    pub key: Key,
    pub ctrl: bool,
    pub alt: bool,
    pub shift: bool,
}

impl KeyChord {
    /// `key` without modifiers.
    pub fn plain(key: Key) -> (c: KeyChord)
        ensures
            c == (KeyChord { key, ctrl: false, alt: false, shift: false }),
    {
        KeyChord { key, ctrl: false, alt: false, shift: false }
    }
}

#[derive(Clone, Copy, Debug, PartialEq, Eq, Structural)]
pub enum MouseButton {
    Left,
    Right,
    Middle,
}

/// One input event in terminal cell coordinates.
#[derive(Clone, Copy, Debug, PartialEq, Eq, Structural)]
pub enum InputEvent {
    Key(KeyChord),
    MouseDown { button: MouseButton, col: u16, row: u16 },
    MouseUp { button: MouseButton, col: u16, row: u16 },
    MouseMove { col: u16, row: u16 },
    ScrollUp { col: u16, row: u16 },
    ScrollDown { col: u16, row: u16 },
    Resize { cols: u16, rows: u16 },
}

} // verus!
