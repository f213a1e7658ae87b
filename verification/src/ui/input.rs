use vstd::prelude::*;

verus! {

/// A key of the keyboard, as the screens tell keys apart.
#[derive(Clone, Copy, Debug, PartialEq, Eq, Structural)]
pub enum KeyCode {
    Up,
    Down,
    Left,
    Right,
    Home,
    End,
    PageUp,
    PageDown,
    Enter,
    Esc,
    Tab,
    BackTab,
    Backspace,
    Delete,
    F(u8),
    Char(char),
    Other,
}

/// A key press with the modifiers held.
#[derive(Clone, Copy, Debug, PartialEq, Eq, Structural)]
pub struct KeyPress {
    pub code: KeyCode,
    pub ctrl: bool,
    pub alt: bool,
    pub shift: bool,
}

impl KeyPress {
    /// No modifier is held.
    pub open spec fn plain_spec(self) -> bool {
        !self.ctrl && !self.alt && !self.shift
    }

    pub fn is_plain(&self) -> (r: bool)
        ensures
            r == self.plain_spec(),
    {
        !self.ctrl && !self.alt && !self.shift
    }
}

/// Something the terminal reports: a key press, a turn of the mouse wheel, or anything else.
#[derive(Clone, Copy, Debug, PartialEq, Eq, Structural)]
pub enum InputEvent {
    Key(KeyPress),
    ScrollUp,
    ScrollDown,
    Other,
}

} // verus!
