//!
//! Results of event handling.
//!
use vstd::prelude::*;

verus! {

/// General result of event handling.
#[derive(Debug, Clone, Copy, PartialEq, Eq, Structural)]
pub enum Outcome {
    /// The given event was not handled at all.
    Continue,
    /// The event was handled, no repaint necessary.
    Unchanged,
    /// The event was handled, repaint necessary.
    Changed,
}

impl Outcome {
    /// Has the event been used up?
    pub fn is_consumed(&self) -> (r: bool)
        ensures
            r == (*self != Outcome::Continue),
    {
        !matches!(self, Outcome::Continue)
    }
}

/// A key, as far as the widgets tell keys apart.
#[derive(Debug, Clone, Copy, PartialEq, Eq, Structural)]
pub enum KeyCode {
    Home,
    End,
    Up,
    Down,
    Left,
    Right,
    PageUp,
    PageDown,
    Enter,
    Esc,
    Delete,
    Backspace,
    /// A character key.
    Char(char),
    /// Any other key.
    Other,
}

/// A key press, with the modifiers held down.
#[derive(Debug, Clone, Copy, PartialEq, Eq, Structural)]
pub struct KeyPress {
    pub code: KeyCode,
    pub shift: bool,
    pub control: bool,
    pub alt: bool,
}

impl KeyPress {
    /// The press of `code` with exactly the given modifiers.
    pub open spec fn is(self, code: KeyCode, shift: bool, control: bool, alt: bool) -> bool {
        self.code == code && self.shift == shift && self.control == control && self.alt == alt
    }
}

/// The phase of a key event.
#[derive(Debug, Clone, Copy, PartialEq, Eq, Structural)]
pub enum KeyKind {
    Press,
    Repeat,
    Release,
}

/// A key event of any phase: the key with its modifiers, and whether it
/// was pressed, repeated or released.
#[derive(Debug, Clone, Copy, PartialEq, Eq, Structural)]
pub struct KeyStroke {
    pub key: KeyPress,
    pub kind: KeyKind,
}

/// What the mouse did, as far as the widgets tell it apart.
#[derive(Debug, Clone, Copy, PartialEq, Eq, Structural)]
pub enum MouseKind {
    /// The left button went down.
    LeftDown,
    /// The mouse moved with the left button down.
    LeftDrag,
    /// The wheel turned up.
    ScrollUp,
    /// The wheel turned down.
    ScrollDown,
    /// The mouse moved with no button down.
    Moved,
    /// Anything else.
    Other,
}

/// A mouse event at a cell, with the modifiers held down.
#[derive(Debug, Clone, Copy, PartialEq, Eq, Structural)]
pub struct MouseInput {
    pub kind: MouseKind,
    pub column: u16,
    pub row: u16,
    pub shift: bool,
    pub control: bool,
    pub alt: bool,
}

impl MouseInput {
    /// The event is of this kind with exactly the given modifiers.
    pub open spec fn is(self, kind: MouseKind, shift: bool, control: bool, alt: bool) -> bool {
        self.kind == kind && self.shift == shift && self.control == control && self.alt == alt
    }
}

/// An input event, as far as the widgets read it.
#[derive(Debug, Clone, Copy, PartialEq, Eq, Structural)]
pub enum Input {
    Key(KeyPress),
    Mouse(MouseInput),
    Other,
}

} // verus!
