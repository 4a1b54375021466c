//! Terminal input as the console understands it.

use vstd::prelude::*;

verus! {

/// A key of the keyboard. Keys that the console has no use for are `Other`.
#[derive(Debug, Clone, Copy, PartialEq, Eq, Structural)]
pub enum KeyCode {
    Backspace,
    Enter,
    Left,
    Right,
    Up,
    Down,
    Home,
    End,
    PageUp,
    PageDown,
    Tab,
    BackTab,
    Delete,
    Insert,
    F(u8),
    Char(char),
    Null,
    Esc,
    Other,
}

/// The modifier keys held down with a key.
#[derive(Debug, Clone, Copy, PartialEq, Eq, Structural)]
pub struct KeyModifiers {
    pub shift: bool,
    pub control: bool,
    pub alt: bool,
    pub logo: bool,
    pub hyper: bool,
    pub meta: bool,
}

impl KeyModifiers {
    /// Whether no modifier is held down.
    pub open spec fn none(self) -> bool {
        !self.shift && !self.control && !self.alt && !self.logo && !self.hyper && !self.meta
    }

    /// No modifier held down.
    pub fn empty() -> (modifiers: KeyModifiers)
        ensures
            modifiers.none(),
    {
        KeyModifiers {
            shift: false,
            control: false,
            alt: false,
            logo: false,
            hyper: false,
            meta: false,
        }
    }

    /// Whether no modifier is held down.
    pub fn is_empty(&self) -> (empty: bool)
        ensures
            empty == self.none(),
    {
        !self.shift && !self.control && !self.alt && !self.logo && !self.hyper && !self.meta
    }
}

/// What happened to a key.
#[derive(Debug, Clone, Copy, PartialEq, Eq, Structural)]
pub enum KeyEventKind {
    Press,
    Repeat,
    Release,
}

/// A key, its modifiers and what happened to it.
#[derive(Debug, Clone, Copy, PartialEq, Eq, Structural)]
pub struct KeyEvent {
    pub code: KeyCode,
    pub modifiers: KeyModifiers,
    pub kind: KeyEventKind,
}

impl KeyEvent {
    /// The press of a key.
    pub fn new(code: KeyCode, modifiers: KeyModifiers) -> (event: KeyEvent)
        ensures
            event == (KeyEvent { code, modifiers, kind: KeyEventKind::Press }),
    {
        KeyEvent { code, modifiers, kind: KeyEventKind::Press }
    }
}

/// One event from the terminal.
#[derive(Debug, Clone, PartialEq, Eq)]
pub enum Event {
    Resize,
    Paste(String),
    Key(KeyEvent),
    /// Mouse and focus events, which the console has no use for.
    Other,
}

} // verus!
