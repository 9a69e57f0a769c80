//! Keyboard input as the console reads it: the keys it acts on, the
//! modifiers held with them, and whether a key went down or up.
use vstd::prelude::*;

verus! {

/// A key. The keys that the console does not act on are all `Other`.
#[derive(Debug, PartialEq, Eq, Copy, Clone, Structural)]
pub enum KeyCode {
    Backspace,
    Enter,
    Left,
    Right,
    Up,
    Down,
    Char(char),
    Other,
}

/// The modifier keys held with a key.
#[derive(Debug, PartialEq, Eq, Copy, Clone, Structural)]
pub struct KeyModifiers {
    pub shift: bool,
    pub control: bool,
    pub alt: bool,
    pub logo: bool,
    pub hyper: bool,
    pub meta: bool,
}

/// What happened to a key.
#[derive(Debug, PartialEq, Eq, Copy, Clone, Structural)]
pub enum KeyEventKind {
    Press,
    Repeat,
    Release,
}

/// One report of the keyboard.
#[derive(Debug, PartialEq, Eq, Copy, Clone, Structural)]
pub struct KeyEvent {
    pub code: KeyCode,
    pub modifiers: KeyModifiers,
    pub kind: KeyEventKind,
}

/// One report of the terminal. What is not a key report (the mouse, a new
/// size, focus, pasted text) is `Other`.
#[derive(Debug, PartialEq, Eq, Copy, Clone, Structural)]
pub enum Event {
    Key(KeyEvent),
    Other,
}

/// What the terminal had for the console when it was polled.
#[derive(Debug, PartialEq, Eq, Copy, Clone, Structural)]
pub enum Polled {
    /// Nothing within the wait.
    Quiet,
    /// An event.
    Event(Event),
    /// Reading failed: the terminal went away.
    Failed,
}

impl KeyModifiers {
    /// No modifier.
    pub open spec fn none_held() -> KeyModifiers {
        KeyModifiers {
            shift: false,
            control: false,
            alt: false,
            logo: false,
            hyper: false,
            meta: false,
        }
    }

    /// Control, and no other modifier.
    pub open spec fn control_only() -> KeyModifiers {
        KeyModifiers {
            shift: false,
            control: true,
            alt: false,
            logo: false,
            hyper: false,
            meta: false,
        }
    }

    /// No modifier.
    pub fn none() -> (m: KeyModifiers)
        ensures
            m == KeyModifiers::none_held(),
    {
        KeyModifiers {
            shift: false,
            control: false,
            alt: false,
            logo: false,
            hyper: false,
            meta: false,
        }
    }

    /// Control, and no other modifier.
    pub fn control() -> (m: KeyModifiers)
        ensures
            m == KeyModifiers::control_only(),
    {
        KeyModifiers {
            shift: false,
            control: true,
            alt: false,
            logo: false,
            hyper: false,
            meta: false,
        }
    }

    /// Tells whether control is held and no other modifier is.
    pub fn is_control(&self) -> (b: bool)
        ensures
            b == (*self == KeyModifiers::control_only()),
    {
        self.control && !self.shift && !self.alt && !self.logo && !self.hyper && !self.meta
    }
}

impl KeyEvent {
    /// Whether this is Control with the character `c`, and nothing else held.
    pub open spec fn is_chord(self, c: char) -> bool {
        self.code == KeyCode::Char(c) && self.modifiers == KeyModifiers::control_only()
    }

    /// Whether this is one of the two chords that end the console: Control+C
    /// and Control+D.
    pub open spec fn is_exit_chord(self) -> bool {
        self.is_chord('c') || self.is_chord('d')
    }

    /// A key that goes down with no modifier held.
    pub fn press(code: KeyCode) -> (e: KeyEvent)
        ensures
            e == (KeyEvent {
                code,
                modifiers: KeyModifiers::none_held(),
                kind: KeyEventKind::Press,
            }),
    {
        KeyEvent { code, modifiers: KeyModifiers::none(), kind: KeyEventKind::Press }
    }

    /// The character `c` going down with Control held.
    pub fn control(c: char) -> (e: KeyEvent)
        ensures
            e == (KeyEvent {
                code: KeyCode::Char(c),
                modifiers: KeyModifiers::control_only(),
                kind: KeyEventKind::Press,
            }),
    {
        KeyEvent {
            code: KeyCode::Char(c),
            modifiers: KeyModifiers::control(),
            kind: KeyEventKind::Press,
        }
    }

    /// Tells whether this is Control with the character `c`, and nothing
    /// else held.
    pub fn chord(&self, c: char) -> (b: bool)
        ensures
            b == self.is_chord(c),
    {
        let held = self.modifiers.is_control();
        match self.code {
            KeyCode::Char(k) => held && k == c,
            _ => false,
        }
    }

    /// Tells whether `self` and `other` report the same key, the same
    /// modifiers and the same kind.
    pub fn same_as(&self, other: &KeyEvent) -> (b: bool)
        ensures
            b == (*self == *other),
    {
        self.code == other.code && self.modifiers == other.modifiers && self.kind == other.kind
    }
}

} // verus!
