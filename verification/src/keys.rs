//! Keyboard and mouse events.
use vstd::prelude::*;

verus! {

#[derive(Clone, Copy, Debug, PartialEq, Eq, Structural)]
pub enum KeyCode {
    Char(char),
    Enter,
    Esc,
    Tab,
    BackTab,
    Backspace,
    Delete,
    Up,
    Down,
    Left,
    Right,
    Home,
    End,
    PageUp,
    PageDown,
    F(u8),
    Other,
}

#[derive(Clone, Copy, Debug, PartialEq, Eq, Structural)]
pub enum KeyKind {
    Press,
    Repeat,
    Release,
}

/// The modifiers that are held. `extra` stands for all but the three that have a meaning here.
#[derive(Clone, Copy, Debug, PartialEq, Eq, Structural)]
pub struct Modifiers {
    pub shift: bool,
    pub control: bool,
    pub alt: bool,
    pub extra: bool,
}

#[derive(Clone, Copy, Debug, PartialEq, Eq, Structural)]
pub struct KeyEvent {
    pub code: KeyCode,
    pub modifiers: Modifiers,
    pub kind: KeyKind,
}

#[derive(Clone, Copy, Debug, PartialEq, Eq, Structural)]
pub enum MouseKind {
    ScrollUp,
    ScrollDown,
    Other,
}

impl Modifiers {
    /// No modifier is held.
    pub open spec fn none(self) -> bool {
        !self.shift && !self.control && !self.alt && !self.extra
    }

    /// Shift is held and nothing else.
    pub open spec fn only_shift(self) -> bool {
        self.shift && !self.control && !self.alt && !self.extra
    }

    /// Control is held and nothing else.
    pub open spec fn only_control(self) -> bool {
        !self.shift && self.control && !self.alt && !self.extra
    }

    pub fn is_empty(self) -> (r: bool)
        ensures
            r == self.none(),
    {
        !self.shift && !self.control && !self.alt && !self.extra
    }

    pub fn is_shift(self) -> (r: bool)
        ensures
            r == self.only_shift(),
    {
        self.shift && !self.control && !self.alt && !self.extra
    }

    pub fn is_control(self) -> (r: bool)
        ensures
            r == self.only_control(),
    {
        !self.shift && self.control && !self.alt && !self.extra
    }
}

impl KeyEvent {
    /// A press without modifiers.
    pub fn press(code: KeyCode) -> (r: Self)
        ensures
            r.code == code,
            r.modifiers.none(),
            r.kind == KeyKind::Press,
    {
        KeyEvent {
            code,
            modifiers: Modifiers { shift: false, control: false, alt: false, extra: false },
            kind: KeyKind::Press,
        }
    }

    /// A press with control held.
    pub fn control(c: char) -> (r: Self)
        ensures
            r.code == KeyCode::Char(c),
            r.modifiers.only_control(),
            r.kind == KeyKind::Press,
    {
        KeyEvent {
            code: KeyCode::Char(c),
            modifiers: Modifiers { shift: false, control: true, alt: false, extra: false },
            kind: KeyKind::Press,
        }
    }

    /// A press with shift held.
    pub fn shift(code: KeyCode) -> (r: Self)
        ensures
            r.code == code,
            r.modifiers.only_shift(),
            r.kind == KeyKind::Press,
    {
        KeyEvent {
            code,
            modifiers: Modifiers { shift: true, control: false, alt: false, extra: false },
            kind: KeyKind::Press,
        }
    }

    /// The key that ends the program: control and `c`.
    pub open spec fn is_interrupt(self) -> bool {
        self.modifiers.control && self.code == KeyCode::Char('c')
    }

    /// The key that pauses the assistant: control and `p`.
    pub open spec fn is_pause(self) -> bool {
        self.modifiers.control && self.code == KeyCode::Char('p')
    }

    pub fn interrupts(self) -> (r: bool)
        ensures
            r == self.is_interrupt(),
    {
        self.modifiers.control && self.code == KeyCode::Char('c')
    }

    pub fn pauses(self) -> (r: bool)
        ensures
            r == self.is_pause(),
    {
        self.modifiers.control && self.code == KeyCode::Char('p')
    }
}

} // verus!
