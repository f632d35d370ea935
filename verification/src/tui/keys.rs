//! Keys, mouse actions and the other input a terminal reports.

use vstd::prelude::*;

verus! {

#[derive(Clone, Copy, Debug, PartialEq, Eq, Structural)]
pub enum KeyCode {
    Char(char),
    Enter,
    Esc,
    Backspace,
    Left,
    Right,
    Up,
    Down,
    Home,
    Tab,
    BackTab,
    /// A key that nothing is bound to.
    Other,
}

#[derive(Clone, Copy, Debug, PartialEq, Eq, Structural)]
pub enum KeyKind {
    Press,
    Repeat,
    Release,
}

/// A key and the modifiers that matter. Shift is not among them: some terminals
/// report a shifted character with it and some without.
#[derive(Clone, Copy, Debug, PartialEq, Eq, Structural)]
pub struct KeyEvent {
    pub code: KeyCode,
    pub kind: KeyKind,
    pub control: bool,
    pub alt: bool,
}

impl KeyEvent {
    /// Whether this is Control and a letter.
    pub open spec fn is_chord(self, c: char) -> bool {
        self.control && self.code == KeyCode::Char(c)
    }

    pub fn chord(&self, c: char) -> (chord: bool)
        ensures
            chord == self.is_chord(c),
    {
        self.control && self.code == KeyCode::Char(c)
    }

    /// Whether every ordinary binding is off: a terminal reports Control and a
    /// letter as that letter, so a chord would fire its shortcut.
    pub open spec fn blocks(self) -> bool {
        self.control || self.alt
    }
}

pub fn blocks_ordinary_bindings(key: &KeyEvent) -> (blocked: bool)
    ensures
        blocked == key.blocks(),
{
    key.control || key.alt
}

#[derive(Clone, Copy, Debug, PartialEq, Eq, Structural)]
pub enum MouseButton {
    Left,
    Right,
    Middle,
}

#[derive(Clone, Copy, Debug, PartialEq, Eq, Structural)]
pub enum MouseKind {
    Down(MouseButton),
    Up(MouseButton),
    Drag(MouseButton),
    Moved,
    ScrollUp,
    ScrollDown,
    ScrollLeft,
    ScrollRight,
}

#[derive(Clone, Copy, Debug, PartialEq, Eq, Structural)]
pub struct MouseEvent {
    pub kind: MouseKind,
    pub column: u16,
    pub row: u16,
}

#[derive(Clone, Copy, Debug, PartialEq, Eq, Structural)]
pub enum Event {
    Key(KeyEvent),
    Mouse(MouseEvent),
    Resize(u16, u16),
    /// Focus, paste and the like: nothing acts on it.
    Other,
}

} // verus!
