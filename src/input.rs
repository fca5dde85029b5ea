use vstd::prelude::*;

verus! {

/// A key of the keyboard, as far as the editor tells them apart.
#[derive(Clone, Copy, Debug, PartialEq, Eq, Structural)]
pub enum KeyCode {
    Up,
    Down,
    Left,
    Right,
    PageUp,
    PageDown,
    Home,
    End,
    Char(char),
    Other,
}

/// Whether a key went down, was held, or came up.
#[derive(Clone, Copy, Debug, PartialEq, Eq, Structural)]
pub enum KeyEventKind {
    Press,
    Repeat,
    Release,
}

/// Bit of the Shift modifier in `KeyEvent::modifiers`.
pub const SHIFT: u8 = 0b0000_0001;

/// Bit of the Control modifier in `KeyEvent::modifiers`.
pub const CONTROL: u8 = 0b0000_0010;

/// Bit of the Alt modifier in `KeyEvent::modifiers`.
pub const ALT: u8 = 0b0000_0100;

/// A key event: the key, the set of modifier bits held with it, and its kind.
#[derive(Clone, Copy, Debug, PartialEq, Eq, Structural)]
pub struct KeyEvent {
    pub code: KeyCode,
    pub modifiers: u8,
    pub kind: KeyEventKind,
}

/// An input event: a key, or anything else (mouse, resize, focus, paste).
#[derive(Clone, Copy, Debug, PartialEq, Eq, Structural)]
pub enum Event {
    Key(KeyEvent),
    Other,
}

impl KeyEvent {
    /// A press of `code` with no modifier held.
    pub fn press(code: KeyCode) -> (r: KeyEvent)
        ensures
            r == (KeyEvent { code, modifiers: 0, kind: KeyEventKind::Press }),
    {
        KeyEvent { code, modifiers: 0, kind: KeyEventKind::Press }
    }
}

/// The keys that move the cursor.
pub open spec fn is_navigation(code: KeyCode) -> bool {
    match code {
        KeyCode::Up | KeyCode::Down | KeyCode::Left | KeyCode::Right | KeyCode::PageUp
        | KeyCode::PageDown | KeyCode::Home | KeyCode::End => true,
        _ => false,
    }
}

/// The quit chord: `c` pressed with Control and no other modifier.
pub open spec fn is_quit_chord(k: KeyEvent) -> bool {
    &&& k.kind == KeyEventKind::Press
    &&& k.code == KeyCode::Char('c')
    &&& k.modifiers == CONTROL
}

} // verus!
