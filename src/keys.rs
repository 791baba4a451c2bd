use vstd::prelude::*;

verus! {

/// A key on the keyboard.
#[derive(Clone, Copy, Debug, PartialEq, Eq, Hash, Structural)]
pub enum KeyCode {
    Backspace,
    Enter,
    Left,
    Right,
    Up,
    Down,
    Home,
    End,
    PageUp,
    PageDown,
    Tab,
    BackTab,
    Delete,
    Insert,
    F(u8),
    Char(char),
    Null,
    Esc,
}

/// Modifier bit for the shift key.
pub const SHIFT: u8 = 1;
/// Modifier bit for the control key.
pub const CONTROL: u8 = 2;
/// Modifier bit for the alt key.
pub const ALT: u8 = 4;

/// A key together with the modifiers held down with it.
#[derive(Clone, Copy, Debug, PartialEq, Eq, Hash, Structural)]
pub struct GituiKeyEvent {
    pub code: KeyCode,
    pub modifiers: u8,
}

impl GituiKeyEvent {
    pub fn new(code: KeyCode, modifiers: u8) -> (r: Self)
        ensures
            r.code == code,
            r.modifiers == modifiers,
    {
        GituiKeyEvent { code, modifiers }
    }
}

/// Whether a key event matches a binding: same key, same modifiers.
pub fn key_match(ev: &GituiKeyEvent, binding: GituiKeyEvent) -> (r: bool)
    ensures
        r == (ev.code == binding.code && ev.modifiers == binding.modifiers),
{
    ev.code == binding.code && ev.modifiers == binding.modifiers
}

} // verus!
