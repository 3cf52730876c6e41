//! Keyboard input as the application reads it, and the events it handles.
use vstd::prelude::*;

verus! {

/// The key that was pressed.
#[derive(Clone, Copy, Debug, PartialEq, Eq, Structural)]
pub enum KeyCode {
    Backspace,
    Enter,
    Left,
    Right,
    Up,
    Down,
    Home,
    End,
    PageUp,
    PageDown,
    Tab,
    BackTab,
    Delete,
    Insert,
    F(u8),
    Char(char),
    Null,
    Esc,
    /// Any other key (media keys, lock keys, lone modifiers, ...).
    Other,
}

/// The modifier keys held down, one bit each, in the terminal's own layout.
#[derive(Clone, Copy, Debug, PartialEq, Eq, Structural)]
pub struct KeyModifiers {
    pub bits: u8,
}

/// The bit of the Control key.
pub const CONTROL_BIT: u8 = 0x02;

impl KeyModifiers {
    /// No modifier held.
    pub fn none() -> (m: KeyModifiers)
        ensures
            m.bits == 0,
    {
        KeyModifiers { bits: 0 }
    }

    /// Only Control held.
    pub fn control() -> (m: KeyModifiers)
        ensures
            m.bits == CONTROL_BIT,
    {
        KeyModifiers { bits: CONTROL_BIT }
    }

    /// Whether every modifier of `other` is held in `self`.
    pub fn contains(&self, other: KeyModifiers) -> (r: bool)
        ensures
            r == (self.bits & other.bits == other.bits),
    {
        self.bits & other.bits == other.bits
    }
}

/// Whether the Control bit is set.
pub open spec fn has_control(m: KeyModifiers) -> bool {
    m.bits & CONTROL_BIT == CONTROL_BIT
}

/// A key press: the key and the modifiers held with it.
#[derive(Clone, Copy, Debug, PartialEq, Eq, Structural)]
pub struct KeyEvent {
    pub code: KeyCode,
    pub modifiers: KeyModifiers,
}

impl KeyEvent {
    /// A key press with the given modifiers.
    pub fn new(code: KeyCode, modifiers: KeyModifiers) -> (k: KeyEvent)
        ensures
            k.code == code,
            k.modifiers == modifiers,
    {
        KeyEvent { code, modifiers }
    }
}

/// Whether the key press is Ctrl+C.
pub open spec fn is_ctrl_c(key: KeyEvent) -> bool {
    key.code == KeyCode::Char('c') && has_control(key.modifiers)
}

/// Something the main loop reacts to.
#[derive(Clone, Copy, Debug, PartialEq, Eq, Structural)]
pub enum AppEvent {
    Key(KeyEvent),
    Tick,
    Resize(u16, u16),
}

/// Turns a key press into an event; Ctrl+C gives none, since it is
/// handled before events are dispatched.
pub fn handle_key_event(key: KeyEvent) -> (r: Option<AppEvent>)
    ensures
        is_ctrl_c(key) ==> r is None,
        !is_ctrl_c(key) ==> r == Some(AppEvent::Key(key)),
{
    let ctrl = key.modifiers.contains(KeyModifiers::control());
    match key.code {
        KeyCode::Char('c') if ctrl => None,
        _ => Some(AppEvent::Key(key)),
    }
}

} // verus!
