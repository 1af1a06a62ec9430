//! Keyboard input as the interface's logic sees it.
//!
//! The terminal backend reports key presses; the caller converts each one to
//! a `KeyEvent` here, keeping the code and the exact modifier bits.

use vstd::prelude::*;

verus! {

/// Which key was pressed.
#[derive(Debug, Clone, Copy, PartialEq, Eq, Structural)]
pub enum KeyCode {
    Backspace,
    Enter,
    Left,
    Right,
    Up,
    Down,
    Home,
    End,
    PageUp,
    PageDown,
    Tab,
    BackTab,
    Delete,
    Insert,
    F(u8),
    Char(char),
    Null,
    Esc,
    /// Any other key the terminal can report.
    Other,
}

/// Modifier bits, as the terminal reports them: shift `1`, control `2`,
/// alt `4`, super `8`, hyper `16`, meta `32`.
#[derive(Debug, Clone, Copy, PartialEq, Eq, Structural)]
pub struct KeyModifiers {
    pub bits: u8,
}

pub const NO_MODIFIERS: u8 = 0;
pub const SHIFT: u8 = 1;
pub const CONTROL: u8 = 2;
pub const ALT: u8 = 4;

/// A key press with its modifiers.
#[derive(Debug, Clone, Copy, PartialEq, Eq, Structural)]
pub struct KeyEvent {
    pub code: KeyCode,
    pub modifiers: KeyModifiers,
}

/// The key and no modifier at all.
pub open spec fn is_plain(key: KeyEvent, code: KeyCode) -> bool {
    key.code == code && key.modifiers.bits == NO_MODIFIERS
}

/// Tab without modifiers, or Shift+BackTab: the keys that hand focus back
/// to the tab bar.
pub open spec fn is_focus_escape(key: KeyEvent) -> bool {
    (key.code == KeyCode::Tab && key.modifiers.bits == NO_MODIFIERS) || (key.code
        == KeyCode::BackTab && key.modifiers.bits == SHIFT)
}

/// Exactly Control and the character `c`.
pub open spec fn is_ctrl_char(key: KeyEvent, c: char) -> bool {
    key.code == KeyCode::Char(c) && key.modifiers.bits == CONTROL
}

impl KeyModifiers {
    pub fn none() -> (m: Self)
        ensures
            m.bits == NO_MODIFIERS,
    {
        KeyModifiers { bits: NO_MODIFIERS }
    }

    pub fn shift() -> (m: Self)
        ensures
            m.bits == SHIFT,
    {
        KeyModifiers { bits: SHIFT }
    }

    pub fn control() -> (m: Self)
        ensures
            m.bits == CONTROL,
    {
        KeyModifiers { bits: CONTROL }
    }
}

impl KeyEvent {
    pub fn new(code: KeyCode, modifiers: KeyModifiers) -> (k: Self)
        ensures
            k.code == code,
            k.modifiers == modifiers,
    {
        KeyEvent { code, modifiers }
    }

    /// A key press without modifiers.
    pub fn plain(code: KeyCode) -> (k: Self)
        ensures
            k.code == code,
            k.modifiers.bits == NO_MODIFIERS,
    {
        KeyEvent { code, modifiers: KeyModifiers { bits: NO_MODIFIERS } }
    }

    pub fn no_modifiers(&self) -> (r: bool)
        ensures
            r == (self.modifiers.bits == NO_MODIFIERS),
    {
        self.modifiers.bits == NO_MODIFIERS
    }

    pub fn focus_escape(&self) -> (r: bool)
        ensures
            r == is_focus_escape(*self),
    {
        match self.code {
            KeyCode::Tab => self.modifiers.bits == NO_MODIFIERS,
            KeyCode::BackTab => self.modifiers.bits == SHIFT,
            _ => false,
        }
    }

    pub fn ctrl_char(&self, c: char) -> (r: bool)
        ensures
            r == is_ctrl_char(*self, c),
    {
        match self.code {
            KeyCode::Char(x) => x == c && self.modifiers.bits == CONTROL,
            _ => false,
        }
    }
}

} // verus!
