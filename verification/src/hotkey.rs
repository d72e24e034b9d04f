//! The keys that the application answers to wherever the focus is.
use vstd::prelude::*;

verus! {

/// The modifier keys that were held down when a key was pressed.
#[derive(Debug, Clone, Copy, PartialEq, Eq, Structural)]
pub struct Modifiers {
    pub shift: bool,
    pub control: bool,
    pub alt: bool,
    pub logo: bool,
}

impl Modifiers {
    /// Whether a shift key was held down.
    pub fn shift(&self) -> (held: bool)
        ensures
            held == self.shift,
    {
        self.shift
    }
}

/// The key that was pressed, as far as the application tells keys apart.
#[derive(Debug, Clone, Copy, PartialEq, Eq, Structural)]
pub enum Key {
    Escape,
    Tab,
    Other,
}

/// A key press that the application answers to.
#[derive(Debug, Clone, Copy, PartialEq, Eq, Structural)]
pub enum Hotkey {
    Escape,
    Tab(Modifiers),
}

/// The hotkey that a key press is: Escape, or Tab with the modifiers held.
/// No other key is one.
pub open spec fn hotkey_of(key: Key, modifiers: Modifiers) -> Option<Hotkey> {
    match key {
        Key::Escape => Some(Hotkey::Escape),
        Key::Tab => Some(Hotkey::Tab(modifiers)),
        Key::Other => None,
    }
}

} // verus!
