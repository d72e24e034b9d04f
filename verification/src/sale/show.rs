//! The read-only screen of a sale.
use crate::common::Action;
use crate::hotkey::Hotkey;
use crate::sale::Operation;
use vstd::prelude::*;

verus! {

/// What the user asks for on the read-only screen.
#[derive(Debug, Clone, Copy, PartialEq, Eq, Structural)]
pub enum Message {
    Back,
    StartEdit,
}

/// The operation that a hotkey asks for on the read-only screen: Escape
/// leaves the screen, no other key does anything.
pub open spec fn hotkey_operation(hotkey: Hotkey) -> Option<Operation> {
    match hotkey {
        Hotkey::Escape => Some(Operation::Back),
        Hotkey::Tab(_) => None,
    }
}

/// Answers a hotkey on the read-only screen.
pub fn handle_hotkey(hotkey: Hotkey) -> (action: Action<Operation, Message>)
    ensures
        action.operation == hotkey_operation(hotkey),
{
    match hotkey {
        Hotkey::Escape => Action::operation(Operation::Back),
        _ => Action::none(),
    }
}

} // verus!
