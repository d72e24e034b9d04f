//! The screen that lists the sales.
use vstd::prelude::*;

verus! {

/// What the user asks for on the list of sales.
#[derive(Debug, Clone, Copy, PartialEq, Eq, Structural)]
pub enum Message {
    NewSale,
    SelectSale(usize),
}

} // verus!
