//! Bookkeeping for a receipts application: sale records, the edits made to
//! them, and the navigation between the list of sales and a single sale.

pub mod app;
pub mod common;
pub mod hotkey;
pub mod list;
pub mod sale;
pub mod tax;
pub mod text;
pub mod toolkit;

pub use app::App;
pub use common::Action;
pub use hotkey::{Hotkey, Modifiers};
