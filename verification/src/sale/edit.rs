//! The form in which a sale is entered and changed.
use crate::common::Action;
use crate::hotkey::Hotkey;
use crate::sale::Operation;
use crate::tax::TaxGroup;
use crate::text::{decimal, decimal_string};
use crate::toolkit::text_input_id;
use iced::widget::text_input;
use iced::widget::{focus_next, focus_previous};
use iced::Task;
use vstd::prelude::*;
use vstd::string::*;

verus! {

/// What the user does in the form. `A` is the type of an amount of money.
#[derive(Debug, Clone)]
pub enum Message<A> {
    NameInput(String),
    NameSubmit,
    AddItem,
    RemoveItem(usize),
    UpdateItem(usize, Field<A>),
    SubmitItem(usize),
    UpdateServiceCharge(A),
    UpdateGratuity(A),
    Back,
    Save,
    Cancel,
}

/// A field of a line item, with what the user entered in it. The name and
/// the quantity come as the text of their inputs. The price comes as the
/// amount that the application read from its input, none where it read none.
#[derive(Debug, Clone)]
pub enum Field<A> {
    Name(String),
    Price(Option<A>),
    Quantity(String),
    TaxGroup(TaxGroup),
}

/// A step of the focus from one input of the form to another.
#[derive(Debug, Clone, Copy, PartialEq, Eq, Structural)]
pub enum Focus {
    Next,
    Previous,
}

/// Where a hotkey moves the focus in the form: Tab to the next input, Tab
/// with shift to the previous one, no other key anywhere.
pub open spec fn focus_move(hotkey: Hotkey) -> Option<Focus> {
    match hotkey {
        Hotkey::Tab(modifiers) => if modifiers.shift {
            Some(Focus::Previous)
        } else {
            Some(Focus::Next)
        },
        Hotkey::Escape => None,
    }
}

/// Where a hotkey moves the focus in the form.
pub fn focus_for(hotkey: Hotkey) -> (focus: Option<Focus>)
    ensures
        focus == focus_move(hotkey),
{
    match hotkey {
        Hotkey::Tab(modifiers) => {
            if modifiers.shift() {
                Some(Focus::Previous)
            } else {
                Some(Focus::Next)
            }
        },
        _ => None,
    }
}

/// The task that makes the runtime move the focus by `focus`.
fn focus_task<T>(focus: Focus) -> Task<T> {
    match focus {
        Focus::Next => focus_next(),
        Focus::Previous => focus_previous(),
    }
}

/// Answers a hotkey in the form: a task that moves the focus as
/// `focus_for` says, or nothing. No hotkey asks for an operation here.
pub fn handle_hotkey<A>(hotkey: Hotkey) -> (action: Action<Operation, Message<A>>)
    ensures
        action.operation is None,
{
    match focus_for(hotkey) {
        Some(focus) => Action::task(focus_task(focus)),
        None => Action::none(),
    }
}

/// The name of the input of `field` in the line with the given id: the
/// field, a hyphen, and the id in base ten.
pub open spec fn form_id_text(field: Seq<char>, id: usize) -> Seq<char> {
    field.push('-') + decimal(id as nat)
}

/// The name of the input of `field` in the line with the given id.
pub fn form_id_name(field: &str, id: usize) -> (name: String)
    ensures
        name@ == form_id_text(field@, id),
{
    let mut name = field.to_owned();
    proof {
        reveal_strlit("-");
        assert(field@ + "-"@ =~= field@.push('-'));
    }
    name.append("-");
    name.append(decimal_string(id).as_str());
    name
}

/// The id of the input of `field` in the line with the given id, made of
/// the name that `form_id_name` gives.
pub fn form_id(field: &str, id: usize) -> text_input::Id {
    text_input_id(form_id_name(field, id))
}

} // verus!
