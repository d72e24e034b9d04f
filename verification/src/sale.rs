//! Sales, their line items, and the edits that the two screens of a sale make.
use crate::common::Action;
use crate::hotkey::Hotkey;
use crate::sale::edit::Field;
use crate::tax::TaxGroup;
use crate::text::{decimal, decimal_is_parsed, decimal_string, parse_u32, parsed_u32};
use vstd::prelude::*;

pub mod edit;
pub mod show;

verus! {

/// Whether a sale is shown read-only or in its form.
#[derive(Debug, Clone, Copy, PartialEq, Eq, Structural)]
pub enum Mode {
    View,
    Edit,
}

/// What a screen of a sale asks the application to do.
#[derive(Debug, Clone, Copy, PartialEq, Eq, Structural)]
pub enum Operation {
    Back,
    Save,
    StartEdit,
    Cancel,
}

/// One line of a sale. `A` is the type of an amount of money: the library
/// stores amounts and hands them back, and never computes with one.
#[derive(Debug)]
pub struct SaleItem<A> {
    pub id: usize,
    pub name: String,
    price: Option<A>,
    quantity: Option<u32>,
    pub tax_group: TaxGroup,
}

/// What a line item holds.
pub struct SaleItemView<A> {
    pub id: usize,
    pub name: Seq<char>,
    pub price: Option<A>,
    pub quantity: Option<u32>,
    pub tax_group: TaxGroup,
}

impl<A> SaleItemView<A> {
    /// The line that a form starts with: no name, no price, no quantity,
    /// taxed as food.
    pub open spec fn blank(id: usize) -> Self {
        SaleItemView {
            id,
            name: Seq::empty(),
            price: None,
            quantity: None,
            tax_group: TaxGroup::Food,
        }
    }

    /// The line with what the user entered in one of its fields. A quantity
    /// is taken from its text as `parsed_u32` reads it; text that writes no
    /// number leaves the line without a quantity.
    pub open spec fn with_field(self, field: Field<A>) -> Self {
        match field {
            Field::Name(name) => SaleItemView { name: name@, ..self },
            Field::Price(price) => SaleItemView { price, ..self },
            Field::Quantity(text) => SaleItemView { quantity: parsed_u32(text@), ..self },
            Field::TaxGroup(tax_group) => SaleItemView { tax_group, ..self },
        }
    }

    /// The number of units sold: zero while none is entered.
    pub open spec fn units(self) -> u32 {
        match self.quantity {
            Some(quantity) => quantity,
            None => 0,
        }
    }

    /// The text of the quantity field: empty while no quantity is entered.
    pub open spec fn quantity_text(self) -> Seq<char> {
        match self.quantity {
            Some(quantity) => decimal(quantity as nat),
            None => Seq::empty(),
        }
    }
}

impl<A> SaleItemView<A> {
    /// The text of the quantity field, entered again, gives the line the
    /// quantity that it has.
    pub proof fn quantity_text_reads_back(self, text: String)
        requires
            text@ == self.quantity_text(),
        ensures
            parsed_u32(text@) == self.quantity,
            self.with_field(Field::Quantity(text)) == self,
    {
        match self.quantity {
            Some(quantity) => {
                decimal_is_parsed(quantity);
            },
            None => {},
        }
    }
}

impl<A> View for SaleItem<A> {
    type V = SaleItemView<A>;

    closed spec fn view(&self) -> SaleItemView<A> {
        SaleItemView {
            id: self.id,
            name: self.name@,
            price: self.price,
            quantity: self.quantity,
            tax_group: self.tax_group,
        }
    }
}

impl<A: Copy> Clone for SaleItem<A> {
    fn clone(&self) -> (copy: Self)
        ensures
            copy == *self,
    {
        SaleItem {
            id: self.id,
            name: self.name.clone(),
            price: self.price,
            quantity: self.quantity,
            tax_group: self.tax_group,
        }
    }
}

impl<A> SaleItem<A> {
    /// A blank line with the given id.
    pub fn new(id: usize) -> (item: Self)
        ensures
            item@ == SaleItemView::<A>::blank(id),
    {
        SaleItem { id, name: String::new(), price: None, quantity: None, tax_group: TaxGroup::Food }
    }

    /// Takes what the user entered in one field of the line.
    pub fn set_field(&mut self, field: Field<A>)
        ensures
            final(self)@ == old(self)@.with_field(field),
    {
        match field {
            Field::Name(name) => {
                self.name = name;
            },
            Field::Price(price) => {
                self.price = price;
            },
            Field::Quantity(text) => {
                self.quantity = if text.as_str().is_empty() {
                    None
                } else {
                    parse_u32(text.as_str())
                };
            },
            Field::TaxGroup(tax_group) => {
                self.tax_group = tax_group;
            },
        }
    }

    /// The price of one unit, if one is entered.
    pub fn price(&self) -> (price: Option<A>) where A: Copy
        ensures
            price == self@.price,
    {
        self.price
    }

    /// The number of units sold: zero while none is entered.
    pub fn quantity(&self) -> (units: u32)
        ensures
            units == self@.units(),
    {
        match self.quantity {
            Some(quantity) => quantity,
            None => 0,
        }
    }

    /// The text of the quantity field: the quantity in base ten, or nothing
    /// while none is entered.
    pub fn quantity_string(&self) -> (text: String)
        ensures
            text@ == self@.quantity_text(),
    {
        match self.quantity {
            Some(quantity) => decimal_string(quantity as usize),
            None => String::new(),
        }
    }
}

/// The id that is given out after `id`: the next number, and zero after the
/// largest.
pub open spec fn following(id: usize) -> usize {
    if id == usize::MAX {
        0
    } else {
        (id + 1) as usize
    }
}

/// The id that is given out after `id`.
pub fn next_id(id: usize) -> (next: usize)
    ensures
        next == following(id),
{
    if id == usize::MAX {
        0
    } else {
        id + 1
    }
}

/// A sale: its lines, a service charge in percent of the subtotal, a
/// gratuity, and a name. `A` is the type of an amount of money and of a
/// percentage.
#[derive(Debug)]
pub struct Sale<A> {
    pub items: Vec<SaleItem<A>>,
    pub service_charge_percent: Option<A>,
    pub gratuity_amount: Option<A>,
    pub name: String,
}

/// What a sale holds.
pub struct SaleView<A> {
    pub items: Seq<SaleItemView<A>>,
    pub service_charge_percent: Option<A>,
    pub gratuity_amount: Option<A>,
    pub name: Seq<char>,
}

/// What each of `items` holds, in their order.
pub open spec fn item_views<A>(items: Seq<SaleItem<A>>) -> Seq<SaleItemView<A>> {
    items.map_values(|item: SaleItem<A>| item@)
}

/// Whether `at` is the place of the first of `items` with the given id.
pub open spec fn is_first_with_id<A>(items: Seq<SaleItemView<A>>, id: usize, at: int) -> bool {
    &&& 0 <= at < items.len()
    &&& items[at].id == id
    &&& forall|before: int| 0 <= before < at ==> (#[trigger] items[before]).id != id
}

/// `items` without every line that has the given id.
pub open spec fn without_id<A>(items: Seq<SaleItemView<A>>, id: usize) -> Seq<SaleItemView<A>> {
    items.filter(|item: SaleItemView<A>| item.id != id)
}

/// `items` with `field` entered in the first line that has the given id;
/// `items` as they are where no line has it.
pub open spec fn with_item_field<A>(
    items: Seq<SaleItemView<A>>,
    id: usize,
    field: Field<A>,
) -> Seq<SaleItemView<A>> {
    if exists|at: int| is_first_with_id(items, id, at) {
        let at = choose|at: int| is_first_with_id(items, id, at);
        items.update(at, items[at].with_field(field))
    } else {
        items
    }
}

impl<A> SaleView<A> {
    /// The sale that a new form starts with: no lines, no service charge, no
    /// gratuity, and the name "New Sale".
    pub open spec fn fresh() -> Self {
        SaleView {
            items: Seq::empty(),
            service_charge_percent: None,
            gratuity_amount: None,
            name: "New Sale"@,
        }
    }

    /// The sale after a message of its form, where `next_item_id` is the id
    /// that a new line would get.
    pub open spec fn edited(self, message: edit::Message<A>, next_item_id: usize) -> Self {
        match message {
            edit::Message::NameInput(name) => SaleView { name: name@, ..self },
            edit::Message::AddItem => SaleView {
                items: self.items.push(SaleItemView::blank(next_item_id)),
                ..self
            },
            edit::Message::RemoveItem(id) => SaleView { items: without_id(self.items, id), ..self },
            edit::Message::UpdateItem(id, field) => SaleView {
                items: with_item_field(self.items, id, field),
                ..self
            },
            edit::Message::UpdateServiceCharge(percent) => SaleView {
                service_charge_percent: Some(percent),
                ..self
            },
            edit::Message::UpdateGratuity(amount) => SaleView {
                gratuity_amount: Some(amount),
                ..self
            },
            edit::Message::NameSubmit => self,
            edit::Message::SubmitItem(_) => self,
            edit::Message::Back => self,
            edit::Message::Save => self,
            edit::Message::Cancel => self,
        }
    }

    /// The sale after a message of one of its screens. Only the form
    /// changes a sale.
    pub open spec fn after(self, message: Message<A>, next_item_id: usize) -> Self {
        match message {
            Message::Show(_) => self,
            Message::Edit(message) => self.edited(message, next_item_id),
        }
    }
}

impl<A> View for Sale<A> {
    type V = SaleView<A>;

    open spec fn view(&self) -> SaleView<A> {
        SaleView {
            items: item_views(self.items@),
            service_charge_percent: self.service_charge_percent,
            gratuity_amount: self.gratuity_amount,
            name: self.name@,
        }
    }
}

impl<A> Default for Sale<A> {
    fn default() -> (sale: Self)
        ensures
            sale@ == SaleView::<A>::fresh(),
    {
        let sale = Sale {
            items: Vec::new(),
            service_charge_percent: None,
            gratuity_amount: None,
            name: "New Sale".to_owned(),
        };
        assert(item_views(sale.items@) =~= Seq::empty());
        sale
    }
}

impl<A: Copy> Clone for Sale<A> {
    fn clone(&self) -> (copy: Self)
        ensures
            copy@ == self@,
    {
        let copy = Sale {
            items: self.items.clone(),
            service_charge_percent: self.service_charge_percent,
            gratuity_amount: self.gratuity_amount,
            name: self.name.clone(),
        };
        assert(item_views(copy.items@) =~= item_views(self.items@));
        copy
    }
}

/// What the user asks for on one of the two screens of a sale.
#[derive(Debug, Clone)]
pub enum Message<A> {
    Show(show::Message),
    Edit(edit::Message<A>),
}

/// The operation that a message asks the application for: leaving the
/// screen, opening the form, saving or cancelling. Every other message is
/// dealt with in the sale itself.
pub open spec fn message_operation<A>(message: Message<A>) -> Option<Operation> {
    match message {
        Message::Show(show::Message::Back) => Some(Operation::Back),
        Message::Show(show::Message::StartEdit) => Some(Operation::StartEdit),
        Message::Edit(edit::Message::Back) => Some(Operation::Back),
        Message::Edit(edit::Message::Cancel) => Some(Operation::Cancel),
        Message::Edit(edit::Message::Save) => Some(Operation::Save),
        _ => None,
    }
}

/// The operation that a message asks the application for.
pub fn operation_of<A>(message: &Message<A>) -> (operation: Option<Operation>)
    ensures
        operation == message_operation(*message),
{
    match message {
        Message::Show(show::Message::Back) => Some(Operation::Back),
        Message::Show(show::Message::StartEdit) => Some(Operation::StartEdit),
        Message::Edit(edit::Message::Back) => Some(Operation::Back),
        Message::Edit(edit::Message::Cancel) => Some(Operation::Cancel),
        Message::Edit(edit::Message::Save) => Some(Operation::Save),
        _ => None,
    }
}

/// The id that a new line would get after a message, where `next_item_id`
/// is the one that it would have got before: adding a line uses one up.
pub open spec fn next_item_id_after<A>(message: Message<A>, next_item_id: usize) -> usize {
    match message {
        Message::Edit(edit::Message::AddItem) => following(next_item_id),
        _ => next_item_id,
    }
}

/// Removes every line with the given id.
fn remove_items<A>(items: &mut Vec<SaleItem<A>>, id: usize)
    ensures
        item_views(final(items)@) == without_id(item_views(old(items)@), id),
{
    let ghost before = item_views(items@);
    let ghost keep = |item: SaleItemView<A>| item.id != id;
    let ghost mut seen: int = 0;
    let mut at: usize = 0;
    proof {
        reveal(Seq::filter);
        assert(before.take(0).filter(keep) =~= Seq::empty());
        assert(before.skip(0) =~= before);
        assert(item_views(items@) =~= before.take(0).filter(keep) + before.skip(0));
    }
    while at < items.len()
        invariant
            0 <= seen <= before.len(),
            at <= items.len(),
            at == before.take(seen).filter(keep).len(),
            keep == |item: SaleItemView<A>| item.id != id,
            item_views(items@) =~= before.take(seen).filter(keep) + before.skip(seen),
        decreases before.len() - seen,
    {
        proof {
            reveal(Seq::filter);
            assert(items@.len() == item_views(items@).len());
            assert(item_views(items@)[at as int] == before.skip(seen)[0]);
            assert(items@[at as int]@ == before[seen]);
            assert(before.take(seen + 1).drop_last() =~= before.take(seen));
            assert(before.take(seen + 1).last() == before[seen]);
            assert(before.skip(seen).skip(1) =~= before.skip(seen + 1));
        }
        if items[at].id == id {
            let ghost held = items@;
            let _ = items.remove(at);
            proof {
                assert(item_views(items@) =~= item_views(held).remove(at as int));
                assert(item_views(items@) =~= before.take(seen + 1).filter(keep) + before.skip(
                    seen + 1,
                ));
            }
        } else {
            proof {
                assert(item_views(items@) =~= before.take(seen + 1).filter(keep) + before.skip(
                    seen + 1,
                ));
            }
            at = at + 1;
        }
        proof {
            seen = seen + 1;
        }
    }
    proof {
        assert(before.take(seen) =~= before);
        assert(item_views(items@) =~= before.filter(keep));
    }
}

/// Enters `field` in the first line with the given id, if there is one.
fn update_item<A>(items: &mut Vec<SaleItem<A>>, id: usize, field: Field<A>)
    ensures
        item_views(final(items)@) == with_item_field(item_views(old(items)@), id, field),
{
    let ghost before = item_views(items@);
    let mut at: usize = 0;
    while at < items.len()
        invariant
            at <= items.len(),
            items@ == old(items)@,
            before == item_views(items@),
            forall|earlier: int| 0 <= earlier < at ==> (#[trigger] before[earlier]).id != id,
        decreases items.len() - at,
    {
        if items[at].id == id {
            let ghost found = at as int;
            assert(is_first_with_id(before, id, found));
            let mut item = items.remove(at);
            item.set_field(field);
            items.insert(at, item);
            proof {
                let chosen = choose|place: int| is_first_with_id(before, id, place);
                assert(chosen == found) by {
                    if chosen < found {
                        assert(before[chosen].id != id);
                    }
                    if found < chosen {
                        assert(before[found].id != id);
                    }
                }
                assert(item_views(items@) =~= before.update(found, before[found].with_field(field)));
            }
            return ;
        }
        at = at + 1;
    }
    proof {
        assert forall|place: int| !is_first_with_id(before, id, place) by {
            if 0 <= place < before.len() {
                assert(before[place].id != id);
            }
        }
    }
}

/// Takes a message of one of the two screens of a sale: changes the sale
/// as the form asks, and hands the rest up as an operation. A new line gets
/// the id `next_item_id`, which then moves on to the following one.
pub fn update<A>(sale: &mut Sale<A>, message: Message<A>, next_item_id: &mut usize) -> (action:
    Action<Operation, Message<A>>)
    ensures
        final(sale)@ == old(sale)@.after(message, *old(next_item_id)),
        *final(next_item_id) == next_item_id_after(message, *old(next_item_id)),
        action.operation == message_operation(message),
{
    match message {
        Message::Show(message) => match message {
            show::Message::Back => Action::operation(Operation::Back),
            show::Message::StartEdit => Action::operation(Operation::StartEdit),
        },
        Message::Edit(message) => match message {
            edit::Message::Back => Action::operation(Operation::Back),
            edit::Message::Cancel => Action::operation(Operation::Cancel),
            edit::Message::Save => Action::operation(Operation::Save),
            edit::Message::NameInput(name) => {
                sale.name = name;
                Action::none()
            },
            edit::Message::NameSubmit => Action::none(),
            edit::Message::AddItem => {
                let item = SaleItem::new(*next_item_id);
                proof {
                    assert(item_views(sale.items@.push(item)) =~= item_views(sale.items@).push(
                        item@,
                    ));
                }
                sale.items.push(item);
                *next_item_id = next_id(*next_item_id);
                Action::none()
            },
            edit::Message::RemoveItem(id) => {
                remove_items(&mut sale.items, id);
                Action::none()
            },
            edit::Message::UpdateItem(id, field) => {
                update_item(&mut sale.items, id, field);
                Action::none()
            },
            edit::Message::SubmitItem(_) => Action::none(),
            edit::Message::UpdateServiceCharge(percent) => {
                sale.service_charge_percent = Some(percent);
                Action::none()
            },
            edit::Message::UpdateGratuity(amount) => {
                sale.gratuity_amount = Some(amount);
                Action::none()
            },
        },
    }
}

/// The operation that a hotkey asks for on a screen of a sale: Escape
/// leaves the screen, in either mode.
pub open spec fn hotkey_operation(hotkey: Hotkey) -> Option<Operation> {
    match hotkey {
        Hotkey::Escape => Some(Operation::Back),
        Hotkey::Tab(_) => None,
    }
}

/// Answers a hotkey on a screen of a sale. Escape asks to leave the screen.
/// Any other key does nothing on the read-only screen, and in the form what
/// `edit::handle_hotkey` does.
pub fn handle_hotkey<A: Send + 'static>(sale: &Sale<A>, mode: Mode, hotkey: Hotkey) -> (action: Action<
    Operation,
    Message<A>,
>)
    ensures
        action.operation == hotkey_operation(hotkey),
{
    match hotkey {
        Hotkey::Escape => Action::operation(Operation::Back),
        _ => match mode {
            Mode::View => Action::none(),
            Mode::Edit => edit::handle_hotkey(hotkey).map(
                |message: edit::Message<A>| Message::Edit(message),
            ),
        },
    }
}

} // verus!
