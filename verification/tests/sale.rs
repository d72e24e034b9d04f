use iced::widget::text_input;
use receipts::sale::edit::{self, Field, Focus};
use receipts::sale::show;
use receipts::sale::{handle_hotkey, next_id, operation_of, update};
use receipts::sale::{Message, Mode, Operation, Sale, SaleItem};
use receipts::tax::TaxGroup;
use receipts::{Hotkey, Modifiers};

fn held(shift: bool) -> Modifiers {
    Modifiers { shift, control: false, alt: false, logo: false }
}

fn edit_of(sale: &mut Sale<f32>, ids: &mut usize, message: edit::Message<f32>) -> Option<Operation> {
    update(sale, Message::Edit(message), ids).operation
}

fn field(sale: &mut Sale<f32>, id: usize, field: Field<f32>) {
    let mut ids = 0;
    let operation = edit_of(sale, &mut ids, edit::Message::UpdateItem(id, field));
    assert_eq!(operation, None);
    assert_eq!(ids, 0);
}

fn sale_with_lines(ids: &[usize]) -> Sale<f32> {
    let mut sale = Sale::default();
    for id in ids {
        let mut next = *id;
        assert_eq!(edit_of(&mut sale, &mut next, edit::Message::AddItem), None);
    }
    sale
}

fn line_ids(sale: &Sale<f32>) -> Vec<usize> {
    sale.items.iter().map(|item| item.id).collect()
}

#[test]
fn default_sale_is_named_and_empty() {
    let sale: Sale<f32> = Sale::default();
    assert_eq!(sale.name, "New Sale");
    assert!(sale.items.is_empty());
    assert_eq!(sale.service_charge_percent, None);
    assert_eq!(sale.gratuity_amount, None);
}

#[test]
fn new_item_is_blank() {
    let item: SaleItem<f32> = SaleItem::new(17);
    assert_eq!(item.id, 17);
    assert_eq!(item.name, "");
    assert_eq!(item.price(), None);
    assert_eq!(item.quantity(), 0);
    assert_eq!(item.quantity_string(), "");
    assert_eq!(item.tax_group, TaxGroup::Food);
}

#[test]
fn next_id_counts_up_and_wraps() {
    assert_eq!(next_id(0), 1);
    assert_eq!(next_id(41), 42);
    assert_eq!(next_id(usize::MAX - 1), usize::MAX);
    assert_eq!(next_id(usize::MAX), 0);
}

#[test]
fn show_messages_ask_for_operations() {
    let mut sale: Sale<f32> = sale_with_lines(&[3]);
    let mut ids = 9;
    let back = update(&mut sale, Message::Show(show::Message::Back), &mut ids);
    assert_eq!(back.operation, Some(Operation::Back));
    let start = update(&mut sale, Message::Show(show::Message::StartEdit), &mut ids);
    assert_eq!(start.operation, Some(Operation::StartEdit));
    assert_eq!(ids, 9);
    assert_eq!(line_ids(&sale), vec![3]);
    assert_eq!(sale.name, "New Sale");
}

#[test]
fn back_save_and_cancel_ask_for_operations() {
    let mut sale: Sale<f32> = sale_with_lines(&[3]);
    let mut ids = 9;
    assert_eq!(edit_of(&mut sale, &mut ids, edit::Message::Back), Some(Operation::Back));
    assert_eq!(edit_of(&mut sale, &mut ids, edit::Message::Save), Some(Operation::Save));
    assert_eq!(edit_of(&mut sale, &mut ids, edit::Message::Cancel), Some(Operation::Cancel));
    assert_eq!(ids, 9);
    assert_eq!(line_ids(&sale), vec![3]);
}

#[test]
fn submitting_changes_nothing() {
    let mut sale: Sale<f32> = sale_with_lines(&[3]);
    let mut ids = 9;
    assert_eq!(edit_of(&mut sale, &mut ids, edit::Message::NameSubmit), None);
    assert_eq!(edit_of(&mut sale, &mut ids, edit::Message::SubmitItem(3)), None);
    assert_eq!(ids, 9);
    assert_eq!(line_ids(&sale), vec![3]);
    assert_eq!(sale.name, "New Sale");
}

#[test]
fn name_input_sets_the_name() {
    let mut sale: Sale<f32> = Sale::default();
    let mut ids = 0;
    let operation = edit_of(&mut sale, &mut ids, edit::Message::NameInput("Table 4".to_string()));
    assert_eq!(operation, None);
    assert_eq!(sale.name, "Table 4");
    let operation = edit_of(&mut sale, &mut ids, edit::Message::NameInput(String::new()));
    assert_eq!(operation, None);
    assert_eq!(sale.name, "");
}

#[test]
fn add_item_appends_a_blank_line_and_uses_up_an_id() {
    let mut sale: Sale<f32> = Sale::default();
    let mut ids = 5;
    assert_eq!(edit_of(&mut sale, &mut ids, edit::Message::AddItem), None);
    assert_eq!(ids, 6);
    assert_eq!(edit_of(&mut sale, &mut ids, edit::Message::AddItem), None);
    assert_eq!(ids, 7);
    assert_eq!(line_ids(&sale), vec![5, 6]);
    assert_eq!(sale.items[1].name, "");
    assert_eq!(sale.items[1].price(), None);
    assert_eq!(sale.items[1].quantity_string(), "");
    assert_eq!(sale.items[1].tax_group, TaxGroup::Food);
}

#[test]
fn add_item_wraps_the_id() {
    let mut sale: Sale<f32> = Sale::default();
    let mut ids = usize::MAX;
    assert_eq!(edit_of(&mut sale, &mut ids, edit::Message::AddItem), None);
    assert_eq!(ids, 0);
    assert_eq!(line_ids(&sale), vec![usize::MAX]);
}

#[test]
fn remove_item_removes_every_line_with_the_id() {
    let mut sale = sale_with_lines(&[1, 2, 1, 3, 1]);
    let mut ids = 0;
    assert_eq!(edit_of(&mut sale, &mut ids, edit::Message::RemoveItem(1)), None);
    assert_eq!(line_ids(&sale), vec![2, 3]);
    assert_eq!(ids, 0);
}

#[test]
fn remove_item_keeps_the_order_of_the_rest() {
    let mut sale = sale_with_lines(&[4, 9, 6, 2]);
    field(&mut sale, 9, Field::Name("nine".to_string()));
    field(&mut sale, 2, Field::Name("two".to_string()));
    let mut ids = 0;
    assert_eq!(edit_of(&mut sale, &mut ids, edit::Message::RemoveItem(6)), None);
    assert_eq!(line_ids(&sale), vec![4, 9, 2]);
    assert_eq!(sale.items[1].name, "nine");
    assert_eq!(sale.items[2].name, "two");
}

#[test]
fn remove_item_of_an_unknown_id_changes_nothing() {
    let mut sale = sale_with_lines(&[4, 9]);
    let mut ids = 0;
    assert_eq!(edit_of(&mut sale, &mut ids, edit::Message::RemoveItem(5)), None);
    assert_eq!(line_ids(&sale), vec![4, 9]);
    let mut empty: Sale<f32> = Sale::default();
    assert_eq!(edit_of(&mut empty, &mut ids, edit::Message::RemoveItem(5)), None);
    assert!(empty.items.is_empty());
}

#[test]
fn update_item_changes_the_first_line_with_the_id_only() {
    let mut sale = sale_with_lines(&[7, 8, 7]);
    field(&mut sale, 7, Field::Name("first".to_string()));
    assert_eq!(line_ids(&sale), vec![7, 8, 7]);
    assert_eq!(sale.items[0].name, "first");
    assert_eq!(sale.items[1].name, "");
    assert_eq!(sale.items[2].name, "");
}

#[test]
fn update_item_of_an_unknown_id_changes_nothing() {
    let mut sale = sale_with_lines(&[7, 8]);
    field(&mut sale, 9, Field::Name("nobody".to_string()));
    field(&mut sale, 9, Field::Quantity("3".to_string()));
    assert_eq!(line_ids(&sale), vec![7, 8]);
    assert_eq!(sale.items[0].name, "");
    assert_eq!(sale.items[1].name, "");
    assert_eq!(sale.items[0].quantity_string(), "");
    assert_eq!(sale.items[1].quantity_string(), "");
}

#[test]
fn update_item_sets_each_field() {
    let mut sale = sale_with_lines(&[7, 8]);
    field(&mut sale, 8, Field::Name("Wine".to_string()));
    field(&mut sale, 8, Field::Price(Some(12.5)));
    field(&mut sale, 8, Field::Quantity("3".to_string()));
    field(&mut sale, 8, Field::TaxGroup(TaxGroup::Alcohol));
    let item = &sale.items[1];
    assert_eq!(item.id, 8);
    assert_eq!(item.name, "Wine");
    assert_eq!(item.price(), Some(12.5));
    assert_eq!(item.quantity(), 3);
    assert_eq!(item.quantity_string(), "3");
    assert_eq!(item.tax_group, TaxGroup::Alcohol);
    let other = &sale.items[0];
    assert_eq!(other.name, "");
    assert_eq!(other.price(), None);
    assert_eq!(other.quantity_string(), "");
    assert_eq!(other.tax_group, TaxGroup::Food);
}

#[test]
fn price_can_be_taken_away() {
    let mut sale = sale_with_lines(&[1]);
    field(&mut sale, 1, Field::Price(Some(2.0)));
    assert_eq!(sale.items[0].price(), Some(2.0));
    field(&mut sale, 1, Field::Price(None));
    assert_eq!(sale.items[0].price(), None);
}

fn quantity_from(text: &str) -> (u32, String) {
    let mut sale = sale_with_lines(&[1]);
    field(&mut sale, 1, Field::Quantity("77".to_string()));
    assert_eq!(sale.items[0].quantity(), 77);
    field(&mut sale, 1, Field::Quantity(text.to_string()));
    (sale.items[0].quantity(), sale.items[0].quantity_string())
}

#[test]
fn quantity_is_read_from_digits() {
    assert_eq!(quantity_from("0"), (0, "0".to_string()));
    assert_eq!(quantity_from("12"), (12, "12".to_string()));
    assert_eq!(quantity_from("007"), (7, "7".to_string()));
    assert_eq!(quantity_from("4294967295"), (4294967295, "4294967295".to_string()));
}

#[test]
fn quantity_is_read_after_a_plus() {
    assert_eq!(quantity_from("+5"), (5, "5".to_string()));
    assert_eq!(quantity_from("+0012"), (12, "12".to_string()));
}

#[test]
fn quantity_that_writes_no_number_is_none() {
    let none = (0, String::new());
    assert_eq!(quantity_from(""), none);
    assert_eq!(quantity_from("+"), none);
    assert_eq!(quantity_from("++1"), none);
    assert_eq!(quantity_from("-1"), none);
    assert_eq!(quantity_from("-0"), none);
    assert_eq!(quantity_from("1.5"), none);
    assert_eq!(quantity_from(" 1"), none);
    assert_eq!(quantity_from("1 "), none);
    assert_eq!(quantity_from("1_000"), none);
    assert_eq!(quantity_from("12a"), none);
    assert_eq!(quantity_from("abc"), none);
    assert_eq!(quantity_from("\u{0663}"), none);
}

#[test]
fn quantity_above_32_bits_is_none() {
    let none = (0, String::new());
    assert_eq!(quantity_from("4294967296"), none);
    assert_eq!(quantity_from("99999999999999999999999"), none);
}

#[test]
fn quantity_string_reads_back_as_the_quantity() {
    for quantity in [0u32, 1, 9, 10, 250, 65536, u32::MAX] {
        let text = format!("{}", quantity);
        assert_eq!(quantity_from(&text), (quantity, text.clone()));
    }
}

#[test]
fn service_charge_and_gratuity_are_stored() {
    let mut sale: Sale<f32> = Sale::default();
    let mut ids = 0;
    assert_eq!(edit_of(&mut sale, &mut ids, edit::Message::UpdateServiceCharge(12.5)), None);
    assert_eq!(sale.service_charge_percent, Some(12.5));
    assert_eq!(sale.gratuity_amount, None);
    assert_eq!(edit_of(&mut sale, &mut ids, edit::Message::UpdateGratuity(3.0)), None);
    assert_eq!(sale.service_charge_percent, Some(12.5));
    assert_eq!(sale.gratuity_amount, Some(3.0));
    assert_eq!(edit_of(&mut sale, &mut ids, edit::Message::UpdateServiceCharge(0.0)), None);
    assert_eq!(sale.service_charge_percent, Some(0.0));
}

#[test]
fn operation_of_each_message() {
    let show = |message| operation_of::<f32>(&Message::Show(message));
    let edit = |message| operation_of::<f32>(&Message::Edit(message));
    assert_eq!(show(show::Message::Back), Some(Operation::Back));
    assert_eq!(show(show::Message::StartEdit), Some(Operation::StartEdit));
    assert_eq!(edit(edit::Message::Back), Some(Operation::Back));
    assert_eq!(edit(edit::Message::Save), Some(Operation::Save));
    assert_eq!(edit(edit::Message::Cancel), Some(Operation::Cancel));
    assert_eq!(edit(edit::Message::AddItem), None);
    assert_eq!(edit(edit::Message::NameSubmit), None);
    assert_eq!(edit(edit::Message::SubmitItem(1)), None);
    assert_eq!(edit(edit::Message::RemoveItem(1)), None);
    assert_eq!(edit(edit::Message::NameInput("x".to_string())), None);
    assert_eq!(edit(edit::Message::UpdateGratuity(1.0)), None);
    assert_eq!(edit(edit::Message::UpdateServiceCharge(1.0)), None);
    assert_eq!(edit(edit::Message::UpdateItem(1, Field::Price(None))), None);
}

#[test]
fn clone_of_a_sale_holds_the_same() {
    let mut sale = sale_with_lines(&[7, 8]);
    field(&mut sale, 8, Field::Name("Wine".to_string()));
    field(&mut sale, 8, Field::Price(Some(12.5)));
    field(&mut sale, 8, Field::Quantity("3".to_string()));
    field(&mut sale, 8, Field::TaxGroup(TaxGroup::Other));
    let mut ids = 0;
    edit_of(&mut sale, &mut ids, edit::Message::NameInput("Dinner".to_string()));
    edit_of(&mut sale, &mut ids, edit::Message::UpdateGratuity(4.0));
    let copy = sale.clone();
    assert_eq!(copy.name, "Dinner");
    assert_eq!(copy.gratuity_amount, Some(4.0));
    assert_eq!(copy.service_charge_percent, None);
    assert_eq!(line_ids(&copy), vec![7, 8]);
    assert_eq!(copy.items[1].name, "Wine");
    assert_eq!(copy.items[1].price(), Some(12.5));
    assert_eq!(copy.items[1].quantity(), 3);
    assert_eq!(copy.items[1].tax_group, TaxGroup::Other);
    assert_eq!(copy.items[0].quantity_string(), "");
}

#[test]
fn escape_asks_to_go_back_in_both_modes() {
    let sale: Sale<f32> = Sale::default();
    assert_eq!(handle_hotkey(&sale, Mode::View, Hotkey::Escape).operation, Some(Operation::Back));
    assert_eq!(handle_hotkey(&sale, Mode::Edit, Hotkey::Escape).operation, Some(Operation::Back));
    assert_eq!(show::handle_hotkey(Hotkey::Escape).operation, Some(Operation::Back));
}

#[test]
fn tab_asks_for_no_operation() {
    let sale: Sale<f32> = Sale::default();
    for shift in [false, true] {
        let tab = Hotkey::Tab(held(shift));
        assert_eq!(handle_hotkey(&sale, Mode::View, tab).operation, None);
        assert_eq!(handle_hotkey(&sale, Mode::Edit, tab).operation, None);
        assert_eq!(show::handle_hotkey(tab).operation, None);
        assert_eq!(edit::handle_hotkey::<f32>(tab).operation, None);
    }
    assert_eq!(edit::handle_hotkey::<f32>(Hotkey::Escape).operation, None);
}

#[test]
fn tab_moves_the_focus_in_the_form() {
    assert_eq!(edit::focus_for(Hotkey::Tab(held(false))), Some(Focus::Next));
    assert_eq!(edit::focus_for(Hotkey::Tab(held(true))), Some(Focus::Previous));
    let other = Modifiers { shift: false, control: true, alt: true, logo: true };
    assert_eq!(edit::focus_for(Hotkey::Tab(other)), Some(Focus::Next));
    assert_eq!(edit::focus_for(Hotkey::Escape), None);
}

#[test]
fn modifiers_tell_shift() {
    assert!(held(true).shift());
    assert!(!held(false).shift());
}

#[test]
fn form_id_is_field_hyphen_id() {
    assert_eq!(edit::form_id_name("name", 3), "name-3");
    assert_eq!(edit::form_id_name("quantity", 0), "quantity-0");
    assert_eq!(edit::form_id_name("price", 1204), "price-1204");
    assert_eq!(edit::form_id_name("", 10), "-10");
}

#[test]
fn form_id_is_the_id_of_its_name() {
    assert_eq!(edit::form_id("name", 3), text_input::Id::new("name-3"));
    assert_ne!(edit::form_id("name", 3), text_input::Id::new("name-4"));
    assert_ne!(edit::form_id("name", 3), edit::form_id("price", 3));
}
