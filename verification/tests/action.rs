use iced::Task;
use receipts::sale::Operation;
use receipts::Action;

#[test]
fn none_has_no_operation() {
    let action: Action<Operation, u8> = Action::none();
    assert_eq!(action.operation, None);
}

#[test]
fn new_holds_the_operation() {
    let action: Action<Operation, u8> = Action::new(Operation::Save, Task::none());
    assert_eq!(action.operation, Some(Operation::Save));
}

#[test]
fn operation_holds_the_operation() {
    let action: Action<Operation, u8> = Action::operation(Operation::Back);
    assert_eq!(action.operation, Some(Operation::Back));
}

#[test]
fn task_has_no_operation() {
    let action: Action<Operation, u8> = Action::task(Task::done(3));
    assert_eq!(action.operation, None);
}

#[test]
fn map_keeps_the_operation() {
    let action: Action<Operation, u8> = Action::operation(Operation::Cancel);
    let mapped: Action<Operation, u32> = action.map(|message| u32::from(message) + 1);
    assert_eq!(mapped.operation, Some(Operation::Cancel));
    let bare: Action<Operation, u8> = Action::none();
    let mapped: Action<Operation, u32> = bare.map(u32::from);
    assert_eq!(mapped.operation, None);
}

#[test]
fn map_operation_maps_the_operation() {
    let action: Action<u8, u8> = Action::operation(4);
    let mapped: Action<u32, u8> = action.map_operation(|operation| u32::from(operation) * 10);
    assert_eq!(mapped.operation, Some(40));
    let bare: Action<u8, u8> = Action::none();
    let mapped: Action<u32, u8> = bare.map_operation(|operation| u32::from(operation) * 10);
    assert_eq!(mapped.operation, None);
}

#[test]
fn with_operation_replaces_the_operation() {
    let action: Action<Operation, u8> = Action::operation(Operation::Back);
    assert_eq!(action.with_operation(Operation::Save).operation, Some(Operation::Save));
    let bare: Action<Operation, u8> = Action::none();
    assert_eq!(bare.with_operation(Operation::StartEdit).operation, Some(Operation::StartEdit));
}

#[test]
fn with_task_keeps_the_operation() {
    let action: Action<Operation, u8> = Action::operation(Operation::Back);
    assert_eq!(action.with_task(Task::done(1)).operation, Some(Operation::Back));
    let bare: Action<Operation, u8> = Action::none();
    assert_eq!(bare.with_task(Task::none()).operation, None);
}
