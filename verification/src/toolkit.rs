//! What the library takes from iced, the GUI toolkit: its tasks and the ids
//! of its text inputs. Nothing here is proved; each item says what it assumes
//! of iced.
use iced::widget::text_input;
use iced::Task;
use vstd::prelude::*;

verus! {

/// `iced::Task`, the work that an application hands to iced's runtime.
/// A task cannot be looked into, so no contract speaks of what one holds.
#[verifier::external_type_specification]
#[verifier::external_body]
#[verifier::reject_recursive_types(T)]
pub struct ExTask<T>(Task<T>);

/// `Task::none`, the task that does nothing. Assumed only to return.
pub assume_specification<T>[ Task::<T>::none ]() -> (task: Task<T>);

/// `Task::chain`, the task that runs `second` once `first` is finished.
/// Assumed only to return.
pub assume_specification<T>[ Task::<T>::chain ](first: Task<T>, second: Task<T>) -> (task: Task<T>)
    where T: 'static
;

/// `iced::widget::focus_next`, the task that moves the focus to the next
/// widget that takes it. Assumed only to return.
pub assume_specification<T>[ iced::widget::focus_next::<T> ]() -> (task: Task<T>);

/// `iced::widget::focus_previous`, the task that moves the focus to the
/// previous widget that takes it. Assumed only to return.
pub assume_specification<T>[ iced::widget::focus_previous::<T> ]() -> (task: Task<T>);

/// `Task::map`, the task whose every output is `f` of an output of `task`.
/// The runtime calls `f` later, on outputs that are not known here, so `f`
/// has to accept every value. Assumed only to return.
#[verifier::external_body]
pub(crate) fn map_task<T, O, F>(task: Task<T>, f: F) -> (mapped: Task<O>) where
    T: Send + 'static,
    O: Send + 'static,
    F: Fn(T) -> O + Send + 'static,

    requires
        forall|output: T| f.requires((output,)),
{
    task.map(f)
}

/// `iced::widget::text_input::Id`, the name by which a text input is found.
/// An id cannot be looked into, so no contract speaks of what one holds.
#[verifier::external_type_specification]
#[verifier::external_body]
pub struct ExTextInputId(text_input::Id);

/// `text_input::Id::new`, the id of the text input named `name`. Assumed
/// only to return.
#[verifier::external_body]
pub(crate) fn text_input_id(name: String) -> (id: text_input::Id) {
    text_input::Id::new(name)
}

} // verus!
