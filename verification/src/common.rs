//! What a view hands up to the component above it: an operation for that
//! component to carry out, a task for the runtime, both or neither.
use crate::toolkit::map_task;
use iced::Task;
use vstd::prelude::*;

verus! {

/// An operation for the component above, and a task for the runtime.
///
/// The operation is carried out by the component that receives the action;
/// the task has to be returned to the runtime, which runs it.
#[verifier::reject_recursive_types(Message)]
pub struct Action<Operation, Message> {
    pub operation: Option<Operation>,
    pub task: Task<Message>,
}

impl<Operation, Message> Action<Operation, Message> {
    /// The action with no operation, whose task does nothing.
    pub fn none() -> (action: Self)
        ensures
            action.operation is None,
    {
        Action { operation: None, task: Task::none() }
    }

    /// The action with `operation` and `task`.
    pub fn new(operation: Operation, task: Task<Message>) -> (action: Self)
        ensures
            action.operation == Some(operation),
            action.task == task,
    {
        Action { operation: Some(operation), task }
    }

    /// The action with `operation`, whose task does nothing.
    pub fn operation(operation: Operation) -> (action: Self)
        ensures
            action.operation == Some(operation),
    {
        Action { operation: Some(operation), task: Task::none() }
    }

    /// The action with `task` and no operation.
    pub fn task(task: Task<Message>) -> (action: Self)
        ensures
            action.operation is None,
            action.task == task,
    {
        Action { operation: None, task }
    }

    /// The same operation, with a task whose messages are mapped by `f`.
    pub fn map<N, F>(self, f: F) -> (mapped: Action<Operation, N>) where
        Message: Send + 'static,
        N: Send + 'static,
        F: Fn(Message) -> N + Send + 'static,

        requires
            forall|message: Message| f.requires((message,)),
        ensures
            mapped.operation == self.operation,
    {
        Action { operation: self.operation, task: map_task(self.task, f) }
    }

    /// The same task, with the operation, if there is one, mapped by `f`.
    pub fn map_operation<N, F>(self, f: F) -> (mapped: Action<N, Message>) where
        Operation: Send + 'static,
        N: Send + 'static,
        F: Fn(Operation) -> N + Send + 'static,

        requires
            self.operation matches Some(operation) ==> f.requires((operation,)),
        ensures
            mapped.task == self.task,
            self.operation is None ==> mapped.operation is None,
            self.operation matches Some(operation) ==> mapped.operation matches Some(to)
                && f.ensures((operation,), to),
    {
        let operation = match self.operation {
            Some(operation) => Some(f(operation)),
            None => None,
        };
        Action { operation, task: self.task }
    }

    /// The same task, with `operation` in place of the operation.
    pub fn with_operation(self, operation: Operation) -> (action: Self)
        ensures
            action.operation == Some(operation),
            action.task == self.task,
    {
        Action { operation: Some(operation), task: self.task }
    }

    /// The same operation, with `task` in place of the task.
    pub fn with_task(self, task: Task<Message>) -> (action: Self)
        ensures
            action.operation == self.operation,
            action.task == task,
    {
        Action { operation: self.operation, task }
    }
}

} // verus!
