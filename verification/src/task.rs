//! A single task: a description and a completion flag.

use vstd::prelude::*;

verus! {

/// One entry of the task list.
#[derive(Debug, PartialEq, Eq)]
pub struct Task {
    /// What is to be done. Any text is accepted, the empty text too.
    pub description: String,
    /// Whether the task has been completed.
    pub done: bool,
}

/// The mathematical value of a [`Task`].
pub ghost struct TaskView {
    pub description: Seq<char>,
    pub done: bool,
}

impl View for Task {
    type V = TaskView;

    open spec fn view(&self) -> TaskView {
        TaskView { description: self.description@, done: self.done }
    }
}

impl Clone for Task {
    fn clone(&self) -> (copy: Task)
        ensures
            copy == *self,
    {
        Task { description: self.description.clone(), done: self.done }
    }
}

impl Task {
    /// A task that is still to be done.
    pub fn new(description: String) -> (task: Task)
        ensures
            task@ == pending(description@),
    {
        Task { description, done: false }
    }
}

/// The task that `add` creates for a description: not yet done.
pub open spec fn pending(description: Seq<char>) -> TaskView {
    TaskView { description, done: false }
}

/// The views of a run of tasks, in order.
pub open spec fn task_views(tasks: Seq<Task>) -> Seq<TaskView> {
    Seq::new(tasks.len(), |i: int| tasks[i]@)
}

} // verus!
