//! The task store: an ordered list of tasks, each known by its position.

use vstd::prelude::*;
use crate::task::{Task, TaskView, pending, task_views};

verus! {

/// The store after a task with the given description is appended.
pub open spec fn appended(tasks: Seq<TaskView>, description: Seq<char>) -> Seq<TaskView> {
    tasks.push(pending(description))
}

/// The store after the task at `index` is marked done. An index that names
/// no task leaves the store as it is.
pub open spec fn completed(tasks: Seq<TaskView>, index: int) -> Seq<TaskView> {
    if 0 <= index < tasks.len() {
        tasks.update(index, TaskView { description: tasks[index].description, done: true })
    } else {
        tasks
    }
}

/// The store after the task at `index` is deleted: every later task moves
/// down by one. An index that names no task leaves the store as it is.
pub open spec fn without(tasks: Seq<TaskView>, index: int) -> Seq<TaskView> {
    if 0 <= index < tasks.len() {
        tasks.remove(index)
    } else {
        tasks
    }
}

/// The error of an index that names no task.
#[derive(Clone, Copy, Debug, PartialEq, Eq)]
pub struct InvalidIndex {
    /// The index that was asked for.
    pub index: usize,
    /// The number of tasks in the store at that time.
    pub len: usize,
}

/// The error that an index gets where it names no task of the store.
pub open spec fn refusal_of(index: usize, tasks: Seq<TaskView>) -> InvalidIndex {
    InvalidIndex { index, len: tasks.len() as usize }
}

/// What came of reading the backing file.
#[derive(Debug, PartialEq, Eq)]
pub enum Loaded {
    /// There is no file, or it could not be read as text.
    Unreadable,
    /// The file was read, but its text is not a list of tasks.
    Malformed,
    /// The tasks that the file holds, in its order.
    Tasks(Vec<Task>),
}

/// The store that a reading of the backing file gives. The policy is
/// lenient: a file that is missing and a file that cannot be understood both
/// give the empty store, and neither is an error.
pub open spec fn recovered(loaded: Loaded) -> Seq<TaskView> {
    match loaded {
        Loaded::Unreadable => Seq::empty(),
        Loaded::Malformed => Seq::empty(),
        Loaded::Tasks(tasks) => task_views(tasks@),
    }
}

/// The ordered list of tasks. A task has no identity but its position.
#[derive(Debug, PartialEq, Eq)]
pub struct TaskList {
    pub tasks: Vec<Task>,
}

impl View for TaskList {
    type V = Seq<TaskView>;

    open spec fn view(&self) -> Seq<TaskView> {
        task_views(self.tasks@)
    }
}

impl Clone for TaskList {
    fn clone(&self) -> (copy: TaskList)
        ensures
            copy@ == self@,
    {
        let tasks = self.tasks.clone();
        TaskList { tasks }
    }
}

impl TaskList {
    /// The empty store.
    pub fn new() -> (list: TaskList)
        ensures
            list@ == Seq::<TaskView>::empty(),
    {
        TaskList { tasks: Vec::new() }
    }

    /// The store to start from, given what came of reading the backing file.
    pub fn recover(loaded: Loaded) -> (list: TaskList)
        ensures
            list@ == recovered(loaded),
    {
        match loaded {
            Loaded::Tasks(tasks) => TaskList { tasks },
            Loaded::Unreadable => TaskList::new(),
            Loaded::Malformed => TaskList::new(),
        }
    }

    /// The number of tasks.
    pub fn len(&self) -> (n: usize)
        ensures
            n == self@.len(),
    {
        self.tasks.len()
    }

    /// Whether the store holds no task.
    pub fn is_empty(&self) -> (empty: bool)
        ensures
            empty == (self@.len() == 0),
    {
        self.tasks.len() == 0
    }

    /// Appends a task with this description, not yet done.
    pub fn add(&mut self, description: String)
        ensures
            final(self)@ == appended(old(self)@, description@),
    {
        self.tasks.push(Task::new(description));
    }

    /// Marks the task at `index` as done. With an index that names no task
    /// the store is left as it was.
    pub fn mark_done(&mut self, index: usize) -> (result: Result<(), InvalidIndex>)
        ensures
            final(self)@ == completed(old(self)@, index as int),
            index < old(self)@.len() ==> result is Ok,
            index >= old(self)@.len() ==> result is Err && result->Err_0 == refusal_of(
                index,
                old(self)@,
            ),
    {
        let len = self.tasks.len();
        if index < len {
            self.tasks[index].done = true;
            Ok(())
        } else {
            Err(InvalidIndex { index, len })
        }
    }

    /// Deletes the task at `index` and hands it back. With an index that
    /// names no task the store is left as it was.
    pub fn remove(&mut self, index: usize) -> (result: Result<Task, InvalidIndex>)
        ensures
            final(self)@ == without(old(self)@, index as int),
            index < old(self)@.len() ==> result is Ok && result->Ok_0@ == old(self)@[index as int],
            index >= old(self)@.len() ==> result is Err && result->Err_0 == refusal_of(
                index,
                old(self)@,
            ),
    {
        let len = self.tasks.len();
        if index < len {
            let task = self.tasks.remove(index);
            Ok(task)
        } else {
            Err(InvalidIndex { index, len })
        }
    }
}

} // verus!
