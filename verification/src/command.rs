//! The four commands and what each of them does to a store.
//!
//! [`execute`] applies one command. It changes the store in memory and says
//! in its [`Outcome`] what is left for the caller to do: whether the store has
//! to be written back, which lines go to standard output and which to the
//! error stream, and how the process is to exit.

use vstd::prelude::*;
use crate::report::{
    ADDED, INVALID_INDEX, MARKED_DONE, MISSING_DESCRIPTION, REMOVED, listing, listing_of, notice,
    notice_about, notice_line, notice_line_about,
};
use crate::store::{TaskList, appended, completed, without};
use crate::style::{Line, SpanView, Tint, line_views};
use crate::task::TaskView;
use crate::words::{join, joined, texts};

verus! {

/// One request of the user.
#[derive(Debug, PartialEq, Eq)]
pub enum Command {
    /// Append a task. The description is given as words, which are joined
    /// with single spaces; at least one word is needed.
    Add { description: Vec<String> },
    /// Show the store.
    List,
    /// Mark the task at `index` as done.
    Done { index: usize },
    /// Delete the task at `index`.
    Remove { index: usize },
}

/// The mathematical value of a [`Command`].
pub ghost enum CommandView {
    Add { words: Seq<Seq<char>> },
    List,
    Done { index: nat },
    Remove { index: nat },
}

impl View for Command {
    type V = CommandView;

    open spec fn view(&self) -> CommandView {
        match *self {
            Command::Add { description } => CommandView::Add { words: texts(description@) },
            Command::List => CommandView::List,
            Command::Done { index } => CommandView::Done { index: index as nat },
            Command::Remove { index } => CommandView::Remove { index: index as nat },
        }
    }
}

/// How the process is to end.
#[derive(Clone, Copy, Debug, PartialEq, Eq)]
pub enum Exit {
    /// The command was carried out.
    Success,
    /// The index named no task.
    InvalidIndex,
    /// The command was not well formed.
    Usage,
}

impl Exit {
    /// The exit status of the process: zero for success only.
    pub open spec fn status(self) -> int {
        match self {
            Exit::Success => 0,
            Exit::InvalidIndex => 1,
            Exit::Usage => 2,
        }
    }

    /// The exit status of the process.
    pub fn code(self) -> (code: i32)
        ensures
            code == self.status(),
    {
        match self {
            Exit::Success => 0,
            Exit::InvalidIndex => 1,
            Exit::Usage => 2,
        }
    }
}

/// What is left to do once a command has been applied to the store in memory.
#[derive(Debug, PartialEq, Eq)]
pub struct Outcome {
    /// How the process is to end.
    pub exit: Exit,
    /// Whether the store has changed and has to be written back.
    pub persist: bool,
    /// The lines for standard output.
    pub out: Vec<Line>,
    /// The lines for the error stream.
    pub err: Vec<Line>,
}

/// The mathematical value of an [`Outcome`].
pub ghost struct OutcomeView {
    pub exit: Exit,
    pub persist: bool,
    pub out: Seq<Seq<SpanView>>,
    pub err: Seq<Seq<SpanView>>,
}

impl View for Outcome {
    type V = OutcomeView;

    open spec fn view(&self) -> OutcomeView {
        OutcomeView {
            exit: self.exit,
            persist: self.persist,
            out: line_views(self.out@),
            err: line_views(self.err@),
        }
    }
}

/// The outcome of a command that was carried out and reports one line.
pub open spec fn carried_out(persist: bool, out: Seq<Seq<SpanView>>) -> OutcomeView {
    OutcomeView { exit: Exit::Success, persist, out, err: Seq::empty() }
}

/// The outcome of a command that was refused: nothing is to be written back,
/// and one notice goes to the error stream.
pub open spec fn refused(exit: Exit, complaint: Seq<char>) -> OutcomeView {
    OutcomeView {
        exit,
        persist: false,
        out: Seq::empty(),
        err: seq![notice_line(complaint, Tint::Red)],
    }
}

/// Whether a command can be carried out on a store: a task needs at least
/// one word of description, and an index has to name a task.
pub open spec fn accepted(tasks: Seq<TaskView>, command: CommandView) -> bool {
    match command {
        CommandView::Add { words } => words.len() > 0,
        CommandView::List => true,
        CommandView::Done { index } => index < tasks.len(),
        CommandView::Remove { index } => index < tasks.len(),
    }
}

/// The store after a command. A command that is refused leaves it as it is.
pub open spec fn store_after(tasks: Seq<TaskView>, command: CommandView) -> Seq<TaskView> {
    if !accepted(tasks, command) {
        tasks
    } else {
        match command {
            CommandView::Add { words } => appended(tasks, joined(words)),
            CommandView::List => tasks,
            CommandView::Done { index } => completed(tasks, index as int),
            CommandView::Remove { index } => without(tasks, index as int),
        }
    }
}

/// The outcome of a command on a store.
pub open spec fn outcome_of(tasks: Seq<TaskView>, command: CommandView) -> OutcomeView {
    match command {
        CommandView::Add { words } => if words.len() > 0 {
            carried_out(true, seq![notice_line_about(ADDED@, Tint::Green, joined(words))])
        } else {
            refused(Exit::Usage, MISSING_DESCRIPTION@)
        },
        CommandView::List => carried_out(false, listing_of(tasks)),
        CommandView::Done { index } => if index < tasks.len() {
            carried_out(
                true,
                seq![
                    notice_line_about(MARKED_DONE@, Tint::Green, tasks[index as int].description),
                ],
            )
        } else {
            refused(Exit::InvalidIndex, INVALID_INDEX@)
        },
        CommandView::Remove { index } => if index < tasks.len() {
            carried_out(
                true,
                seq![notice_line_about(REMOVED@, Tint::Yellow, tasks[index as int].description)],
            )
        } else {
            refused(Exit::InvalidIndex, INVALID_INDEX@)
        },
    }
}

/// Builds the outcome of a command that was carried out.
fn success(persist: bool, out: Vec<Line>) -> (outcome: Outcome)
    ensures
        outcome@ == carried_out(persist, line_views(out@)),
{
    let outcome = Outcome { exit: Exit::Success, persist, out, err: Vec::new() };
    assert(line_views(outcome.err@) =~= Seq::empty());
    outcome
}

/// Builds the outcome of a command that was refused.
fn refusal(exit: Exit, complaint: &str) -> (outcome: Outcome)
    ensures
        outcome@ == refused(exit, complaint@),
{
    let outcome = Outcome {
        exit,
        persist: false,
        out: Vec::new(),
        err: vec![notice(complaint, Tint::Red)],
    };
    assert(line_views(outcome.out@) =~= Seq::empty());
    assert(line_views(outcome.err@) =~= seq![notice_line(complaint@, Tint::Red)]);
    outcome
}

/// Builds the outcome of a command that changed the store and reports it
/// with one notice about a task.
fn changed(text: &str, tint: Tint, description: &str) -> (outcome: Outcome)
    ensures
        outcome@ == carried_out(true, seq![notice_line_about(text@, tint, description@)]),
{
    let out = vec![notice_about(text, tint, description)];
    assert(line_views(out@) =~= seq![notice_line_about(text@, tint, description@)]);
    success(true, out)
}

/// Applies one command to the store.
///
/// `add` joins its words with single spaces and appends the task; without a
/// word it is a usage error. `list` reports the store and changes nothing.
/// `done` and `remove` act on the task at their index; an index that names no
/// task is an error. Every error leaves the store untouched and asks for
/// nothing to be written back.
pub fn execute(store: &mut TaskList, command: &Command) -> (outcome: Outcome)
    ensures
        final(store)@ == store_after(old(store)@, command@),
        outcome@ == outcome_of(old(store)@, command@),
{
    match command {
        Command::Add { description } => {
            if description.len() == 0 {
                refusal(Exit::Usage, MISSING_DESCRIPTION)
            } else {
                let text = join(description);
                let outcome = changed(ADDED, Tint::Green, text.as_str());
                store.add(text);
                outcome
            }
        },
        Command::List => success(false, listing(store)),
        Command::Done { index } => {
            match store.mark_done(*index) {
                Ok(()) => {
                    assert(store@.len() == store.tasks@.len());
                    assert(store@[*index as int] == store.tasks@[*index as int]@);
                    changed(MARKED_DONE, Tint::Green, store.tasks[*index].description.as_str())
                },
                Err(_) => refusal(Exit::InvalidIndex, INVALID_INDEX),
            }
        },
        Command::Remove { index } => {
            match store.remove(*index) {
                Ok(task) => changed(REMOVED, Tint::Yellow, task.description.as_str()),
                Err(_) => refusal(Exit::InvalidIndex, INVALID_INDEX),
            }
        },
    }
}

} // verus!
