//! What holds of the commands taken together.

use vstd::prelude::*;
use crate::command::{CommandView, Exit, accepted, outcome_of, store_after};
use crate::decimal::{decimal, lemma_decimal_digits};
use crate::report::{
    DONE_MARKER, PENDING_MARKER, lemma_notices_hold_no_escape, listing_of, notice_line,
    notice_line_about, notice_text, row_of, row_text,
};
use crate::store::{Loaded, TaskList, recovered};
use crate::style::{SpanView, Tint, escape, rendered, shown, wrapped};
use crate::task::{TaskView, pending};
use crate::words::{joined, lemma_joined_push};

verus! {

/// The store after a run of commands, applied one after another.
pub open spec fn store_after_all(tasks: Seq<TaskView>, commands: Seq<CommandView>) -> Seq<TaskView>
    decreases commands.len(),
{
    if commands.len() == 0 {
        tasks
    } else {
        store_after(store_after_all(tasks, commands.drop_last()), commands.last())
    }
}

/// Whether a command adds a task and gives at least one word for it.
pub open spec fn adds_a_task(command: CommandView) -> bool {
    command matches CommandView::Add { words } && words.len() > 0
}

/// The description that an `add` command gives its task.
pub open spec fn description_of(command: CommandView) -> Seq<char> {
    joined(command->words)
}

/// Every `add` appends: after a run of `add` commands the store holds what it
/// held before, untouched, and after that one pending task for each command,
/// in the order of the commands.
pub proof fn law_adds_append_in_order(tasks: Seq<TaskView>, commands: Seq<CommandView>)
    requires
        forall|i: int| 0 <= i < commands.len() ==> adds_a_task(#[trigger] commands[i]),
    ensures
        store_after_all(tasks, commands).len() == tasks.len() + commands.len(),
        forall|i: int|
            0 <= i < tasks.len() ==> #[trigger] store_after_all(tasks, commands)[i] == tasks[i],
        forall|i: int|
            0 <= i < commands.len() ==> #[trigger] store_after_all(tasks, commands)[tasks.len() + i]
                == pending(description_of(commands[i])),
    decreases commands.len(),
{
    if commands.len() > 0 {
        let before = commands.drop_last();
        law_adds_append_in_order(tasks, before);
        assert forall|i: int| 0 <= i < commands.len() implies #[trigger] store_after_all(
            tasks,
            commands,
        )[tasks.len() + i] == pending(description_of(commands[i])) by {
            if i < before.len() {
                assert(store_after_all(tasks, before)[tasks.len() + i] == pending(
                    description_of(before[i]),
                ));
            }
        }
    }
}

/// A listing shows every task of the store, in order: after the heading, the
/// row at each position is that of the task at that position.
pub proof fn law_list_shows_the_store(tasks: Seq<TaskView>)
    ensures
        store_after(tasks, CommandView::List) == tasks,
        outcome_of(tasks, CommandView::List).exit == Exit::Success,
        !outcome_of(tasks, CommandView::List).persist,
        outcome_of(tasks, CommandView::List).out == listing_of(tasks),
        tasks.len() > 0 ==> listing_of(tasks).len() == tasks.len() + 1,
        forall|i: int|
            0 <= i < tasks.len() ==> #[trigger] listing_of(tasks)[i + 1] == row_of(
                i as nat,
                tasks[i],
            ),
{
}

/// After a run of `add` commands on the empty store a listing shows exactly
/// their descriptions, in order, each as a pending task.
pub proof fn law_list_after_adds(commands: Seq<CommandView>)
    requires
        commands.len() > 0,
        forall|i: int| 0 <= i < commands.len() ==> adds_a_task(#[trigger] commands[i]),
    ensures
        listing_of(store_after_all(Seq::empty(), commands)).len() == commands.len() + 1,
        forall|i: int|
            0 <= i < commands.len() ==> #[trigger] listing_of(
                store_after_all(Seq::empty(), commands),
            )[i + 1] == row_of(i as nat, pending(description_of(commands[i]))),
{
    let tasks = store_after_all(Seq::empty(), commands);
    law_adds_append_in_order(Seq::empty(), commands);
    law_list_shows_the_store(tasks);
    assert forall|i: int| 0 <= i < commands.len() implies #[trigger] listing_of(tasks)[i + 1]
        == row_of(i as nat, pending(description_of(commands[i]))) by {
        assert(tasks[0 + i] == pending(description_of(commands[i])));
    }
}

/// `done` with an index that names a task marks that task and no other: the
/// store keeps its length, the task keeps its description, and a listing
/// shows the same rows as before but for the one at the index, which now
/// shows the task as done. The store is to be written back.
pub proof fn law_done_marks_one_task(tasks: Seq<TaskView>, index: nat)
    requires
        index < tasks.len(),
    ensures
        ({
            let command = CommandView::Done { index };
            let after = store_after(tasks, command);
            &&& outcome_of(tasks, command).exit == Exit::Success
            &&& outcome_of(tasks, command).persist
            &&& after.len() == tasks.len()
            &&& after[index as int] == (TaskView {
                description: tasks[index as int].description,
                done: true,
            })
            &&& forall|j: int| 0 <= j < tasks.len() && j != index ==> after[j] == tasks[j]
            &&& listing_of(after).len() == listing_of(tasks).len()
            &&& listing_of(after)[index as int + 1] == row_of(index, after[index as int])
            &&& forall|j: int|
                0 <= j < listing_of(tasks).len() && j != index as int + 1 ==> listing_of(after)[j]
                    == listing_of(tasks)[j]
        }),
{
}

/// `remove` with an index that names a task deletes that task and no other:
/// the tasks before it stay where they are, each task after it moves down by
/// one, and a listing shows them at their new positions. The store is to be
/// written back.
pub proof fn law_remove_shifts_down(tasks: Seq<TaskView>, index: nat)
    requires
        index < tasks.len(),
    ensures
        ({
            let command = CommandView::Remove { index };
            let after = store_after(tasks, command);
            &&& outcome_of(tasks, command).exit == Exit::Success
            &&& outcome_of(tasks, command).persist
            &&& after.len() == tasks.len() - 1
            &&& forall|j: int| 0 <= j < index ==> after[j] == tasks[j]
            &&& forall|j: int| index <= j < after.len() ==> after[j] == tasks[j + 1]
            &&& forall|j: int|
                0 <= j < index ==> #[trigger] listing_of(after)[j + 1] == row_of(j as nat, tasks[j])
            &&& forall|j: int|
                index <= j < after.len() ==> #[trigger] listing_of(after)[j + 1] == row_of(
                    j as nat,
                    tasks[j + 1],
                )
        }),
{
}

/// A command that is refused changes nothing: the store stays as it is,
/// nothing is to be written back, nothing goes to standard output, and the
/// exit status is not zero. `done` and `remove` are refused exactly when
/// their index names no task.
pub proof fn law_refusal_changes_nothing(tasks: Seq<TaskView>, command: CommandView)
    requires
        !accepted(tasks, command),
    ensures
        store_after(tasks, command) == tasks,
        !outcome_of(tasks, command).persist,
        outcome_of(tasks, command).exit.status() != 0,
        outcome_of(tasks, command).out.len() == 0,
        outcome_of(tasks, command).err.len() == 1,
{
}

/// A command that is carried out ends with status zero and writes nothing to
/// the error stream; the store is written back unless the command was `list`.
pub proof fn law_acceptance_succeeds(tasks: Seq<TaskView>, command: CommandView)
    requires
        accepted(tasks, command),
    ensures
        outcome_of(tasks, command).exit.status() == 0,
        outcome_of(tasks, command).err.len() == 0,
        outcome_of(tasks, command).persist == !(command is List),
{
}

/// A backing file that cannot be understood gives the same store as one
/// that is missing: the empty one.
pub proof fn law_lenient_loading()
    ensures
        recovered(Loaded::Malformed) == recovered(Loaded::Unreadable),
        recovered(Loaded::Unreadable) == Seq::<TaskView>::empty(),
{
}

/// Tasks that were read from the backing file make up the store as they
/// are: same order, same descriptions, same flags. So a store whose tasks
/// come back from the file as they went into it is recovered as it was.
pub proof fn law_loading_keeps_tasks(store: TaskList)
    ensures
        recovered(Loaded::Tasks(store.tasks)) == store@,
        recovered(Loaded::Tasks(store.tasks)).len() == store.tasks@.len(),
        forall|i: int|
            0 <= i < store.tasks@.len() ==> #[trigger] recovered(Loaded::Tasks(store.tasks))[i]
                == store.tasks@[i]@,
{
}

/// The pieces of which a formatted line is made, one for each span.
pub open spec fn pieces_of(line: Seq<SpanView>, out: Seq<char>) -> Seq<Seq<char>> {
    choose|pieces: Seq<Seq<char>>|
        #![trigger joined(pieces)]
        {
            &&& pieces.len() == line.len()
            &&& forall|k: int| 0 <= k < line.len() ==> shown(line[k], #[trigger] pieces[k])
            &&& out == joined(pieces)
        }
}

/// A line with one bold notice, once formatted, is that notice in one of
/// the forms of a coloured text.
pub proof fn law_notice_layout(text: Seq<char>, tint: Tint, out: Seq<char>)
    requires
        !text.contains(escape()),
        rendered(notice_line(text, tint), out),
    ensures
        wrapped(text, tint, true, out),
{
    let pieces = pieces_of(notice_line(text, tint), out);
    assert(shown(notice_line(text, tint)[0], pieces[0]));
}

/// A line with a bold notice and a description, once formatted, is the
/// notice in one of the forms of a coloured text, a space, and the
/// description as it is.
pub proof fn law_notice_about_layout(
    text: Seq<char>,
    tint: Tint,
    description: Seq<char>,
    out: Seq<char>,
)
    requires
        !text.contains(escape()),
        rendered(notice_line_about(text, tint, description), out),
    ensures
        exists|notice: Seq<char>|
            wrapped(text, tint, true, notice) && out == #[trigger] notice_text(notice, description),
{
    let line = notice_line_about(text, tint, description);
    let pieces = pieces_of(line, out);
    assert(shown(line[0], pieces[0]) && shown(line[1], pieces[1]));
    assert(pieces =~= seq![pieces[0]].push(pieces[1]));
    lemma_joined_push(seq![pieces[0]], pieces[1]);
    assert(out == notice_text(pieces[0], description));
}

/// A row of a listing, once formatted, reads: the index in decimal
/// notation, a space, the status marker, a space, the description. The index
/// and the marker each come in one of the forms of a coloured text; the
/// description stands as it is.
pub proof fn law_row_layout(index: nat, task: TaskView, out: Seq<char>)
    requires
        rendered(row_of(index, task), out),
    ensures
        (exists|number: Seq<char>, marker: Seq<char>|
            {
                &&& wrapped(decimal(index), Tint::Cyan, false, number)
                &&& task.done ==> wrapped(DONE_MARKER@, Tint::Green, false, marker)
                &&& !task.done ==> wrapped(PENDING_MARKER@, Tint::Red, false, marker)
                &&& out == #[trigger] row_text(number, marker, task.description)
            }),
{
    let line = row_of(index, task);
    let pieces = pieces_of(line, out);
    assert(shown(line[0], pieces[0]) && shown(line[1], pieces[1]) && shown(line[2], pieces[2]));
    assert(!decimal(index).contains(escape())) by {
        lemma_decimal_digits(index);
    }
    lemma_notices_hold_no_escape();
    let head = seq![pieces[0]];
    assert(pieces =~= head.push(pieces[1]).push(pieces[2]));
    lemma_joined_push(head, pieces[1]);
    lemma_joined_push(head.push(pieces[1]), pieces[2]);
    assert(out == row_text(pieces[0], pieces[1], task.description));
}

} // verus!
