//! The lines that the commands report.

use vstd::prelude::*;
use crate::decimal::{decimal, to_decimal};
use crate::store::TaskList;
use crate::style::{Line, Span, SpanView, Style, Tint, escape, line_views};
use crate::task::{Task, TaskView};

verus! {

/// Said when a task has been added; the description follows.
pub const ADDED: &'static str = "✔️ Added task:";

/// Said when a task has been marked done; the description follows.
pub const MARKED_DONE: &'static str = "✔️ Marked as done:";

/// Said when a task has been deleted; the description follows.
pub const REMOVED: &'static str = "🗑️ Removed task:";

/// Said in place of a listing when the store is empty.
pub const NO_TASKS: &'static str = "🎉 No tasks yet!";

/// The first line of a listing.
pub const YOUR_TASKS: &'static str = "📋 Your tasks:";

/// Said when an index names no task.
pub const INVALID_INDEX: &'static str = "❌ Invalid index";

/// Said when a task is to be added without a description.
pub const MISSING_DESCRIPTION: &'static str = "❌ Missing task description";

/// The marker of a task that is done.
pub const DONE_MARKER: &'static str = "[x]";

/// The marker of a task that is still to be done.
pub const PENDING_MARKER: &'static str = "[ ]";

/// A line that holds one bold notice.
pub open spec fn notice_line(text: Seq<char>, tint: Tint) -> Seq<SpanView> {
    seq![SpanView { text, style: Style::Bold(tint) }]
}

/// A line that holds a bold notice and, after it, the description of the
/// task it speaks of, unstyled.
pub open spec fn notice_line_about(text: Seq<char>, tint: Tint, description: Seq<char>) -> Seq<
    SpanView,
> {
    seq![SpanView { text, style: Style::Bold(tint) }, SpanView { text: description, style: Style::Plain }]
}

/// The status marker of a task: done in green, pending in red.
pub open spec fn marker_span(done: bool) -> SpanView {
    if done {
        SpanView { text: DONE_MARKER@, style: Style::Tinted(Tint::Green) }
    } else {
        SpanView { text: PENDING_MARKER@, style: Style::Tinted(Tint::Red) }
    }
}

/// The line of a listing for the task at `index`: the index in decimal
/// notation, the status marker, the description.
pub open spec fn row_of(index: nat, task: TaskView) -> Seq<SpanView> {
    seq![
        SpanView { text: decimal(index), style: Style::Tinted(Tint::Cyan) },
        marker_span(task.done),
        SpanView { text: task.description, style: Style::Plain },
    ]
}

/// The listing of a store. An empty store is reported by one notice. Any
/// other store gets a heading and then one row for each task, in order.
pub open spec fn listing_of(tasks: Seq<TaskView>) -> Seq<Seq<SpanView>> {
    if tasks.len() == 0 {
        seq![notice_line(NO_TASKS@, Tint::Yellow)]
    } else {
        seq![notice_line(YOUR_TASKS@, Tint::Blue)] + Seq::new(
            tasks.len(),
            |i: int| row_of(i as nat, tasks[i]),
        )
    }
}

/// The text of a row: the three pieces with single spaces between them.
pub open spec fn row_text(number: Seq<char>, marker: Seq<char>, description: Seq<char>) -> Seq<
    char,
> {
    number + seq![' '] + marker + seq![' '] + description
}

/// The text of a notice about a task: the notice, a space, the description.
pub open spec fn notice_text(notice: Seq<char>, description: Seq<char>) -> Seq<char> {
    notice + seq![' '] + description
}

/// No notice and no marker holds an escape character.
pub proof fn lemma_notices_hold_no_escape()
    ensures
        !ADDED@.contains(escape()),
        !MARKED_DONE@.contains(escape()),
        !REMOVED@.contains(escape()),
        !NO_TASKS@.contains(escape()),
        !YOUR_TASKS@.contains(escape()),
        !INVALID_INDEX@.contains(escape()),
        !MISSING_DESCRIPTION@.contains(escape()),
        !DONE_MARKER@.contains(escape()),
        !PENDING_MARKER@.contains(escape()),
{
    reveal_strlit("✔️ Added task:");
    reveal_strlit("✔️ Marked as done:");
    reveal_strlit("🗑️ Removed task:");
    reveal_strlit("🎉 No tasks yet!");
    reveal_strlit("📋 Your tasks:");
    reveal_strlit("❌ Invalid index");
    reveal_strlit("❌ Missing task description");
    reveal_strlit("[x]");
    reveal_strlit("[ ]");
}

/// Builds a line that holds one bold notice.
pub fn notice(text: &str, tint: Tint) -> (line: Line)
    ensures
        line@ == notice_line(text@, tint),
{
    Line { spans: vec![Span::styled(text.to_owned(), Style::Bold(tint))] }
}

/// Builds a line that holds a bold notice and the description of the task
/// it speaks of.
pub fn notice_about(text: &str, tint: Tint, description: &str) -> (line: Line)
    ensures
        line@ == notice_line_about(text@, tint, description@),
{
    Line {
        spans: vec![
            Span::styled(text.to_owned(), Style::Bold(tint)),
            Span::plain(description.to_owned()),
        ],
    }
}

/// Builds the line of a listing for the task at `index`.
pub fn row(index: usize, task: &Task) -> (line: Line)
    ensures
        line@ == row_of(index as nat, task@),
{
    let marker = if task.done {
        Span::styled(DONE_MARKER.to_owned(), Style::Tinted(Tint::Green))
    } else {
        Span::styled(PENDING_MARKER.to_owned(), Style::Tinted(Tint::Red))
    };
    Line {
        spans: vec![
            Span::styled(to_decimal(index), Style::Tinted(Tint::Cyan)),
            marker,
            Span::plain(task.description.clone()),
        ],
    }
}

/// Builds the listing of a store.
pub fn listing(store: &TaskList) -> (lines: Vec<Line>)
    ensures
        line_views(lines@) == listing_of(store@),
{
    let mut lines: Vec<Line> = Vec::new();
    if store.is_empty() {
        lines.push(notice(NO_TASKS, Tint::Yellow));
        return lines;
    }
    lines.push(notice(YOUR_TASKS, Tint::Blue));
    let mut i: usize = 0;
    while i < store.tasks.len()
        invariant
            i <= store.tasks.len(),
            lines@.len() == i + 1,
            lines@[0]@ == notice_line(YOUR_TASKS@, Tint::Blue),
            forall|k: int|
                1 <= k <= i ==> (#[trigger] lines@[k])@ == row_of((k - 1) as nat, store@[k - 1]),
        decreases store.tasks.len() - i,
    {
        lines.push(row(i, &store.tasks[i]));
        i += 1;
    }
    lines
}

} // verus!
