use task_store::store::{InvalidIndex, Loaded, TaskList};
use task_store::task::Task;

fn task(description: &str, done: bool) -> Task {
    Task { description: description.to_string(), done }
}

fn store_of(descriptions: &[&str]) -> TaskList {
    let mut store = TaskList::new();
    for description in descriptions {
        store.add(description.to_string());
    }
    store
}

#[test]
fn new_store_is_empty() {
    let store = TaskList::new();
    assert_eq!(store.len(), 0);
    assert!(store.is_empty());
    assert_eq!(store.tasks, Vec::<Task>::new());
}

#[test]
fn new_task_is_pending() {
    assert_eq!(Task::new("buy milk".to_string()), task("buy milk", false));
}

#[test]
fn add_appends_a_pending_task() {
    let mut store = TaskList::new();
    store.add("buy milk".to_string());
    assert_eq!(store.len(), 1);
    assert!(!store.is_empty());
    assert_eq!(store.tasks, vec![task("buy milk", false)]);
}

#[test]
fn adds_keep_their_order() {
    let store = store_of(&["one", "two", "three", "four"]);
    assert_eq!(
        store.tasks,
        vec![task("one", false), task("two", false), task("three", false), task("four", false)]
    );
}

#[test]
fn add_accepts_an_empty_description() {
    let mut store = store_of(&["one"]);
    store.add(String::new());
    assert_eq!(store.tasks, vec![task("one", false), task("", false)]);
}

#[test]
fn add_keeps_earlier_flags() {
    let mut store = store_of(&["one", "two"]);
    assert_eq!(store.mark_done(1), Ok(()));
    store.add("three".to_string());
    assert_eq!(store.tasks, vec![task("one", false), task("two", true), task("three", false)]);
}

#[test]
fn mark_done_sets_one_flag() {
    let mut store = store_of(&["one", "two", "three"]);
    assert_eq!(store.mark_done(1), Ok(()));
    assert_eq!(store.tasks, vec![task("one", false), task("two", true), task("three", false)]);
}

#[test]
fn mark_done_twice_stays_done() {
    let mut store = store_of(&["one", "two"]);
    assert_eq!(store.mark_done(0), Ok(()));
    assert_eq!(store.mark_done(0), Ok(()));
    assert_eq!(store.tasks, vec![task("one", true), task("two", false)]);
}

#[test]
fn mark_done_at_the_length_is_refused() {
    let mut store = store_of(&["one", "two"]);
    let before = store.clone();
    assert_eq!(store.mark_done(2), Err(InvalidIndex { index: 2, len: 2 }));
    assert_eq!(store, before);
}

#[test]
fn mark_done_on_an_empty_store_is_refused() {
    let mut store = TaskList::new();
    assert_eq!(store.mark_done(0), Err(InvalidIndex { index: 0, len: 0 }));
    assert!(store.is_empty());
}

#[test]
fn mark_done_far_out_of_range_is_refused() {
    let mut store = store_of(&["one"]);
    assert_eq!(store.mark_done(usize::MAX), Err(InvalidIndex { index: usize::MAX, len: 1 }));
    assert_eq!(store.tasks, vec![task("one", false)]);
}

#[test]
fn remove_hands_back_the_task_and_shifts_the_rest() {
    let mut store = store_of(&["one", "two", "three", "four"]);
    assert_eq!(store.mark_done(3), Ok(()));
    assert_eq!(store.remove(1), Ok(task("two", false)));
    assert_eq!(store.tasks, vec![task("one", false), task("three", false), task("four", true)]);
    assert_eq!(store.len(), 3);
}

#[test]
fn remove_first_and_last() {
    let mut store = store_of(&["one", "two", "three"]);
    assert_eq!(store.remove(0), Ok(task("one", false)));
    assert_eq!(store.remove(1), Ok(task("three", false)));
    assert_eq!(store.tasks, vec![task("two", false)]);
    assert_eq!(store.remove(0), Ok(task("two", false)));
    assert!(store.is_empty());
}

#[test]
fn remove_at_the_length_is_refused() {
    let mut store = store_of(&["one", "two"]);
    let before = store.clone();
    assert_eq!(store.remove(2), Err(InvalidIndex { index: 2, len: 2 }));
    assert_eq!(store, before);
}

#[test]
fn remove_on_an_empty_store_is_refused() {
    let mut store = TaskList::new();
    assert_eq!(store.remove(0), Err(InvalidIndex { index: 0, len: 0 }));
    assert!(store.is_empty());
}

#[test]
fn indices_are_not_stable_across_removals() {
    let mut store = store_of(&["one", "two", "three"]);
    assert_eq!(store.remove(0), Ok(task("one", false)));
    assert_eq!(store.mark_done(1), Ok(()));
    assert_eq!(store.tasks, vec![task("two", false), task("three", true)]);
    assert_eq!(store.mark_done(2), Err(InvalidIndex { index: 2, len: 2 }));
}

#[test]
fn clone_of_a_task_is_equal() {
    let first = task("walk dog", true);
    assert_eq!(first.clone(), first);
}

#[test]
fn clone_of_a_store_is_equal_and_independent() {
    let store = store_of(&["one", "two"]);
    let mut copy = store.clone();
    assert_eq!(copy, store);
    copy.add("three".to_string());
    assert_eq!(store.len(), 2);
    assert_eq!(copy.len(), 3);
}

#[test]
fn a_missing_file_gives_the_empty_store() {
    assert_eq!(TaskList::recover(Loaded::Unreadable), TaskList::new());
}

#[test]
fn a_malformed_file_gives_the_empty_store() {
    assert_eq!(TaskList::recover(Loaded::Malformed), TaskList::new());
    assert_eq!(TaskList::recover(Loaded::Malformed), TaskList::recover(Loaded::Unreadable));
}

#[test]
fn loaded_tasks_are_kept_as_they_are() {
    let tasks = vec![task("one", true), task("", false), task("three", true)];
    let store = TaskList::recover(Loaded::Tasks(tasks.clone()));
    assert_eq!(store.tasks, tasks);
}

#[test]
fn a_store_handed_back_unchanged_is_recovered_unchanged() {
    let mut store = store_of(&["buy milk", "walk dog"]);
    assert_eq!(store.mark_done(1), Ok(()));
    let saved = store.tasks.clone();
    assert_eq!(TaskList::recover(Loaded::Tasks(saved)), store);
}

#[test]
fn an_empty_file_list_gives_the_empty_store() {
    assert_eq!(TaskList::recover(Loaded::Tasks(Vec::new())), TaskList::new());
}
