//! The insertion-ordered collections of `indexmap`, as far as this crate
//! uses them. Verus sees nothing inside such a collection: what it holds has
//! a name here, and each method that the crate calls has a contract over
//! that name.

use crate::process::Child;
use crate::tasks::{Task, TaskView};
use indexmap::{IndexMap, IndexSet};
use vstd::prelude::*;

verus! {

/// The insertion-ordered set of `indexmap`.
#[verifier::external_type_specification]
#[verifier::external_body]
#[verifier::reject_recursive_types(T)]
#[verifier::reject_recursive_types(S)]
pub struct ExIndexSet<T, S>(indexmap::IndexSet<T, S>);

/// The texts that a set of strings holds, in the order in which they were
/// first inserted.
pub uninterp spec fn string_set_items(set: IndexSet<String>) -> Seq<Seq<char>>;

/// `IndexSet::new`: a set that holds nothing.
#[verifier::external_body]
pub(crate) fn string_set_new() -> (set: IndexSet<String>)
    ensures
        string_set_items(set) == Seq::<Seq<char>>::empty(),
{
    IndexSet::new()
}

/// `IndexSet::insert`: a string whose text the set holds already leaves the
/// set as it is, and `false` is returned; any other string becomes the last
/// item, and `true` is returned.
#[verifier::external_body]
pub(crate) fn string_set_insert(set: &mut IndexSet<String>, value: String) -> (fresh: bool)
    ensures
        fresh == !string_set_items(*old(set)).contains(value@),
        fresh ==> string_set_items(*final(set)) == string_set_items(*old(set)).push(value@),
        !fresh ==> string_set_items(*final(set)) == string_set_items(*old(set)),
{
    set.insert(value)
}

/// `IndexSet::into_iter`, collected: the items in their order.
#[verifier::external_body]
pub(crate) fn string_set_into_vec(set: IndexSet<String>) -> (items: Vec<String>)
    ensures
        items@.map_values(|s: String| s@) == string_set_items(set),
{
    set.into_iter().collect()
}

/// The insertion-ordered map of `indexmap`.
#[verifier::external_type_specification]
#[verifier::external_body]
#[verifier::reject_recursive_types(K)]
#[verifier::reject_recursive_types(V)]
#[verifier::reject_recursive_types(S)]
pub struct ExIndexMap<K, V, S>(indexmap::IndexMap<K, V, S>);

/// The tasks that a map of tasks holds, each with the process that the map
/// holds for it, in the order in which the tasks were first inserted. The
/// map takes two tasks for the same where `==` of [`Task`] does, which is
/// where their views are equal; the hash of a task is derived from the
/// fields that `==` compares.
pub uninterp spec fn task_map_entries(map: IndexMap<Task, Option<Child>>) -> Seq<
    (TaskView, Option<Child>),
>;

/// The tasks that a set of tasks holds, in the order in which they were
/// first inserted. The set takes two tasks for the same where the map of
/// tasks does.
pub uninterp spec fn task_set_items(set: IndexSet<Task>) -> Seq<TaskView>;

/// The tasks of the entries, in order.
pub open spec fn entry_keys(entries: Seq<(TaskView, Option<Child>)>) -> Seq<TaskView> {
    entries.map_values(|e: (TaskView, Option<Child>)| e.0)
}

/// The place of the first entry of the task, or the number of entries where
/// there is none.
pub open spec fn key_index(entries: Seq<(TaskView, Option<Child>)>, key: TaskView) -> int
    decreases entries.len(),
{
    if entries.len() == 0 {
        0
    } else if entries[0].0 == key {
        0
    } else {
        1 + key_index(entries.drop_first(), key)
    }
}

/// The entries after a task was inserted with a process: the entry of the
/// task has the process, in the place where the task stood, or at the end
/// where the task is new.
pub open spec fn entries_inserted(
    entries: Seq<(TaskView, Option<Child>)>,
    key: TaskView,
    value: Option<Child>,
) -> Seq<(TaskView, Option<Child>)> {
    if 0 <= key_index(entries, key) < entries.len() {
        entries.update(key_index(entries, key), (key, value))
    } else {
        entries.push((key, value))
    }
}

/// `IndexMap::new`: a map that holds nothing.
#[verifier::external_body]
pub(crate) fn task_map_new() -> (map: IndexMap<Task, Option<Child>>)
    ensures
        task_map_entries(map) == Seq::<(TaskView, Option<Child>)>::empty(),
{
    IndexMap::new()
}

/// `IndexMap::insert`: where the map holds the task already, the task stays
/// in its place and gets the new process, and the old one is returned; else
/// the task and its process become the last entry and nothing is returned.
#[verifier::external_body]
pub(crate) fn task_map_insert(
    map: &mut IndexMap<Task, Option<Child>>,
    key: Task,
    value: Option<Child>,
) -> (previous: Option<Option<Child>>)
    ensures
        task_map_entries(*final(map)) == entries_inserted(task_map_entries(*old(map)), key@, value),
        previous == if 0 <= key_index(task_map_entries(*old(map)), key@) < task_map_entries(
            *old(map),
        ).len() {
            Some(task_map_entries(*old(map))[key_index(task_map_entries(*old(map)), key@)].1)
        } else {
            None
        },
{
    map.insert(key, value)
}

/// No task stands twice.
pub open spec fn tasks_distinct(keys: Seq<TaskView>) -> bool {
    forall|i: int, j: int| 0 <= i < keys.len() && 0 <= j < keys.len() && i != j ==> keys[i] != keys[j]
}

/// `IndexMap::keys`, cloned and collected: the tasks in their order. A map
/// holds no key twice.
#[verifier::external_body]
pub(crate) fn task_map_keys(map: &IndexMap<Task, Option<Child>>) -> (keys: Vec<Task>)
    ensures
        keys@.map_values(|t: Task| t@) == entry_keys(task_map_entries(*map)),
        tasks_distinct(keys@.map_values(|t: Task| t@)),
{
    map.keys().cloned().collect()
}

/// `IndexMap::get`, copied: the process that the map holds for the task, or
/// nothing where it does not hold the task.
#[verifier::external_body]
pub(crate) fn task_map_get(map: &IndexMap<Task, Option<Child>>, key: &Task) -> (value: Option<
    Option<Child>,
>)
    ensures
        value == if 0 <= key_index(task_map_entries(*map), key@) < task_map_entries(*map).len() {
            Some(task_map_entries(*map)[key_index(task_map_entries(*map), key@)].1)
        } else {
            None
        },
{
    map.get(key).copied()
}

/// `IndexSet::new`: a set that holds nothing.
#[verifier::external_body]
pub(crate) fn task_set_new() -> (set: IndexSet<Task>)
    ensures
        task_set_items(set) == Seq::<TaskView>::empty(),
{
    IndexSet::new()
}

/// `IndexSet::insert`: a task that the set holds already leaves the set as
/// it is, and `false` is returned; any other task becomes the last item, and
/// `true` is returned.
#[verifier::external_body]
pub(crate) fn task_set_insert(set: &mut IndexSet<Task>, value: Task) -> (fresh: bool)
    ensures
        fresh == !task_set_items(*old(set)).contains(value@),
        fresh ==> task_set_items(*final(set)) == task_set_items(*old(set)).push(value@),
        !fresh ==> task_set_items(*final(set)) == task_set_items(*old(set)),
{
    set.insert(value)
}

/// `IndexSet::contains`: whether the set holds the task.
#[verifier::external_body]
pub(crate) fn task_set_contains(set: &IndexSet<Task>, value: &Task) -> (held: bool)
    ensures
        held == task_set_items(*set).contains(value@),
{
    set.contains(value)
}

/// `IndexSet::iter`, cloned and collected: the tasks in their order. A set
/// holds no item twice.
#[verifier::external_body]
pub(crate) fn task_set_to_vec(set: &IndexSet<Task>) -> (items: Vec<Task>)
    ensures
        items@.map_values(|t: Task| t@) == task_set_items(*set),
        tasks_distinct(items@.map_values(|t: Task| t@)),
{
    set.iter().cloned().collect()
}

} // verus!
