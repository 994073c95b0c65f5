//! The ordered map that keeps the board's columns, and what is taken on trust
//! of it.
//!
//! The map is an `indexmap::IndexMap` from a status to the tasks of its
//! column. Nothing in this module is proved: each function states what the
//! map's documentation says of one of its operations, in terms of the
//! entries that the map holds.

use crate::status::KanbanStatus;
use crate::task::Task;
use indexmap::IndexMap;
use vstd::prelude::*;

verus! {

/// `indexmap::IndexMap`. Nothing of its inside is known here.
#[verifier::external_type_specification]
#[verifier::external_body]
#[verifier::reject_recursive_types(K)]
#[verifier::reject_recursive_types(V)]
#[verifier::reject_recursive_types(S)]
pub struct ExIndexMap<K, V, S>(IndexMap<K, V, S>);

/// The key-value pairs that the map holds, in the map's own order. That
/// order is the order in which the keys were first inserted; it does not
/// depend on how the keys hash. Keys are equal as `KanbanStatus`'s derived
/// `Eq` has it, that is, when they are the same status.
pub uninterp spec fn entries(map: IndexMap<KanbanStatus, Vec<Task>>) -> Seq<(KanbanStatus, Seq<Task>)>;

/// Whether place `i` of the map's order holds the key `status` with the
/// value `tasks`.
pub open spec fn holds_at(
    map: IndexMap<KanbanStatus, Vec<Task>>,
    i: int,
    status: KanbanStatus,
    tasks: Seq<Task>,
) -> bool {
    0 <= i < entries(map).len() && entries(map)[i] == (status, tasks)
}

/// Whether the map has an entry under the key `status`.
pub open spec fn has_key(map: IndexMap<KanbanStatus, Vec<Task>>, status: KanbanStatus) -> bool {
    exists|i: int| 0 <= i < entries(map).len() && (#[trigger] entries(map)[i]).0 == status
}

/// `IndexMap::new`: a map without entries.
#[verifier::external_body]
pub(crate) fn new_map() -> (map: IndexMap<KanbanStatus, Vec<Task>>)
    ensures
        entries(map) == Seq::<(KanbanStatus, Seq<Task>)>::empty(),
{
    IndexMap::new()
}

/// `IndexMap::insert`. Under a key that the map does not hold yet, the pair
/// goes to the end of the order and `None` is returned. Under a key that it
/// holds, the key stays in its place, the value is replaced, and the old
/// value is returned.
#[verifier::external_body]
pub(crate) fn insert(
    map: &mut IndexMap<KanbanStatus, Vec<Task>>,
    status: KanbanStatus,
    tasks: Vec<Task>,
) -> (previous: Option<Vec<Task>>)
    ensures
        !has_key(*old(map), status) ==> previous is None && entries(*final(map)) == entries(
            *old(map),
        ).push((status, tasks@)),
        has_key(*old(map), status) ==> previous is Some && exists|i: int|
            #[trigger] holds_at(*old(map), i, status, previous->0@) && entries(*final(map))
                == entries(*old(map)).update(i, (status, tasks@)),
{
    map.insert(status, tasks)
}

/// `IndexMap`'s `Index::index` by key, which panics on a key that the map
/// does not hold: a reference to the value stored under the key.
#[verifier::external_body]
pub(crate) fn index(map: &IndexMap<KanbanStatus, Vec<Task>>, status: KanbanStatus) -> (tasks: &Vec<Task>)
    requires
        has_key(*map, status),
    ensures
        exists|i: int| #[trigger] holds_at(*map, i, status, tasks@),
{
    &map[&status]
}

/// `IndexMap`'s `IndexMut::index_mut` by key, which panics on a key that the
/// map does not hold: a mutable reference to the value stored under the key.
/// What is written through the reference takes the value's place; the key
/// keeps its place, and no other entry changes.
#[verifier::external_body]
pub(crate) fn index_mut(map: &mut IndexMap<KanbanStatus, Vec<Task>>, status: KanbanStatus) -> (tasks: &mut Vec<Task>)
    requires
        has_key(*old(map), status),
    ensures
        exists|i: int|
            #[trigger] holds_at(*old(map), i, status, tasks@) && entries(*final(map)) == entries(
                *old(map),
            ).update(i, (status, final(tasks)@)),
{
    &mut map[&status]
}

} // verus!
