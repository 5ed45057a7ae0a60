//! The concurrent map behind the container, and what is assumed of it.

use crate::di::entry::{ServiceEntry, TraitBinding};
use dashmap::DashMap;
use std::any::TypeId;
use vstd::prelude::*;

verus! {

/// `dashmap::DashMap`, as a value whose contents proofs see only through
/// `records`.
#[verifier::external_type_specification]
#[verifier::external_body]
#[verifier::reject_recursive_types(K)]
#[verifier::reject_recursive_types(V)]
#[verifier::reject_recursive_types(S)]
pub struct ExDashMap<K, V, S>(DashMap<K, V, S>);

/// What a table stores under an identity: a registered instance, or the
/// binding of a capability. One table holds records of one kind.
pub enum Record {
    /// A registered instance.
    Service(ServiceEntry),
    /// The binding of a capability.
    Binding(TraitBinding),
}

impl Clone for Record {
    fn clone(&self) -> (copy: Record)
        ensures
            copy == *self,
    {
        match self {
            Record::Service(entry) => Record::Service(entry.clone()),
            Record::Binding(binding) => Record::Binding(binding.clone()),
        }
    }
}

/// What a table holds: each identity with its record.
pub uninterp spec fn records(table: DashMap<TypeId, Record>) -> Map<TypeId, Record>;

/// What a lookup of `id` in the given records yields.
pub open spec fn lookup(held: Map<TypeId, Record>, id: TypeId) -> Option<Record> {
    if held.contains_key(id) {
        Some(held[id])
    } else {
        None
    }
}

/// Calls `DashMap::new`: the table starts without records.
#[verifier::external_body]
pub(crate) fn table_new() -> (table: DashMap<TypeId, Record>)
    ensures
        records(table) == (Map::<TypeId, Record>::empty()),
{
    DashMap::new()
}

/// Calls `DashMap::insert`: the record stands under `id` afterwards, in
/// place of any earlier one, which is handed back, and every other record
/// stays. The call does not unwind.
#[verifier::external_body]
pub(crate) fn table_insert(table: &mut DashMap<TypeId, Record>, id: TypeId, record: Record) -> (displaced:
    Option<Record>)
    ensures
        records(*final(table)) == records(*old(table)).insert(id, record),
        displaced == lookup(records(*old(table)), id),
    no_unwind
{
    table.insert(id, record)
}

/// Calls `DashMap::get` and clones the record out of the guard: the record
/// under `id`, or `None` where there is none.
#[verifier::external_body]
pub(crate) fn table_get(table: &DashMap<TypeId, Record>, id: &TypeId) -> (found: Option<Record>)
    ensures
        found == lookup(records(*table), *id),
{
    table.get(id).map(|found| found.value().clone())
}

/// Calls `DashMap::contains_key`: whether a record stands under `id`.
#[verifier::external_body]
pub(crate) fn table_contains(table: &DashMap<TypeId, Record>, id: &TypeId) -> (present: bool)
    ensures
        present == records(*table).contains_key(*id),
{
    table.contains_key(id)
}

/// Calls `DashMap::len`: the number of records.
#[verifier::external_body]
pub(crate) fn table_len(table: &DashMap<TypeId, Record>) -> (count: usize)
    ensures
        count == records(*table).len(),
{
    table.len()
}

/// Calls `DashMap::is_empty`: whether the table has no record.
#[verifier::external_body]
pub(crate) fn table_is_empty(table: &DashMap<TypeId, Record>) -> (empty: bool)
    ensures
        empty == (records(*table) == (Map::<TypeId, Record>::empty())),
{
    table.is_empty()
}

/// Calls `DashMap::iter` and copies the identity out of each pair: every
/// identity of the table comes out, each once. Nothing is claimed of the
/// order, which is that of the walk.
#[verifier::external_body]
pub(crate) fn table_ids(table: &DashMap<TypeId, Record>) -> (ids: Vec<TypeId>)
    ensures
        ids@.no_duplicates(),
        ids@.to_set() == records(*table).dom(),
{
    table.iter().map(|pair| *pair.key()).collect()
}

} // verus!
