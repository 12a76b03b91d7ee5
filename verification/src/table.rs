//! The persistent ordered byte table that holds every record.

use ic_stable_structures::memory_manager::{MemoryId, MemoryManager, VirtualMemory};
use ic_stable_structures::{DefaultMemoryImpl, StableBTreeMap};
use vstd::prelude::*;

verus! {

/// The virtual memory of the balance table.
pub const BALANCES_MEMORY_ID: u8 = 10;

/// The virtual memory of the allowance table.
pub const SPEND_ALLOWANCE_MEMORY_ID: u8 = 14;

/// An ordered table from key bytes to value bytes, kept by
/// `ic_stable_structures::StableBTreeMap` in a virtual memory of its own
/// inside the stable memory.
#[verifier::external_body]
pub struct Table {
    inner: StableBTreeMap<Vec<u8>, Vec<u8>, VirtualMemory<DefaultMemoryImpl>>,
}

/// What a table holds: the value bytes stored under each key's bytes.
pub uninterp spec fn table_entries(t: Table) -> Map<Seq<u8>, Seq<u8>>;

/// The contents of a table that holds nothing.
pub open spec fn no_entries() -> Map<Seq<u8>, Seq<u8>> {
    Map::empty()
}

/// The key bytes of the `i`-th of the listed entries.
pub open spec fn key_at(entries: Seq<(Vec<u8>, Vec<u8>)>, i: int) -> Seq<u8> {
    entries[i].0@
}

/// The entries list every key of `m` once, each with the value that `m` holds.
pub open spec fn lists_entries(entries: Seq<(Vec<u8>, Vec<u8>)>, m: Map<Seq<u8>, Seq<u8>>) -> bool {
    &&& forall|i: int|
        0 <= i < entries.len() ==> m.dom().contains(#[trigger] key_at(entries, i)) && m[key_at(
            entries,
            i,
        )] == entries[i].1@
    &&& forall|i: int, j: int|
        0 <= i < j < entries.len() ==> #[trigger] key_at(entries, i) != #[trigger] key_at(
            entries,
            j,
        )
    &&& forall|k: Seq<u8>|
        m.dom().contains(k) ==> exists|i: int|
            0 <= i < entries.len() && #[trigger] key_at(entries, i) == k
}

/// `MemoryManager::init` over the default memory, `MemoryManager::get` for
/// two different memory ids, and `StableBTreeMap::new` over each of the two
/// virtual memories: two tables that hold nothing and share no bytes, the
/// first for balances and the second for allowances.
#[verifier::external_body]
pub(crate) fn tables_new() -> (r: (Table, Table))
    ensures
        table_entries(r.0) == no_entries(),
        table_entries(r.1) == no_entries(),
{
    let manager = MemoryManager::init(DefaultMemoryImpl::default());
    let balances = StableBTreeMap::new(manager.get(MemoryId::new(BALANCES_MEMORY_ID)));
    let allowances = StableBTreeMap::new(manager.get(MemoryId::new(SPEND_ALLOWANCE_MEMORY_ID)));
    (Table { inner: balances }, Table { inner: allowances })
}

impl Table {
    /// The two tables of a ledger, both empty: the first for balances, the
    /// second for allowances. They are laid out side by side in the one
    /// stable memory of the process, so a process makes one pair.
    pub fn pair() -> (r: (Table, Table))
        ensures
            table_entries(r.0) == no_entries(),
            table_entries(r.1) == no_entries(),
    {
        tables_new()
    }
}

/// `StableBTreeMap::get`: the value stored under the key, if there is one.
#[verifier::external_body]
pub(crate) fn table_get(t: &Table, key: &Vec<u8>) -> (r: Option<Vec<u8>>)
    ensures
        r.is_some() == table_entries(*t).dom().contains(key@),
        r.is_some() ==> r.unwrap()@ == table_entries(*t)[key@],
{
    t.inner.get(key)
}

/// `StableBTreeMap::insert`: afterwards the key holds the value and every other
/// key holds what it held; the value that the key held before is returned.
#[verifier::external_body]
pub(crate) fn table_insert(t: &mut Table, key: Vec<u8>, value: Vec<u8>) -> (r: Option<Vec<u8>>)
    ensures
        table_entries(*final(t)) == table_entries(*old(t)).insert(key@, value@),
        r.is_some() == table_entries(*old(t)).dom().contains(key@),
        r.is_some() ==> r.unwrap()@ == table_entries(*old(t))[key@],
{
    t.inner.insert(key, value)
}

/// `StableBTreeMap::remove`: afterwards the key holds nothing and every other
/// key holds what it held; the value that the key held before is returned.
#[verifier::external_body]
pub(crate) fn table_remove(t: &mut Table, key: &Vec<u8>) -> (r: Option<Vec<u8>>)
    ensures
        table_entries(*final(t)) == table_entries(*old(t)).remove(key@),
        r.is_some() == table_entries(*old(t)).dom().contains(key@),
        r.is_some() ==> r.unwrap()@ == table_entries(*old(t))[key@],
{
    t.inner.remove(key)
}

/// `StableBTreeMap::iter`, collected: every entry of the table, each key once.
#[verifier::external_body]
pub(crate) fn table_list(t: &Table) -> (r: Vec<(Vec<u8>, Vec<u8>)>)
    ensures
        lists_entries(r@, table_entries(*t)),
{
    t.inner.iter().collect()
}

/// `StableBTreeMap::len`: the number of keys that hold a value.
#[verifier::external_body]
pub(crate) fn table_len(t: &Table) -> (r: u64)
    ensures
        r == table_entries(*t).dom().len(),
{
    t.inner.len()
}

} // verus!
