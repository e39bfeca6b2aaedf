//! The diagnostics registry: which addresses are in use, and for what.

use fxhash::FxHashMap;
use fxhash::FxHasher;
use std::hash::BuildHasherDefault;
use vstd::prelude::*;

verus! {

/// `fxhash::FxHasher`, the hasher of the registry's table. It starts from a
/// fixed state and each write depends on the state and the written word
/// alone, so equal keys hash alike wherever and whenever they are hashed.
#[verifier::external_type_specification]
#[verifier::external_body]
pub struct ExFxHasher(FxHasher);

/// `std::hash::BuildHasherDefault`, which makes the table's hashers.
#[verifier::external_type_specification]
#[verifier::external_body]
#[verifier::reject_recursive_types(H)]
pub struct ExBuildHasherDefault<H>(BuildHasherDefault<H>);

/// A table from the address of each object in use to the label of its type.
pub struct Registry {
    table: FxHashMap<usize, &'static str>,
}

impl View for Registry {
    type V = Map<usize, &'static str>;

    closed spec fn view(&self) -> Map<usize, &'static str> {
        self.table@
    }
}

impl Registry {
    /// A registry holds finitely many entries.
    pub open spec fn wf(&self) -> bool {
        self@.dom().finite()
    }

    /// The registry without entries.
    pub fn new() -> (registry: Registry)
        ensures
            registry.wf(),
            registry@ == Map::<usize, &'static str>::empty(),
    {
        Registry { table: FxHashMap::default() }
    }

    /// Enters `addr` under `label` and returns the label it had before, if any.
    pub fn insert(&mut self, addr: usize, label: &'static str) -> (previous: Option<&'static str>)
        requires
            old(self).wf(),
        ensures
            final(self).wf(),
            final(self)@ == old(self)@.insert(addr, label),
            previous == old(self)@.get(addr),
    {
        table_insert(&mut self.table, addr, label)
    }

    /// Strikes `addr` and returns the label it had, if it was entered.
    pub fn remove(&mut self, addr: usize) -> (label: Option<&'static str>)
        requires
            old(self).wf(),
        ensures
            final(self).wf(),
            final(self)@ == old(self)@.remove(addr),
            label == old(self)@.get(addr),
    {
        table_remove(&mut self.table, addr)
    }

    /// Whether `addr` is entered.
    pub fn contains(&self, addr: usize) -> (found: bool)
        ensures
            found == self@.contains_key(addr),
    {
        table_contains(&self.table, addr)
    }

    /// Empties the registry and returns what it held: every entry once, in no
    /// particular order.
    pub fn drain(&mut self) -> (entries: Vec<(usize, &'static str)>)
        requires
            old(self).wf(),
        ensures
            final(self).wf(),
            final(self)@ == Map::<usize, &'static str>::empty(),
            entries@.no_duplicates(),
            entries@.to_set() == old(self)@.kv_pairs(),
            entries@.len() == old(self)@.len(),
    {
        let entries = table_drain(&mut self.table);
        proof {
            assert(self@ =~= Map::<usize, &'static str>::empty());
            lemma_count_of_pairs(old(self)@);
            entries@.unique_seq_to_set();
        }
        entries
    }
}

/// A finite map has as many entries as keys.
pub proof fn lemma_count_of_pairs<K, V>(m: Map<K, V>)
    requires
        m.dom().finite(),
    ensures
        m.kv_pairs().finite(),
        m.kv_pairs().len() == m.len(),
    decreases m.len(),
{
    if m.dom().is_empty() {
        assert(m.kv_pairs() =~= Set::<(K, V)>::empty());
    } else {
        let k = m.dom().choose();
        let rest = m.remove(k);
        lemma_count_of_pairs(rest);
        assert(m.kv_pairs() =~= rest.kv_pairs().insert((k, m[k])));
    }
}

/// Calls `HashMap::insert` on a table that hashes with `fxhash::FxHasher`.
/// The claim is what std documents: afterwards the key maps to the new value,
/// every other key is as before, and the value that the key had comes back.
#[verifier::external_body]
fn table_insert(
    table: &mut FxHashMap<usize, &'static str>,
    addr: usize,
    label: &'static str,
) -> (previous: Option<&'static str>)
    ensures
        final(table)@ == old(table)@.insert(addr, label),
        previous == old(table)@.get(addr),
{
    table.insert(addr, label)
}

/// Calls `HashMap::remove` on a table that hashes with `fxhash::FxHasher`.
/// The claim is what std documents: afterwards the key is gone, every other
/// key is as before, and the value that the key had comes back.
#[verifier::external_body]
fn table_remove(table: &mut FxHashMap<usize, &'static str>, addr: usize) -> (label: Option<
    &'static str,
>)
    ensures
        final(table)@ == old(table)@.remove(addr),
        label == old(table)@.get(addr),
{
    table.remove(&addr)
}

/// Calls `HashMap::contains_key` on a table that hashes with
/// `fxhash::FxHasher`. The claim is what std documents: the answer is whether
/// the table holds the key.
#[verifier::external_body]
fn table_contains(table: &FxHashMap<usize, &'static str>, addr: usize) -> (found: bool)
    ensures
        found == table@.contains_key(addr),
{
    table.contains_key(&addr)
}

/// Calls `HashMap::drain` and collects what it yields. The claim is what std
/// documents: the table is left empty, and every pair it held is yielded, each
/// once. The order is left open.
#[verifier::external_body]
fn table_drain(table: &mut FxHashMap<usize, &'static str>) -> (entries: Vec<(usize, &'static str)>)
    ensures
        final(table)@.is_empty(),
        entries@.no_duplicates(),
        entries@.to_set() == old(table)@.kv_pairs(),
{
    table.drain().collect()
}

} // verus!
