//! Keyed store of swap records with a monotonic identifier counter.
//!
//! Purely storage: the registry holds the mapping from swap identifier to
//! record and hands out sequential identifiers starting at 0, never reusing
//! one. The counter never wraps silently; exhausting it signals the
//! overflow through a typed error.

use std::collections::HashMap;

use vstd::prelude::*;

use crate::domain::Error;
use crate::swap::Swap;

verus! {

broadcast use vstd::std_specs::hash::group_hash_axioms;

/// The map persisted entries describe: each (identifier, record) pair in
/// turn, a later pair overriding an earlier one with the same identifier.
pub open spec fn records_map(entries: Seq<(u64, Swap)>) -> Map<u64, Swap>
    decreases entries.len(),
{
    if entries.len() == 0 {
        Map::empty()
    } else {
        records_map(entries.drop_last()).insert(entries.last().0, entries.last().1)
    }
}

/// Every record in the map persisted entries describe comes from one of
/// the entries.
pub proof fn lemma_records_map_membership(entries: Seq<(u64, Swap)>, k: u64)
    requires
        records_map(entries).contains_key(k),
    ensures
        exists|i: int|
            0 <= i < entries.len() && (#[trigger] entries[i]).0 == k && records_map(entries)[k]
                == entries[i].1,
    decreases entries.len(),
{
    if entries.len() == 0 {
        assert(false);
    } else if entries.last().0 == k {
        assert(entries[entries.len() - 1].0 == k && records_map(entries)[k] == entries[entries.len()
            - 1].1);
    } else {
        lemma_records_map_membership(entries.drop_last(), k);
        let i = choose|i: int|
            0 <= i < entries.drop_last().len() && (#[trigger] entries.drop_last()[i]).0 == k
                && records_map(entries.drop_last())[k] == entries.drop_last()[i].1;
        assert(entries[i].0 == k && records_map(entries)[k] == entries[i].1);
    }
}

/// Storage of all open swaps, keyed by identifier, with the counter from
/// which identifiers are allocated.
pub struct SwapRegistry {
    swaps: HashMap<u64, Swap>,
    next_id: u64,
}

impl SwapRegistry {
    /// The stored records as a map from identifier to record.
    pub closed spec fn records(&self) -> Map<u64, Swap> {
        self.swaps@
    }

    /// The identifier the next allocation will hand out.
    pub closed spec fn next(&self) -> u64 {
        self.next_id
    }

    /// An empty registry whose first identifier is 0.
    pub fn new() -> (r: SwapRegistry)
        ensures
            r.records() == Map::<u64, Swap>::empty(),
            r.next() == 0,
    {
        SwapRegistry { swaps: HashMap::new(), next_id: 0 }
    }

    /// Reads the identifier the next allocation will hand out.
    pub fn peek_next_id(&self) -> (id: u64)
        ensures
            id == self.next(),
    {
        self.next_id
    }

    /// Whether a record is stored under `id`.
    pub fn contains(&self, id: u64) -> (b: bool)
        ensures
            b == self.records().contains_key(id),
    {
        self.swaps.contains_key(&id)
    }

    /// The record stored under `id`, if any.
    pub fn get(&self, id: u64) -> (r: Option<Swap>)
        ensures
            r matches Some(s) ==> self.records().contains_key(id) && s == self.records()[id],
            r is None ==> !self.records().contains_key(id),
    {
        match self.swaps.get(&id) {
            Some(s) => Some(*s),
            None => None,
        }
    }

    /// Stores `swap` under `id`, replacing any record already there.
    pub fn insert(&mut self, id: u64, swap: Swap)
        ensures
            final(self).records() == old(self).records().insert(id, swap),
            final(self).next() == old(self).next(),
    {
        self.swaps.insert(id, swap);
    }

    /// Removes the record stored under `id`, if any.
    pub fn remove(&mut self, id: u64)
        ensures
            final(self).records() == old(self).records().remove(id),
            final(self).next() == old(self).next(),
    {
        self.swaps.remove(&id);
    }

    /// Rebuilds a registry from persisted entries and the persisted
    /// counter, as a deployment keeps them between messages. Entries are
    /// applied in order, so with a duplicated identifier the later entry
    /// wins, as for `insert`.
    pub fn restore(entries: Vec<(u64, Swap)>, next_id: u64) -> (r: SwapRegistry)
        ensures
            r.records() == records_map(entries@),
            r.next() == next_id,
    {
        let mut swaps: HashMap<u64, Swap> = HashMap::new();
        let n = entries.len();
        let mut i: usize = 0;
        while i < n
            invariant
                i <= n,
                n == entries@.len(),
                swaps@ == records_map(entries@.take(i as int)),
            decreases n - i,
        {
            let (id, swap) = entries[i];
            swaps.insert(id, swap);
            proof {
                let upto = entries@.take(i as int + 1);
                assert(upto.drop_last() =~= entries@.take(i as int));
                assert(upto.last() == entries@[i as int]);
            }
            i = i + 1;
        }
        proof {
            assert(entries@.take(n as int) =~= entries@);
        }
        SwapRegistry { swaps, next_id }
    }

    /// Hands out the next identifier and advances the counter. The counter
    /// never wraps: once every identifier has been handed out, allocation
    /// signals the overflow instead.
    pub fn allocate_next_id(&mut self) -> (r: Result<u64, Error>)
        ensures
            final(self).records() == old(self).records(),
            r matches Ok(id) ==> id == old(self).next() && final(self).next() == old(self).next()
                + 1,
            r matches Err(e) ==> e == Error::CallFailed && final(self).next() == old(self).next()
                && old(self).next() == u64::MAX,
            old(self).next() < u64::MAX ==> r is Ok,
    {
        if self.next_id == u64::MAX {
            Err(Error::CallFailed)
        } else {
            let id = self.next_id;
            self.next_id = self.next_id + 1;
            Ok(id)
        }
    }
}

} // verus!
