//! Tables keyed by a `u32` id: the handlers of a connection's functions (by
//! function id), the pending calls waiting for their response (by call id),
//! and the receivers of incoming streams (by stream id).

use std::collections::HashMap;
use vstd::prelude::*;

verus! {

broadcast use vstd::std_specs::hash::group_hash_axioms;

/// A table from ids to entries.
pub struct Registry<V> {
    entries: HashMap<u32, V>,
}

impl<V> View for Registry<V> {
    type V = Map<u32, V>;

    closed spec fn view(&self) -> Map<u32, V> {
        self.entries@
    }
}

impl<V> Registry<V> {
    /// An empty table.
    pub fn new() -> (r: Registry<V>)
        ensures
            r@ == Map::<u32, V>::empty(),
    {
        Registry { entries: HashMap::new() }
    }

    /// Registers `entry` under `id`; an entry already there is replaced and returned.
    pub fn register(&mut self, id: u32, entry: V) -> (prev: Option<V>)
        ensures
            final(self)@ == old(self)@.insert(id, entry),
            prev == (if old(self)@.contains_key(id) {
                Some(old(self)@[id])
            } else {
                None
            }),
    {
        self.entries.insert(id, entry)
    }

    /// The entry registered under `id`, if any.
    pub fn get(&self, id: u32) -> (r: Option<&V>)
        ensures
            r == (if self@.contains_key(id) {
                Some(&self@[id])
            } else {
                None
            }),
    {
        self.entries.get(&id)
    }

    /// Removes and returns the entry registered under `id`, if any.
    pub fn take(&mut self, id: u32) -> (r: Option<V>)
        ensures
            final(self)@ == old(self)@.remove(id),
            r == (if old(self)@.contains_key(id) {
                Some(old(self)@[id])
            } else {
                None
            }),
    {
        self.entries.remove(&id)
    }
}

/// An entry registered under an id is what `take` hands out for that id, and
/// only once: after it has been taken, the id has no entry left.
pub proof fn lemma_taken_once<V>(table: Map<u32, V>, id: u32, entry: V)
    ensures
        table.insert(id, entry).contains_key(id),
        table.insert(id, entry)[id] == entry,
        !table.insert(id, entry).remove(id).contains_key(id),
{
}

} // verus!
