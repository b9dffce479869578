//! The table of one session kind: from session key to the slot of that key.

use crate::lazy_map::{after_requests, find, find_or_insert, lemma_present_stays, with_entry};
use std::collections::HashMap;
use std::hash::Hash;
use vstd::prelude::*;
use vstd::std_specs::hash::obeys_key_model;

verus! {

/// The slots of one session kind, one per session key. A slot is created by
/// whoever asks for its key first, producer or reader, and is never removed.
///
/// `K` is the kind's key type and `E` the handle to a slot that readers are
/// given. The contracts below hold for a `K` whose `Hash` and `Eq` follow
/// the hash-map key model.
pub struct EventSinkTable<K, E> {
    slots: HashMap<K, E>,
}

impl<K, E> View for EventSinkTable<K, E> {
    type V = Map<K, E>;

    closed spec fn view(&self) -> Map<K, E> {
        self.slots@
    }
}

impl<K, E> EventSinkTable<K, E> {
    /// A table without slots.
    pub fn new() -> (table: Self)
        ensures
            table@ == Map::<K, E>::empty(),
    {
        EventSinkTable { slots: HashMap::new() }
    }

    /// The number of slots.
    pub fn len(&self) -> (count: usize)
        ensures
            obeys_key_model::<K>() ==> count == self@.len(),
    {
        self.slots.len()
    }
}

impl<K, E> Default for EventSinkTable<K, E> {
    fn default() -> (table: Self)
        ensures
            table@ == Map::<K, E>::empty(),
    {
        EventSinkTable { slots: HashMap::new() }
    }
}

impl<K: Eq + Hash, E: Clone> EventSinkTable<K, E> {
    /// The slot of `key` if the table has one. Creates nothing.
    pub fn lookup(&self, key: &K) -> (found: Option<E>)
        ensures
            obeys_key_model::<K>() ==> match found {
                Some(slot) => self@.contains_key(*key) && cloned(self@[*key], slot),
                None => !self@.contains_key(*key),
            },
    {
        find(&self.slots, key)
    }

    /// The slot of `key`. Where the table has none yet, the slot that `make`
    /// returns is stored under `key` first; `make` is not called otherwise.
    pub fn entry<F: FnOnce() -> E>(&mut self, key: K, make: F) -> (slot: E)
        requires
            make.requires(()),
        ensures
            obeys_key_model::<K>() ==> {
                &&& final(self)@ == with_entry(old(self)@, key, final(self)@[key])
                &&& !old(self)@.contains_key(key) ==> make.ensures((), final(self)@[key])
                &&& cloned(final(self)@[key], slot)
            },
    {
        find_or_insert(&mut self.slots, key, make)
    }
}

/// Asking for a key again changes nothing: the table after the second
/// `entry` is the table after the first, so both calls hand out the same
/// slot, whatever the second call's `make` would have returned.
pub proof fn law_entry_is_idempotent<K, E>(table: Map<K, E>, key: K, first: E, second: E)
    ensures
        with_entry(table, key, first).contains_key(key),
        with_entry(with_entry(table, key, first), key, second) == with_entry(table, key, first),
{
}

/// Once a key has its slot, no later `entry`, for this key or another,
/// replaces or removes it.
pub proof fn law_slot_is_stable<K, E>(table: Map<K, E>, key: K, fresh: E, later: Seq<(K, E)>)
    ensures
        after_requests(with_entry(table, key, fresh), later).contains_key(key),
        after_requests(with_entry(table, key, fresh), later)[key] == with_entry(
            table,
            key,
            fresh,
        )[key],
{
    lemma_present_stays(with_entry(table, key, fresh), later, key);
}

} // verus!
