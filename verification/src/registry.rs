//! The registry of session kinds: one table per kind, created on first use.

use crate::lazy_map::{
    after_requests, find, find_or_insert, lemma_stable_between, lemma_unrequested_stays_absent,
    with_entry,
};
use std::collections::HashMap;
use std::hash::Hash;
use vstd::prelude::*;
use vstd::std_specs::hash::obeys_key_model;

verus! {

/// From the identity of a session kind to the shared handle of that kind's
/// table. A kind is added once and never removed.
///
/// `K` is the identity of a kind and `H` the handle that callers are given
/// clones of. The contracts below hold for a `K` whose `Hash` and `Eq`
/// follow the hash-map key model.
pub struct KindRegistry<K, H> {
    tables: HashMap<K, H>,
}

impl<K, H> View for KindRegistry<K, H> {
    type V = Map<K, H>;

    closed spec fn view(&self) -> Map<K, H> {
        self.tables@
    }
}

impl<K, H> KindRegistry<K, H> {
    /// A registry that knows no kind.
    pub fn new() -> (registry: Self)
        ensures
            registry@ == Map::<K, H>::empty(),
    {
        KindRegistry { tables: HashMap::new() }
    }

    /// The number of kinds that have a table.
    pub fn len(&self) -> (count: usize)
        ensures
            obeys_key_model::<K>() ==> count == self@.len(),
    {
        self.tables.len()
    }
}

impl<K, H> Default for KindRegistry<K, H> {
    fn default() -> (registry: Self)
        ensures
            registry@ == Map::<K, H>::empty(),
    {
        KindRegistry { tables: HashMap::new() }
    }
}

/// The table of `kind` if one has been created. Creates nothing: `None`
/// means that no sink exists for this kind.
pub fn get_event_sink_map<K: Eq + Hash, H: Clone>(registry: &KindRegistry<K, H>, kind: &K) -> (found:
    Option<H>)
    ensures
        obeys_key_model::<K>() ==> match found {
            Some(table) => registry@.contains_key(*kind) && cloned(registry@[*kind], table),
            None => !registry@.contains_key(*kind),
        },
{
    find(&registry.tables, kind)
}

/// The table of `kind`. Where the registry has none yet, the table that
/// `make` returns is registered under `kind` first; `make` is not called
/// otherwise, so a kind only ever has the table that was made for it.
pub fn get_or_create_event_sink_map<K: Eq + Hash, H: Clone, F: FnOnce() -> H>(
    registry: &mut KindRegistry<K, H>,
    kind: K,
    make: F,
) -> (table: H)
    requires
        make.requires(()),
    ensures
        obeys_key_model::<K>() ==> {
            &&& final(registry)@ == with_entry(old(registry)@, kind, final(registry)@[kind])
            &&& !old(registry)@.contains_key(kind) ==> make.ensures((), final(registry)@[kind])
            &&& cloned(final(registry)@[kind], table)
        },
{
    find_or_insert(&mut registry.tables, kind, make)
}

/// One table per kind. Let callers arrive in any order, each with a
/// get-or-create for a kind of its choice, and let `requests` be those calls
/// in the order in which they get hold of the registry. Then a kind that has
/// its table after `earlier` of the calls has the same table after `later`
/// of them: every caller that asks for the kind is handed that one table.
pub proof fn law_single_table_per_kind<K, H>(
    registry: Map<K, H>,
    requests: Seq<(K, H)>,
    earlier: int,
    later: int,
    kind: K,
)
    requires
        0 <= earlier <= later <= requests.len(),
        after_requests(registry, requests.take(earlier)).contains_key(kind),
    ensures
        after_requests(registry, requests.take(later)).contains_key(kind),
        after_requests(registry, requests.take(later))[kind] == after_requests(
            registry,
            requests.take(earlier),
        )[kind],
{
    lemma_stable_between(registry, requests, earlier, later, kind);
}

/// A get-or-create of a kind leaves the kind with a table, and a second one
/// changes nothing, whatever table it would have made.
pub proof fn law_get_or_create_is_idempotent<K, H>(
    registry: Map<K, H>,
    kind: K,
    first: H,
    second: H,
)
    ensures
        with_entry(registry, kind, first).contains_key(kind),
        with_entry(with_entry(registry, kind, first), kind, second) == with_entry(
            registry,
            kind,
            first,
        ),
{
}

/// Kinds do not touch each other: a get-or-create of one kind neither
/// registers, nor replaces, nor hands out the table of another.
pub proof fn law_kinds_are_isolated<K, H>(registry: Map<K, H>, kind: K, other: K, fresh: H)
    requires
        kind != other,
    ensures
        with_entry(registry, other, fresh).contains_key(kind) == registry.contains_key(kind),
        registry.contains_key(kind) ==> with_entry(registry, other, fresh)[kind] == registry[kind],
        !registry.contains_key(other) ==> with_entry(registry, other, fresh)[other] == fresh,
{
}

/// A kind that nobody asked for has no table, whatever was asked for others.
pub proof fn law_nothing_created_unasked<K, H>(registry: Map<K, H>, requests: Seq<(K, H)>, kind: K)
    requires
        !registry.contains_key(kind),
        forall|i: int| 0 <= i < requests.len() ==> (#[trigger] requests[i]).0 != kind,
    ensures
        !after_requests(registry, requests).contains_key(kind),
{
    lemma_unrequested_stays_absent(registry, requests, kind);
}

} // verus!
