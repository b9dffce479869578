//! Get-or-create on a hash map: the step that the kind registry and the
//! per-kind tables share.

use std::collections::HashMap;
use std::hash::Hash;
use vstd::prelude::*;
use vstd::std_specs::hash::obeys_key_model;

verus! {

/// The map after a get-or-create of `key`: unchanged where `key` is present,
/// else with `fresh` under `key`.
pub open spec fn with_entry<K, V>(map: Map<K, V>, key: K, fresh: V) -> Map<K, V> {
    if map.contains_key(key) {
        map
    } else {
        map.insert(key, fresh)
    }
}

/// The map after the get-or-create requests `requests`, first to last. A
/// request is a key and the value to store if the key is vacant.
pub open spec fn after_requests<K, V>(map: Map<K, V>, requests: Seq<(K, V)>) -> Map<K, V>
    decreases requests.len(),
{
    if requests.len() == 0 {
        map
    } else {
        let last = requests.last();
        with_entry(after_requests(map, requests.drop_last()), last.0, last.1)
    }
}

/// Requests may be applied in two batches: the second batch starts from what
/// the first one left.
pub proof fn lemma_requests_compose<K, V>(map: Map<K, V>, first: Seq<(K, V)>, second: Seq<(K, V)>)
    ensures
        after_requests(map, first + second) == after_requests(
            after_requests(map, first),
            second,
        ),
    decreases second.len(),
{
    if second.len() == 0 {
        assert(first + second == first);
    } else {
        lemma_requests_compose(map, first, second.drop_last());
        assert((first + second).drop_last() == first + second.drop_last());
    }
}

/// What is stored under a key outlives every later request, whatever keys
/// and values the later requests carry.
pub proof fn lemma_present_stays<K, V>(map: Map<K, V>, requests: Seq<(K, V)>, key: K)
    requires
        map.contains_key(key),
    ensures
        after_requests(map, requests).contains_key(key),
        after_requests(map, requests)[key] == map[key],
    decreases requests.len(),
{
    if requests.len() > 0 {
        lemma_present_stays(map, requests.drop_last(), key);
    }
}

/// What is stored under a key after the first `earlier` requests is still
/// stored under it after the first `later` ones.
pub proof fn lemma_stable_between<K, V>(
    map: Map<K, V>,
    requests: Seq<(K, V)>,
    earlier: int,
    later: int,
    key: K,
)
    requires
        0 <= earlier <= later <= requests.len(),
        after_requests(map, requests.take(earlier)).contains_key(key),
    ensures
        after_requests(map, requests.take(later)).contains_key(key),
        after_requests(map, requests.take(later))[key] == after_requests(
            map,
            requests.take(earlier),
        )[key],
{
    let head = requests.take(earlier);
    let tail = requests.subrange(earlier, later);
    assert(requests.take(later) == head + tail);
    lemma_requests_compose(map, head, tail);
    lemma_present_stays(after_requests(map, head), tail, key);
}

/// A key that no request names is as absent after the requests as before.
pub proof fn lemma_unrequested_stays_absent<K, V>(map: Map<K, V>, requests: Seq<(K, V)>, key: K)
    requires
        !map.contains_key(key),
        forall|i: int| 0 <= i < requests.len() ==> (#[trigger] requests[i]).0 != key,
    ensures
        !after_requests(map, requests).contains_key(key),
    decreases requests.len(),
{
    if requests.len() > 0 {
        lemma_unrequested_stays_absent(map, requests.drop_last(), key);
    }
}

/// A clone of what `map` holds under `key`, if anything.
pub(crate) fn find<K: Eq + Hash, V: Clone>(map: &HashMap<K, V>, key: &K) -> (found: Option<V>)
    ensures
        obeys_key_model::<K>() ==> match found {
            Some(value) => map@.contains_key(*key) && cloned(map@[*key], value),
            None => !map@.contains_key(*key),
        },
{
    match map.get(key) {
        Some(value) => Some(value.clone()),
        None => None,
    }
}

/// A clone of what `map` holds under `key`, after storing what `make`
/// returns if `key` was vacant. `make` is not called for a present key.
pub(crate) fn find_or_insert<K: Eq + Hash, V: Clone, F: FnOnce() -> V>(
    map: &mut HashMap<K, V>,
    key: K,
    make: F,
) -> (value: V)
    requires
        make.requires(()),
    ensures
        obeys_key_model::<K>() ==> {
            &&& final(map)@ == with_entry(old(map)@, key, final(map)@[key])
            &&& !old(map)@.contains_key(key) ==> make.ensures((), final(map)@[key])
            &&& cloned(final(map)@[key], value)
        },
{
    match map.get(&key) {
        Some(present) => {
            return present.clone();
        },
        None => {},
    }
    let fresh = make();
    let handle = fresh.clone();
    map.insert(key, fresh);
    handle
}

} // verus!
