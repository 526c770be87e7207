//! The store as the sweep sees it: a set of key names that can be listed
//! and from which single keys can be deleted. This is the model against
//! which whole runs are stated; the store itself is out on the network.

use vstd::prelude::*;
use crate::machine::EventView;

verus! {

/// Whether `keys` lists what the store holds: every key name in it, each
/// of them once, in whatever order.
pub open spec fn lists(store: Set<Seq<char>>, keys: Seq<Seq<char>>) -> bool {
    keys.no_duplicates() && keys.to_set() == store
}

/// What the store holds once it has answered the deletion of one key: the
/// key is gone where the store answered the request, and an absent key
/// makes no difference; where the request failed, nothing has changed.
pub open spec fn after_deletion(
    store: Set<Seq<char>>,
    key: Seq<char>,
    result: EventView,
) -> Set<Seq<char>> {
    if result is Deleted {
        store.remove(key)
    } else {
        store
    }
}

/// What the store holds once it has answered the deletions of `keys`, one
/// after the other, with `results`, while nobody else writes to it.
pub open spec fn after_sweep(
    store: Set<Seq<char>>,
    keys: Seq<Seq<char>>,
    results: Seq<EventView>,
) -> Set<Seq<char>>
    decreases keys.len(),
{
    if keys.len() == 0 || results.len() == 0 {
        store
    } else {
        after_sweep(
            after_deletion(store, keys[0], results[0]),
            keys.drop_first(),
            results.drop_first(),
        )
    }
}

/// Whether the store answered every deletion of a series.
pub open spec fn all_deleted(results: Seq<EventView>) -> bool {
    forall|i: int| 0 <= i < results.len() ==> (#[trigger] results[i]) is Deleted
}

} // verus!
