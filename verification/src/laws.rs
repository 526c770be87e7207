//! What holds of every run of the sweep, proved from the transition
//! functions of the state machine.

use vstd::prelude::*;
use crate::address::AddressView;
use crate::machine::{
    CommandView, EventView, Phase, SweepView, EXIT_COMPLETED, EXIT_FAILED, absorb, answers,
    enumerated, initial, outcome, pending, valid,
};
use crate::report::OutcomeView;
use crate::store::{after_deletion, after_sweep, all_deleted, lists};

verus! {

/// The state a run is in after a series of events.
pub open spec fn replay(s: SweepView, events: Seq<EventView>) -> SweepView
    decreases events.len(),
{
    if events.len() == 0 {
        s
    } else {
        replay(absorb(s, events[0]), events.drop_first())
    }
}

/// The requests of a run, in order: the one that is due at the start, then
/// the one that is due after each event.
pub open spec fn issued(s: SweepView, events: Seq<EventView>) -> Seq<CommandView>
    decreases events.len(),
{
    if events.len() == 0 {
        seq![pending(s)]
    } else {
        seq![pending(s)] + issued(absorb(s, events[0]), events.drop_first())
    }
}

/// The keys whose deletion a series of requests asks for, in order, one
/// entry for each deletion request.
pub open spec fn deleted_keys(requests: Seq<CommandView>) -> Seq<Seq<char>>
    decreases requests.len(),
{
    if requests.len() == 0 {
        Seq::empty()
    } else {
        match requests[0] {
            CommandView::Delete(key) => seq![key] + deleted_keys(requests.drop_first()),
            _ => deleted_keys(requests.drop_first()),
        }
    }
}

/// The outcomes a run hands back, in order: one for each event that
/// answers a deletion that was due.
pub open spec fn reported(s: SweepView, events: Seq<EventView>) -> Seq<OutcomeView>
    decreases events.len(),
{
    if events.len() == 0 {
        Seq::empty()
    } else {
        let later = reported(absorb(s, events[0]), events.drop_first());
        match outcome(s, events[0]) {
            Some(first) => seq![first] + later,
            None => later,
        }
    }
}

/// What the answer to a deletion says of its key.
pub open spec fn outcome_for(key: Seq<char>, result: EventView) -> OutcomeView {
    match result {
        EventView::DeletionFailed(reason) => OutcomeView::Failed(key, reason),
        _ => OutcomeView::Deleted(key),
    }
}

/// The outcomes of a sweep over `keys` that the store answers with
/// `results`: the one of each key, in the order of the keys.
pub open spec fn outcomes_of(keys: Seq<Seq<char>>, results: Seq<EventView>) -> Seq<OutcomeView> {
    Seq::new(keys.len(), |i: int| outcome_for(keys[i], results[i]))
}

/// The events of a run that connects, gets `keys` listed, and has its
/// deletions answered with `results`.
pub open spec fn complete_run(keys: Seq<Seq<char>>, results: Seq<EventView>) -> Seq<EventView> {
    seq![EventView::Connected, EventView::KeysListed(keys)] + results
}

/// Whether a series of requests asks for the key names.
pub open spec fn asks_for_keys(requests: Seq<CommandView>) -> bool {
    exists|i: int| 0 <= i < requests.len() && requests[i] is ListAllKeys
}

/// Whether every event of a series is the answer to a deletion, good or
/// bad.
pub open spec fn deletion_answers(results: Seq<EventView>) -> bool {
    forall|i: int|
        0 <= i < results.len() ==> (#[trigger] results[i]) is Deleted || results[i]
            is DeletionFailed
}

/// The deletion requests for a list of keys, one for each, in order.
pub open spec fn deletions_of(keys: Seq<Seq<char>>) -> Seq<CommandView> {
    keys.map_values(|key: Seq<char>| CommandView::Delete(key))
}

/// How far along a phase is.
pub open spec fn rank(phase: Phase) -> nat {
    match phase {
        Phase::Disconnected => 0,
        Phase::Connected => 1,
        Phase::Enumerated => 2,
        Phase::Sweeping => 3,
        Phase::Done => 4,
        Phase::Aborted => 5,
    }
}

/// No event takes a sweep out of the states it can be in.
pub proof fn law_states_stay_valid(s: SweepView, event: EventView)
    requires
        valid(s),
    ensures
        valid(absorb(s, event)),
{
}

/// A run only moves forward: no event brings it back to a phase it has
/// left. It is aborted from `Disconnected` or `Connected` alone; once the
/// key names are fixed, an event moves it to `Sweeping` or `Done` or
/// leaves it where it is, whatever the event says of a deletion.
pub proof fn law_forward_only(s: SweepView, event: EventView)
    requires
        valid(s),
    ensures
        rank(absorb(s, event).phase) >= rank(s.phase),
        absorb(s, event).phase == Phase::Aborted && s.phase != Phase::Aborted ==> s.phase
            == Phase::Disconnected || s.phase == Phase::Connected,
        s.phase == Phase::Done || s.phase == Phase::Aborted ==> absorb(s, event) == s,
        s.phase == Phase::Enumerated || s.phase == Phase::Sweeping ==> absorb(s, event).phase
            != Phase::Aborted,
{
}

/// Only the result of the request that is due counts. Any other event
/// leaves the run as it was and is no outcome for any key; the result of
/// the request that is due moves the run on, to a later phase or to the
/// next key.
pub proof fn law_only_answers_count(s: SweepView, event: EventView)
    requires
        valid(s),
    ensures
        !answers(pending(s), event) ==> absorb(s, event) == s && outcome(s, event) is None,
        answers(pending(s), event) ==> rank(absorb(s, event).phase) > rank(s.phase) || absorb(
            s,
            event,
        ).attempted == s.attempted + 1,
        outcome(s, event) is Some ==> pending(s) is Delete && answers(pending(s), event),
{
}

/// The snapshot of key names is fixed before the first deletion and never
/// taken again: once a run holds it, no event changes it, and the request
/// for the key names is never due again.
pub proof fn law_snapshot_is_fixed(s: SweepView, event: EventView)
    requires
        valid(s),
        s.phase == Phase::Enumerated || s.phase == Phase::Sweeping || s.phase == Phase::Done,
    ensures
        absorb(s, event).keys == s.keys,
        !(pending(absorb(s, event)) is ListAllKeys),
        !(pending(s) is ListAllKeys),
{
}

/// Once the connection is live, the next request is the one for every key
/// name, and the names that come back are the snapshot the run keeps, as
/// they came.
pub proof fn law_enumeration_follows_connection(s: SweepView, keys: Seq<Seq<char>>)
    requires
        valid(s),
        s.phase == Phase::Disconnected,
    ensures
        pending(absorb(s, EventView::Connected)) == CommandView::ListAllKeys,
        absorb(absorb(s, EventView::Connected), EventView::KeysListed(keys)).keys == keys,
        absorb(absorb(s, EventView::Connected), EventView::KeysListed(keys)).attempted == 0,
{
}

proof fn lemma_deleted_keys_of_one(first: CommandView, rest: Seq<CommandView>)
    ensures
        deleted_keys(seq![first] + rest) == match first {
            CommandView::Delete(key) => seq![key] + deleted_keys(rest),
            _ => deleted_keys(rest),
        },
{
    assert((seq![first] + rest).drop_first() =~= rest);
}

proof fn lemma_rest_of_sweep(s: SweepView, results: Seq<EventView>)
    requires
        valid(s),
        s.phase == Phase::Enumerated || s.phase == Phase::Sweeping || s.phase == Phase::Done,
        deletion_answers(results),
        results.len() == s.keys.len() - s.attempted,
    ensures
        issued(s, results) == deletions_of(s.keys.subrange(s.attempted as int, s.keys.len() as int))
            + seq![CommandView::Exit(EXIT_COMPLETED as int)],
        deleted_keys(issued(s, results)) == s.keys.subrange(
            s.attempted as int,
            s.keys.len() as int,
        ),
        replay(s, results).phase == Phase::Done,
        replay(s, results).keys == s.keys,
        reported(s, results) == Seq::new(
            results.len(),
            |i: int| outcome_for(s.keys[s.attempted + i], results[i]),
        ),
    decreases results.len(),
{
    let left = s.keys.subrange(s.attempted as int, s.keys.len() as int);
    let told = Seq::new(results.len(), |i: int| outcome_for(s.keys[s.attempted + i], results[i]));
    let exit = seq![CommandView::Exit(EXIT_COMPLETED as int)];
    if results.len() == 0 {
        assert(left =~= Seq::<Seq<char>>::empty());
        assert(deletions_of(left) + exit =~= exit);
        assert(issued(s, results) =~= exit);
        lemma_deleted_keys_of_one(exit[0], Seq::empty());
        assert(exit =~= seq![exit[0]] + Seq::<CommandView>::empty());
        assert(deleted_keys(Seq::<CommandView>::empty()) =~= Seq::<Seq<char>>::empty());
        assert(reported(s, results) =~= told);
    } else {
        let key = s.keys[s.attempted as int];
        let next = absorb(s, results[0]);
        let later = results.drop_first();
        assert(results[0] is Deleted || results[0] is DeletionFailed);
        assert forall|i: int| 0 <= i < later.len() implies (#[trigger] later[i]) is Deleted
            || later[i] is DeletionFailed by {
            assert(later[i] == results[i + 1]);
        }
        lemma_rest_of_sweep(next, later);
        let after = next.keys.subrange(next.attempted as int, next.keys.len() as int);
        assert(left =~= seq![key] + after);
        assert(deletions_of(left) =~= seq![CommandView::Delete(key)] + deletions_of(after));
        assert(issued(s, results) =~= deletions_of(left) + exit);
        lemma_deleted_keys_of_one(CommandView::Delete(key), issued(next, later));
        let told_later = Seq::new(
            later.len(),
            |i: int| outcome_for(next.keys[next.attempted + i], later[i]),
        );
        assert(outcome(s, results[0]) == Some(outcome_for(key, results[0])));
        assert(told =~= seq![outcome_for(key, results[0])] + told_later);
    }
}

/// The sweep asks for the deletion of every key of the snapshot exactly
/// once, in the snapshot's order, and then ends the run with the status of
/// a completed run. This holds whatever the store answers to each
/// deletion: a failure for one key costs no other key its request, and the
/// number of deletion requests is the number of keys that were listed.
pub proof fn law_one_deletion_for_each_key(
    s: SweepView,
    keys: Seq<Seq<char>>,
    results: Seq<EventView>,
)
    requires
        valid(s),
        s.phase == Phase::Connected,
        deletion_answers(results),
        results.len() == keys.len(),
    ensures
        issued(s, seq![EventView::KeysListed(keys)] + results) == seq![CommandView::ListAllKeys]
            + deletions_of(keys) + seq![CommandView::Exit(EXIT_COMPLETED as int)],
        deleted_keys(issued(s, seq![EventView::KeysListed(keys)] + results)) == keys,
        deleted_keys(issued(s, seq![EventView::KeysListed(keys)] + results)).len() == keys.len(),
        replay(s, seq![EventView::KeysListed(keys)] + results).phase == Phase::Done,
        reported(s, seq![EventView::KeysListed(keys)] + results) == outcomes_of(keys, results),
{
    let events = seq![EventView::KeysListed(keys)] + results;
    let held = enumerated(s, keys);
    assert(events.drop_first() =~= results);
    assert(absorb(s, events[0]) == held);
    lemma_rest_of_sweep(held, results);
    assert(reported(held, results) =~= outcomes_of(keys, results));
    assert(keys.subrange(0, keys.len() as int) =~= keys);
    lemma_deleted_keys_of_one(CommandView::ListAllKeys, issued(held, results));
    assert(issued(s, events) =~= seq![CommandView::ListAllKeys] + deletions_of(keys)
        + seq![CommandView::Exit(EXIT_COMPLETED as int)]);
}

/// A whole run against a store that can be reached and listed: the
/// requests are the one to connect, the one for the key names, one
/// deletion for each key listed, in order, and the one to end the process
/// with the status of a completed run; and the outcome of every key is
/// handed back, whatever the store answered to the deletions.
pub proof fn law_complete_run(
    address: AddressView,
    keys: Seq<Seq<char>>,
    results: Seq<EventView>,
)
    requires
        deletion_answers(results),
        results.len() == keys.len(),
    ensures
        issued(initial(address), complete_run(keys, results)) == seq![
            CommandView::Connect,
            CommandView::ListAllKeys,
        ] + deletions_of(keys) + seq![CommandView::Exit(EXIT_COMPLETED as int)],
        deleted_keys(issued(initial(address), complete_run(keys, results))) == keys,
        reported(initial(address), complete_run(keys, results)) == outcomes_of(keys, results),
        replay(initial(address), complete_run(keys, results)).phase == Phase::Done,
{
    let start = initial(address);
    let live = absorb(start, EventView::Connected);
    let events = complete_run(keys, results);
    let later = seq![EventView::KeysListed(keys)] + results;
    assert(events.drop_first() =~= later);
    law_one_deletion_for_each_key(live, keys, results);
    lemma_deleted_keys_of_one(CommandView::Connect, issued(live, later));
    assert(issued(start, events) =~= seq![CommandView::Connect, CommandView::ListAllKeys]
        + deletions_of(keys) + seq![CommandView::Exit(EXIT_COMPLETED as int)]);
}

/// With no key listed the sweep asks for no deletion at all, and the run
/// ends with the status of a completed run.
pub proof fn law_empty_snapshot_completes(s: SweepView)
    requires
        valid(s),
        s.phase == Phase::Connected,
    ensures
        issued(s, seq![EventView::KeysListed(Seq::empty())]) == seq![
            CommandView::ListAllKeys,
            CommandView::Exit(EXIT_COMPLETED as int),
        ],
        deleted_keys(issued(s, seq![EventView::KeysListed(Seq::empty())])).len() == 0,
        absorb(s, EventView::KeysListed(Seq::empty())).phase == Phase::Done,
{
    law_one_deletion_for_each_key(s, Seq::empty(), Seq::empty());
    assert(seq![EventView::KeysListed(Seq::empty())] + Seq::<EventView>::empty() =~= seq![
        EventView::KeysListed(Seq::empty()),
    ]);
    assert(deletions_of(Seq::empty()) =~= Seq::<CommandView>::empty());
    assert(seq![CommandView::ListAllKeys] + deletions_of(Seq::empty()) + seq![
        CommandView::Exit(EXIT_COMPLETED as int),
    ] =~= seq![CommandView::ListAllKeys, CommandView::Exit(EXIT_COMPLETED as int)]);
}

proof fn lemma_aborted_stays(s: SweepView, events: Seq<EventView>)
    requires
        s.phase == Phase::Aborted,
    ensures
        issued(s, events) == Seq::new(
            events.len() + 1,
            |i: int| CommandView::Exit(EXIT_FAILED as int),
        ),
        replay(s, events) == s,
    decreases events.len(),
{
    let all = Seq::new(events.len() + 1, |i: int| CommandView::Exit(EXIT_FAILED as int));
    if events.len() == 0 {
        assert(issued(s, events) =~= all);
    } else {
        lemma_aborted_stays(s, events.drop_first());
        assert(issued(s, events) =~= all);
    }
}

/// Where the store cannot be reached, or its address is refused, the run
/// asks for nothing more: after the request to connect, every request is
/// the one to end the process with the status of a failed run, whatever
/// events follow. No key names are asked for and no deletion is.
pub proof fn law_unreachable_store_ends_run(
    s: SweepView,
    failure: EventView,
    later: Seq<EventView>,
)
    requires
        valid(s),
        s.phase == Phase::Disconnected,
        failure is ConnectFailed || failure is AddressRefused,
    ensures
        issued(s, seq![failure] + later) == seq![CommandView::Connect] + Seq::new(
            later.len() + 1,
            |i: int| CommandView::Exit(EXIT_FAILED as int),
        ),
        !asks_for_keys(issued(s, seq![failure] + later)),
        deleted_keys(issued(s, seq![failure] + later)).len() == 0,
        replay(s, seq![failure] + later).phase == Phase::Aborted,
{
    let events = seq![failure] + later;
    let exits = Seq::new(later.len() + 1, |i: int| CommandView::Exit(EXIT_FAILED as int));
    assert(events.drop_first() =~= later);
    lemma_aborted_stays(absorb(s, failure), later);
    assert(issued(s, events) =~= seq![CommandView::Connect] + exits);
    lemma_deleted_keys_of_one(CommandView::Connect, exits);
    lemma_no_deletion_among_exits(later.len() + 1);
}

proof fn lemma_no_deletion_among_exits(n: nat)
    ensures
        deleted_keys(Seq::new(n, |i: int| CommandView::Exit(EXIT_FAILED as int))).len() == 0,
    decreases n,
{
    let exits = Seq::new(n, |i: int| CommandView::Exit(EXIT_FAILED as int));
    if n > 0 {
        lemma_no_deletion_among_exits((n - 1) as nat);
        assert(exits.drop_first() =~= Seq::new(
            (n - 1) as nat,
            |i: int| CommandView::Exit(EXIT_FAILED as int),
        ));
    }
}

/// Where the names that come back are a listing of the store, the sweep
/// asks for the deletion of exactly the keys the store held when it was
/// asked: each of them once, and no other key.
pub proof fn law_every_stored_key_is_swept(
    s: SweepView,
    store: Set<Seq<char>>,
    keys: Seq<Seq<char>>,
    results: Seq<EventView>,
)
    requires
        valid(s),
        s.phase == Phase::Connected,
        lists(store, keys),
        deletion_answers(results),
        results.len() == keys.len(),
    ensures
        deleted_keys(issued(s, seq![EventView::KeysListed(keys)] + results)).no_duplicates(),
        deleted_keys(issued(s, seq![EventView::KeysListed(keys)] + results)).to_set() == store,
{
    law_one_deletion_for_each_key(s, keys, results);
}

proof fn lemma_store_after_good_sweep(
    store: Set<Seq<char>>,
    keys: Seq<Seq<char>>,
    results: Seq<EventView>,
)
    requires
        results.len() == keys.len(),
        all_deleted(results),
    ensures
        after_sweep(store, keys, results) == store.difference(keys.to_set()),
    decreases keys.len(),
{
    if keys.len() == 0 {
        assert(store.difference(keys.to_set()) =~= store);
    } else {
        let next = after_deletion(store, keys[0], results[0]);
        let later = results.drop_first();
        assert(results[0] is Deleted);
        assert forall|i: int| 0 <= i < later.len() implies (#[trigger] later[i]) is Deleted by {
            assert(later[i] == results[i + 1]);
        }
        lemma_store_after_good_sweep(next, keys.drop_first(), later);
        assert forall|key: Seq<char>|
            keys.to_set().contains(key) <==> (key == keys[0] || keys.drop_first().to_set().contains(
                key,
            )) by {
            if keys.to_set().contains(key) {
                let i = choose|i: int| 0 <= i < keys.len() && keys[i] == key;
                if i > 0 {
                    assert(keys.drop_first()[i - 1] == key);
                }
            }
            if keys.drop_first().to_set().contains(key) {
                let i = choose|i: int|
                    0 <= i < keys.drop_first().len() && keys.drop_first()[i] == key;
                assert(keys[i + 1] == key);
            }
            if key == keys[0] {
                assert(keys.contains(keys[0]));
            }
        }
        assert(next.difference(keys.drop_first().to_set()) =~= store.difference(keys.to_set()));
    }
}

/// A second run finds nothing to do. Where a run swept a listing of the
/// store and the store answered every one of its deletions, and nobody
/// else wrote to the store, the store holds no key afterwards: the listing
/// the next run gets is empty, and that run asks for no deletion and
/// completes.
pub proof fn law_second_run_finds_nothing(
    address: AddressView,
    store: Set<Seq<char>>,
    keys: Seq<Seq<char>>,
    results: Seq<EventView>,
    again: Seq<Seq<char>>,
)
    requires
        lists(store, keys),
        results.len() == keys.len(),
        all_deleted(results),
        lists(after_sweep(store, keys, results), again),
    ensures
        after_sweep(store, keys, results) == Set::<Seq<char>>::empty(),
        again.len() == 0,
        issued(initial(address), complete_run(again, Seq::empty())) == seq![
            CommandView::Connect,
            CommandView::ListAllKeys,
            CommandView::Exit(EXIT_COMPLETED as int),
        ],
        deleted_keys(issued(initial(address), complete_run(again, Seq::empty()))).len() == 0,
{
    lemma_store_after_good_sweep(store, keys, results);
    assert(store.difference(keys.to_set()) =~= Set::<Seq<char>>::empty());
    if again.len() > 0 {
        assert(again.to_set().contains(again[0]));
    }
    assert(again =~= Seq::<Seq<char>>::empty());
    law_complete_run(address, again, Seq::empty());
    assert(deletions_of(again) =~= Seq::<CommandView>::empty());
    assert(seq![CommandView::Connect, CommandView::ListAllKeys] + deletions_of(again) + seq![
        CommandView::Exit(EXIT_COMPLETED as int),
    ] =~= seq![
        CommandView::Connect,
        CommandView::ListAllKeys,
        CommandView::Exit(EXIT_COMPLETED as int),
    ]);
}

} // verus!
