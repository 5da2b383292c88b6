//! What holds of stores, replays and repositories as a whole.

use crate::aggregate::{Aggregate, AggregateError, Snapshot};
use crate::event::DomainEvent;
use crate::store::{EventStore, EventStoreError, InMemoryEventStore, StoreModel};
use serde_json::Value;
use vstd::prelude::*;

verus! {

// ---------------------------------------------------------------------------
// Stores
// ---------------------------------------------------------------------------

/// A log only grows: what was stored before a write is the beginning of what is
/// stored after it, the new events follow, and no other aggregate is touched.
pub proof fn logs_are_append_only(
    held: StoreModel,
    id: Seq<char>,
    events: Seq<DomainEvent>,
    other: Seq<char>,
)
    ensures
        held.append(id, events).log(id).take(held.log(id).len() as int) == held.log(id),
        held.append(id, events).log(id).skip(held.log(id).len() as int) == events,
        other != id ==> held.append(id, events).log(other) == held.log(other),
        held.append(id, events).snapshot(other) == held.snapshot(other),
{
    let log = held.log(id);
    assert((log + events).take(log.len() as int) =~= log);
    assert((log + events).skip(log.len() as int) =~= events);
}

/// Loading from a version gives exactly the events recorded after it.
pub proof fn loading_from_a_version_gives_the_newer_events(
    held: StoreModel,
    id: Seq<char>,
    events: Seq<DomainEvent>,
    version: u64,
)
    requires
        version == held.log(id).len(),
    ensures
        crate::store::tail(held.append(id, events).log(id), Some(version)) == events,
{
    logs_are_append_only(held, id, events, id);
}

/// A log is what was stored up to a version, followed by what loading from that
/// version gives.
pub proof fn a_version_splits_the_log(log: Seq<DomainEvent>, version: u64)
    requires
        version <= log.len(),
    ensures
        log.take(version as int) + crate::store::tail(log, Some(version)) == log,
{
    assert(log.take(version as int) + log.skip(version as int) =~= log);
}

/// Optimistic concurrency: once one of two writers that expect the same version
/// has written something, the other is turned away; a writer that has seen the
/// new events goes ahead.
pub proof fn one_writer_per_version(
    log: Seq<DomainEvent>,
    events: Seq<DomainEvent>,
    version: u64,
    next: u64,
)
    requires
        crate::store::accepts(log, Some(version)),
        events.len() > 0,
        next == version + events.len(),
    ensures
        !crate::store::accepts(log + events, Some(version)),
        crate::store::accepts(log + events, Some(next)),
{
}

/// The snapshot that was stored last is the one that is loaded, and storing one
/// touches neither another aggregate's snapshot nor any log.
pub proof fn the_last_snapshot_is_read_back(
    held: StoreModel,
    first: Snapshot,
    last: Snapshot,
    other: Seq<char>,
)
    requires
        first.aggregate_id@ == last.aggregate_id@,
    ensures
        held.put_snapshot(last).snapshot(last.aggregate_id@) == Some(last),
        held.put_snapshot(first).put_snapshot(last) == held.put_snapshot(last),
        other != last.aggregate_id@ ==> held.put_snapshot(last).snapshot(other) == held.snapshot(
            other,
        ),
        held.put_snapshot(last).log(other) == held.log(other),
{
    assert(held.put_snapshot(first).put_snapshot(last) =~= held.put_snapshot(last));
}

/// The events of all aggregates together are the events of each of them, and no
/// others.
pub proof fn all_events_are_the_logged_ones(held: StoreModel, ids: Seq<Seq<char>>, event: DomainEvent)
    requires
        held.covered_by(ids),
    ensures
        held.logs_of(ids).contains(event) <==> exists|id: Seq<char>|
            (#[trigger] held.log(id)).contains(event),
{
    logs_of_contains(held, ids, event);
    if exists|id: Seq<char>| (#[trigger] held.log(id)).contains(event) {
        let id = choose|id: Seq<char>| (#[trigger] held.log(id)).contains(event);
        assert(held.log(id).len() > 0);
        assert(ids.contains(id));
    }
}

/// The logs of `ids` hold an event if one of them does.
proof fn logs_of_contains(held: StoreModel, ids: Seq<Seq<char>>, event: DomainEvent)
    ensures
        held.logs_of(ids).contains(event) <==> exists|i: int|
            0 <= i < ids.len() && held.log(#[trigger] ids[i]).contains(event),
    decreases ids.len(),
{
    if ids.len() > 0 {
        let front = held.logs_of(ids.drop_last());
        let back = held.log(ids.last());
        logs_of_contains(held, ids.drop_last(), event);
        if (front + back).contains(event) {
            let k = (front + back).index_of(event);
            if k < front.len() {
                assert(front[k] == event);
                let i = choose|i: int|
                    0 <= i < ids.len() - 1 && held.log(#[trigger] ids.drop_last()[i]).contains(
                        event,
                    );
                assert(held.log(ids[i]).contains(event));
            } else {
                assert(back[k - front.len()] == event);
                assert(held.log(ids[ids.len() - 1]).contains(event));
            }
        }
        if exists|i: int| 0 <= i < ids.len() && held.log(#[trigger] ids[i]).contains(event) {
            let i = choose|i: int|
                0 <= i < ids.len() && held.log(#[trigger] ids[i]).contains(event);
            if i < ids.len() - 1 {
                assert(held.log(ids.drop_last()[i]).contains(event));
                let k = front.index_of(event);
                assert((front + back)[k] == event);
            } else {
                let k = back.index_of(event);
                assert((front + back)[front.len() + k] == event);
            }
        }
    }
}

/// A write without an expectation always goes ahead, and one with an expectation if
/// and only if that many events are stored.
pub proof fn writes_are_checked_against_the_length(log: Seq<DomainEvent>, expected: u64)
    ensures
        crate::store::accepts(log, None),
        crate::store::accepts(log, Some(expected)) <==> log.len() == expected,
{
}

/// Loading without a version gives the whole log, as does loading from version 0.
/// Loading from a version gives one event for each that is stored beyond it, the same
/// ones in the same order, and nothing from a version beyond the end.
pub proof fn loading_leaves_out_the_counted_events_only(log: Seq<DomainEvent>, version: u64, i: int)
    ensures
        crate::store::tail(log, None) == log,
        crate::store::tail(log, Some(0)) == log,
        version <= log.len() ==> crate::store::tail(log, Some(version)).len() == log.len()
            - version,
        version <= i < log.len() ==> crate::store::tail(log, Some(version))[i - version] == log[i],
        version >= log.len() ==> crate::store::tail(log, Some(version)).len() == 0,
{
    assert(log.skip(0) =~= log);
}

/// Loading from a version and skipping more is loading from the later version.
pub proof fn loading_in_steps(log: Seq<DomainEvent>, version: u64, more: u64, later: u64)
    requires
        later == version + more,
    ensures
        crate::store::tail(crate::store::tail(log, Some(version)), Some(more))
            == crate::store::tail(log, Some(later)),
{
    assert(crate::store::tail(crate::store::tail(log, Some(version)), Some(more))
        =~= crate::store::tail(log, Some(later)));
}

/// An empty store has no event and no snapshot for any aggregate.
pub proof fn an_empty_store_holds_nothing(id: Seq<char>)
    ensures
        StoreModel::empty().log(id).len() == 0,
        StoreModel::empty().snapshot(id) is None,
{
}

/// The log and the snapshot of an aggregate are those that the store has under its
/// identifier.
pub proof fn logs_and_snapshots_go_by_identifier(held: StoreModel, id: Seq<char>)
    ensures
        held.log(id) == (held.logs)(id),
        held.snapshot(id) == (held.snapshots)(id),
{
}

/// A store is what it holds for each aggregate, and nothing besides.
pub proof fn a_store_is_its_logs_and_snapshots(one: StoreModel, two: StoreModel)
    requires
        forall|id: Seq<char>| (#[trigger] one.log(id)) == two.log(id),
        forall|id: Seq<char>| (#[trigger] one.snapshot(id)) == two.snapshot(id),
    ensures
        one == two,
{
    assert forall|id: Seq<char>| #[trigger] (one.logs)(id) == (two.logs)(id) by {
        assert(one.log(id) == two.log(id));
    }
    assert forall|id: Seq<char>| #[trigger] (one.snapshots)(id) == (two.snapshots)(id) by {
        assert(one.snapshot(id) == two.snapshot(id));
    }
    assert(one.logs =~= two.logs);
    assert(one.snapshots =~= two.snapshots);
}

/// Listing the events of some aggregates and then of others is listing them all; of
/// one aggregate it gives its log, once and as it is, and of none nothing.
pub proof fn listing_is_one_log_after_the_other(
    held: StoreModel,
    first: Seq<Seq<char>>,
    second: Seq<Seq<char>>,
    id: Seq<char>,
)
    ensures
        held.logs_of(Seq::empty()).len() == 0,
        held.logs_of(seq![id]) == held.log(id),
        held.logs_of(first + second) == held.logs_of(first) + held.logs_of(second),
    decreases second.len(),
{
    assert(seq![id].drop_last() =~= Seq::<Seq<char>>::empty());
    assert(held.logs_of(seq![id].drop_last()) + held.log(id) =~= held.log(id));
    if second.len() == 0 {
        assert(first + second =~= first);
        assert(held.logs_of(first) + held.logs_of(second) =~= held.logs_of(first));
    } else {
        listing_is_one_log_after_the_other(held, first, second.drop_last(), id);
        assert((first + second).drop_last() =~= first + second.drop_last());
        assert(held.logs_of(first) + held.logs_of(second) =~= (held.logs_of(first)
            + held.logs_of(second.drop_last())) + held.log(second.last()));
    }
}

/// The events of `ids` are the logs of `ids`, laid end to end: as many of them, and
/// each as often, as the logs together have.
pub proof fn listed_events_are_the_logs_end_to_end(
    held: StoreModel,
    ids: Seq<Seq<char>>,
    event: DomainEvent,
)
    ensures
        held.logs_of(ids) == ids.map_values(|id: Seq<char>| held.log(id)).flatten(),
        held.logs_of(ids).len() == ids.map_values(
            |id: Seq<char>| held.log(id).len() as int,
        ).fold_left(0int, |sum: int, n: int| sum + n),
        held.logs_of(ids).to_multiset().count(event) == ids.map_values(
            |id: Seq<char>| held.log(id).to_multiset().count(event) as int,
        ).fold_left(0int, |sum: int, n: int| sum + n),
    decreases ids.len(),
{
    let logs = ids.map_values(|id: Seq<char>| held.log(id));
    let lengths = ids.map_values(|id: Seq<char>| held.log(id).len() as int);
    let counts = ids.map_values(|id: Seq<char>| held.log(id).to_multiset().count(event) as int);
    broadcast use vstd::seq_lib::group_to_multiset_ensures;

    if ids.len() == 0 {
        assert(held.logs_of(ids) =~= logs.flatten());
        assert(held.logs_of(ids).to_multiset().len() == 0);
    } else {
        let front = ids.drop_last();
        listed_events_are_the_logs_end_to_end(held, front, event);
        assert(logs.drop_last() =~= front.map_values(|id: Seq<char>| held.log(id)));
        assert(lengths.drop_last() =~= front.map_values(|id: Seq<char>| held.log(id).len() as int));
        assert(counts.drop_last() =~= front.map_values(
            |id: Seq<char>| held.log(id).to_multiset().count(event) as int,
        ));
        logs.lemma_flatten_and_flatten_alt_are_equivalent();
        logs.drop_last().lemma_flatten_and_flatten_alt_are_equivalent();
        vstd::seq_lib::lemma_multiset_commutative(held.logs_of(front), held.log(ids.last()));
        assert(held.logs_of(ids) =~= held.logs_of(front) + held.log(ids.last()));
    }
}

/// A listing of all events names every aggregate that has events, at one place only,
/// and whatever the order of the aggregates, it is a listing of the same events.
pub proof fn all_listings_hold_the_same_events(
    held: StoreModel,
    one: Seq<Seq<char>>,
    two: Seq<Seq<char>>,
    id: Seq<char>,
    i: int,
    j: int,
)
    requires
        held.covered_by(one),
        held.covered_by(two),
    ensures
        held.log(id).len() > 0 ==> one.contains(id),
        0 <= i < one.len() && 0 <= j < one.len() && one[i] == one[j] ==> i == j,
        held.logs_of(one).to_multiset() == held.logs_of(two).to_multiset(),
{
    same_listing(held, one, two);
}

/// Two listings without repetitions that both have every aggregate with events hold
/// the same events.
proof fn same_listing(held: StoreModel, one: Seq<Seq<char>>, two: Seq<Seq<char>>)
    requires
        one.no_duplicates(),
        two.no_duplicates(),
        forall|id: Seq<char>| (#[trigger] held.log(id)).len() > 0 ==> (one.contains(id)
            <==> two.contains(id)),
    ensures
        held.logs_of(one).to_multiset() == held.logs_of(two).to_multiset(),
    decreases one.len() + two.len(),
{
    broadcast use vstd::seq_lib::group_to_multiset_ensures;

    if one.len() == 0 {
        if two.len() > 0 {
            let id = two.last();
            assert(two.contains(id));
            assert(held.log(id).len() == 0);
            assert(held.logs_of(two) =~= held.logs_of(two.drop_last()));
            assert forall|other: Seq<char>| (#[trigger] held.log(other)).len() > 0 implies (
            one.contains(other) <==> two.drop_last().contains(other)) by {
                kept_without_last(two, other);
            }
            same_listing(held, one, two.drop_last());
        } else {
            assert(one =~= two);
        }
    } else {
        let id = one.last();
        assert(one.contains(id));
        if held.log(id).len() == 0 {
            assert(held.logs_of(one) =~= held.logs_of(one.drop_last()));
            assert forall|other: Seq<char>| (#[trigger] held.log(other)).len() > 0 implies (
            one.drop_last().contains(other) <==> two.contains(other)) by {
                kept_without_last(one, other);
            }
            same_listing(held, one.drop_last(), two);
        } else {
            let k = two.index_of(id);
            let (left, right) = (two.take(k), two.skip(k + 1));
            assert(two =~= left + seq![id] + right);
            listing_is_one_log_after_the_other(held, left + seq![id], right, id);
            listing_is_one_log_after_the_other(held, left, seq![id], id);
            listing_is_one_log_after_the_other(held, left, right, id);
            let rest = left + right;
            assert(rest.no_duplicates()) by {
                assert forall|a: int, b: int| 0 <= a < rest.len() && 0 <= b < rest.len() && a
                    != b implies rest[a] != rest[b] by {
                    let x = if a < k { a } else { a + 1 };
                    let y = if b < k { b } else { b + 1 };
                    assert(rest[a] == two[x] && rest[b] == two[y]);
                }
            }
            assert forall|other: Seq<char>| (#[trigger] held.log(other)).len() > 0 implies (
            one.drop_last().contains(other) <==> rest.contains(other)) by {
                kept_without_last(one, other);
                if rest.contains(other) {
                    let a = rest.index_of(other);
                    let x = if a < k { a } else { a + 1 };
                    assert(two[x] == other);
                    assert(x != k && two[x] != two[k]);
                }
                if two.contains(other) && other != id {
                    let x = two.index_of(other);
                    let a = if x < k { x } else { x - 1 };
                    assert(rest[a] == other);
                }
            }
            same_listing(held, one.drop_last(), rest);
            let (l, m, r) = (held.logs_of(left), held.log(id), held.logs_of(right));
            vstd::seq_lib::lemma_multiset_commutative(l + m, r);
            vstd::seq_lib::lemma_multiset_commutative(l, m);
            vstd::seq_lib::lemma_multiset_commutative(l, r);
            vstd::seq_lib::lemma_multiset_commutative(held.logs_of(one.drop_last()), m);
            assert(held.logs_of(one).to_multiset() =~= held.logs_of(two).to_multiset());
        }
    }
}

/// In a listing without repetitions, all but the last are listed before it.
proof fn kept_without_last(ids: Seq<Seq<char>>, id: Seq<char>)
    requires
        ids.no_duplicates(),
        ids.len() > 0,
    ensures
        ids.drop_last().contains(id) <==> ids.contains(id) && id != ids.last(),
{
    if ids.drop_last().contains(id) {
        let i = ids.drop_last().index_of(id);
        assert(ids[i] == id && i != ids.len() - 1);
    }
    if ids.contains(id) && id != ids.last() {
        let i = ids.index_of(id);
        assert(ids.drop_last()[i] == id);
    }
}

/// The in-memory store never fails on its own account: a stale expectation is the only
/// thing it turns away.
pub proof fn the_in_memory_store_never_fails(
    pre: StoreModel,
    post: StoreModel,
    id: Seq<char>,
    events: Seq<DomainEvent>,
    version: Option<u64>,
    snapshot: Snapshot,
    error: EventStoreError,
)
    ensures
        !InMemoryEventStore::failed_write(pre, id, events, version, post, error),
        !InMemoryEventStore::failed_read(pre, id, version, error),
        !InMemoryEventStore::failed_snapshot_write(pre, snapshot, post, error),
        !InMemoryEventStore::failed_snapshot_read(pre, id, error),
{
}

// ---------------------------------------------------------------------------
// Replay
// ---------------------------------------------------------------------------

/// The version counts events: a replay advances it by one for each of them.
pub proof fn version_counts_events<A: Aggregate>(pre: A, events: Seq<DomainEvent>, post: A)
    requires
        crate::replay::replays(pre, events, Ok(post)),
    ensures
        post.version_model() == pre.version_model() + events.len(),
    decreases events.len(),
{
    if events.len() > 0 {
        let (mid, outcome) = choose|mid: A, outcome: Result<(), AggregateError>| #[trigger]
            crate::replay::steps(pre, events.first(), mid, outcome) && match outcome {
                Ok(_) => crate::replay::replays(mid, events.drop_first(), Ok(post)),
                Err(error) => Ok::<A, AggregateError>(post) == Err::<A, AggregateError>(error),
            };
        version_counts_events(mid, events.drop_first(), post);
    }
}

/// Replaying a log in two parts is replaying it in one go.
pub proof fn replay_in_two_parts<A: Aggregate>(
    pre: A,
    first: Seq<DomainEvent>,
    mid: A,
    second: Seq<DomainEvent>,
    result: Result<A, AggregateError>,
)
    requires
        crate::replay::replays(pre, first, Ok(mid)),
        crate::replay::replays(mid, second, result),
    ensures
        crate::replay::replays(pre, first + second, result),
    decreases first.len(),
{
    if first.len() == 0 {
        assert(first + second =~= second);
    } else {
        let (next, outcome) = choose|next: A, outcome: Result<(), AggregateError>| #[trigger]
            crate::replay::steps(pre, first.first(), next, outcome) && match outcome {
                Ok(_) => crate::replay::replays(next, first.drop_first(), Ok(mid)),
                Err(error) => Ok::<A, AggregateError>(mid) == Err::<A, AggregateError>(error),
            };
        replay_in_two_parts(next, first.drop_first(), mid, second, result);
        assert((first + second).drop_first() =~= first.drop_first() + second);
        assert(crate::replay::steps(pre, (first + second).first(), next, outcome));
    }
}

/// Replaying no event leaves the aggregate as it is. Replaying one event is applying
/// that very event, and reports its refusal.
pub proof fn replaying_one_event_is_applying_it<A: Aggregate>(
    pre: A,
    event: DomainEvent,
    result: Result<A, AggregateError>,
)
    ensures
        crate::replay::replays(pre, Seq::empty(), result) <==> result == Ok::<A, AggregateError>(
            pre,
        ),
        crate::replay::replays(pre, seq![event], result) ==> match result {
            Ok(post) => A::applied(pre, event, post, Ok(())) && post.version_model()
                == pre.version_model() + 1,
            Err(error) => exists|post: A| #[trigger] A::applied(pre, event, post, Err(error)),
        },
{
    if crate::replay::replays(pre, seq![event], result) {
        let events = seq![event];
        let (mid, outcome) = choose|mid: A, outcome: Result<(), AggregateError>| #[trigger]
            crate::replay::steps(pre, events.first(), mid, outcome) && match outcome {
                Ok(_) => crate::replay::replays(mid, events.drop_first(), result),
                Err(error) => result == Err::<A, AggregateError>(error),
            };
        assert(A::applied(pre, event, mid, outcome));
        assert(outcome is Ok ==> outcome->Ok_0 == ());
    }
}

/// A replay that succeeds has applied each event of the log, as it is stored and in
/// the order in which it is stored, each to what the events before it had led to.
pub proof fn replay_applies_every_event<A: Aggregate>(
    pre: A,
    events: Seq<DomainEvent>,
    post: A,
) -> (states: Seq<A>)
    requires
        crate::replay::replays(pre, events, Ok(post)),
    ensures
        states.len() == events.len() + 1,
        states[0] == pre,
        states[events.len() as int] == post,
        forall|i: int| #![trigger events[i]]
            0 <= i < events.len() ==> A::applied(states[i], events[i], states[i + 1], Ok(()))
                && states[i + 1].version_model() == states[i].version_model() + 1,
    decreases events.len(),
{
    if events.len() == 0 {
        seq![pre]
    } else {
        let rest = events.drop_first();
        let (mid, outcome) = choose|mid: A, outcome: Result<(), AggregateError>| #[trigger]
            crate::replay::steps(pre, events.first(), mid, outcome) && match outcome {
                Ok(_) => crate::replay::replays(mid, rest, Ok(post)),
                Err(error) => Ok::<A, AggregateError>(post) == Err::<A, AggregateError>(error),
            };
        assert(outcome->Ok_0 == ());
        let later = replay_applies_every_event(mid, rest, post);
        let states = seq![pre] + later;
        assert forall|i: int| #![trigger events[i]] 0 <= i < events.len() implies A::applied(
            states[i],
            events[i],
            states[i + 1],
            Ok(()),
        ) && states[i + 1].version_model() == states[i].version_model() + 1 by {
            assert(states[i + 1] == later[i]);
            if i > 0 {
                assert(rest[i - 1] == events[i]);
                assert(states[i] == later[i - 1]);
            }
        }
        states
    }
}

/// Where each event of a log takes one state to the next, replaying the log may take
/// the first state to the last.
pub proof fn applying_every_event_is_a_replay<A: Aggregate>(
    states: Seq<A>,
    events: Seq<DomainEvent>,
)
    requires
        states.len() == events.len() + 1,
        forall|i: int| #![trigger events[i]]
            0 <= i < events.len() ==> A::applied(states[i], events[i], states[i + 1], Ok(()))
                && states[i + 1].version_model() == states[i].version_model() + 1,
    ensures
        crate::replay::replays(states[0], events, Ok(states[events.len() as int])),
    decreases events.len(),
{
    if events.len() > 0 {
        let (later, rest) = (states.drop_first(), events.drop_first());
        assert forall|i: int| #![trigger rest[i]] 0 <= i < rest.len() implies A::applied(
            later[i],
            rest[i],
            later[i + 1],
            Ok(()),
        ) && later[i + 1].version_model() == later[i].version_model() + 1 by {
            assert(rest[i] == events[i + 1]);
        }
        applying_every_event_is_a_replay(later, rest);
        assert(A::applied(states[0], events[0], states[1], Ok(())));
        assert(crate::replay::steps(states[0], events.first(), states[1], Ok(())));
    }
}

/// A replay that fails has applied the events up to one that the aggregate refused,
/// and its error is that refusal.
pub proof fn replay_reports_the_first_refusal<A: Aggregate>(
    pre: A,
    events: Seq<DomainEvent>,
    error: AggregateError,
)
    requires
        crate::replay::replays(pre, events, Err::<A, AggregateError>(error)),
    ensures
        exists|k: int, mid: A, post: A|
            0 <= k < events.len() && #[trigger] crate::replay::replays(
                pre,
                events.take(k),
                Ok(mid),
            ) && #[trigger] A::applied(mid, events[k], post, Err(error)),
    decreases events.len(),
{
    let result = Err::<A, AggregateError>(error);
    let (next, outcome) = choose|next: A, outcome: Result<(), AggregateError>| #[trigger]
        crate::replay::steps(pre, events.first(), next, outcome) && match outcome {
            Ok(_) => crate::replay::replays(next, events.drop_first(), result),
            Err(refusal) => result == Err::<A, AggregateError>(refusal),
        };
    if outcome is Ok {
        let rest = events.drop_first();
        replay_reports_the_first_refusal(next, rest, error);
        let (k, mid, post) = choose|k: int, mid: A, post: A|
            0 <= k < rest.len() && #[trigger] crate::replay::replays(next, rest.take(k), Ok(mid))
                && #[trigger] A::applied(mid, rest[k], post, Err(error));
        let done = events.take(k + 1);
        assert(done.drop_first() =~= rest.take(k));
        assert(crate::replay::steps(pre, done.first(), next, outcome));
        assert(crate::replay::replays(pre, done, Ok(mid)));
        assert(A::applied(mid, events[k + 1], post, Err(error)));
    } else {
        assert(crate::replay::replays(pre, events.take(0), Ok(pre)));
        assert(A::applied(pre, events[0], next, Err(error)));
    }
}

/// A replay stops at the first event that is refused, whatever follows it.
pub proof fn replay_stops_at_an_error<A: Aggregate>(
    pre: A,
    first: Seq<DomainEvent>,
    error: AggregateError,
    second: Seq<DomainEvent>,
)
    requires
        crate::replay::replays(pre, first, Err::<A, AggregateError>(error)),
    ensures
        crate::replay::replays(pre, first + second, Err::<A, AggregateError>(error)),
    decreases first.len(),
{
    if first.len() > 0 {
        let result = Err::<A, AggregateError>(error);
        let (next, outcome) = choose|next: A, outcome: Result<(), AggregateError>| #[trigger]
            crate::replay::steps(pre, first.first(), next, outcome) && match outcome {
                Ok(_) => crate::replay::replays(next, first.drop_first(), result),
                Err(refusal) => result == Err::<A, AggregateError>(refusal),
            };
        if outcome is Ok {
            replay_stops_at_an_error(next, first.drop_first(), error, second);
        }
        assert((first + second).drop_first() =~= first.drop_first() + second);
        assert(crate::replay::steps(pre, (first + second).first(), next, outcome));
    }
}

/// What a replay has come to after one event.
pub open spec fn after_step<A: Aggregate>(post: A, outcome: Result<(), AggregateError>) -> Result<
    A,
    AggregateError,
> {
    match outcome {
        Ok(_) => Ok(post),
        Err(error) => Err(error),
    }
}

/// Whether aggregates behave the same as far as `same` can tell: new instances for
/// one identifier are the same, and an event takes what is the same to what is the
/// same. Equality is such a relation for a deterministic aggregate.
pub open spec fn consistent<A: Aggregate>(
    same: spec_fn(Result<A, AggregateError>, Result<A, AggregateError>) -> bool,
) -> bool {
    &&& forall|id: Seq<char>, a: A, b: A| #[trigger] A::fresh(id, a) && #[trigger] A::fresh(id, b)
        ==> same(Ok(a), Ok(b))
    &&& forall|
        a: A,
        b: A,
        event: DomainEvent,
        a_post: A,
        a_outcome: Result<(), AggregateError>,
        b_post: A,
        b_outcome: Result<(), AggregateError>,
    |
        same(Ok(a), Ok(b)) && #[trigger] A::applied(a, event, a_post, a_outcome) && #[trigger]
            A::applied(b, event, b_post, b_outcome) ==> {
            &&& a_outcome is Ok <==> b_outcome is Ok
            &&& same(after_step(a_post, a_outcome), after_step(b_post, b_outcome))
        }
}

/// Replaying the same events twice, on aggregates that are the same, ends in the
/// same way.
pub proof fn replay_is_repeatable<A: Aggregate>(
    same: spec_fn(Result<A, AggregateError>, Result<A, AggregateError>) -> bool,
    a: A,
    b: A,
    events: Seq<DomainEvent>,
    one: Result<A, AggregateError>,
    two: Result<A, AggregateError>,
)
    requires
        consistent(same),
        same(Ok(a), Ok(b)),
        crate::replay::replays(a, events, one),
        crate::replay::replays(b, events, two),
    ensures
        same(one, two),
    decreases events.len(),
{
    if events.len() > 0 {
        let (a_mid, a_outcome) = choose|mid: A, outcome: Result<(), AggregateError>| #[trigger]
            crate::replay::steps(a, events.first(), mid, outcome) && match outcome {
                Ok(_) => crate::replay::replays(mid, events.drop_first(), one),
                Err(error) => one == Err::<A, AggregateError>(error),
            };
        let (b_mid, b_outcome) = choose|mid: A, outcome: Result<(), AggregateError>| #[trigger]
            crate::replay::steps(b, events.first(), mid, outcome) && match outcome {
                Ok(_) => crate::replay::replays(mid, events.drop_first(), two),
                Err(error) => two == Err::<A, AggregateError>(error),
            };
        assert(A::applied(a, events.first(), a_mid, a_outcome));
        assert(A::applied(b, events.first(), b_mid, b_outcome));
        if a_outcome is Ok {
            replay_is_repeatable(same, a_mid, b_mid, events.drop_first(), one, two);
        }
    }
}

// ---------------------------------------------------------------------------
// Loading
// ---------------------------------------------------------------------------

/// The version of a loaded aggregate is the number of events stored for it.
pub proof fn loaded_version_is_log_length<A: Aggregate, S: EventStore>(
    held: StoreModel,
    id: Seq<char>,
    loaded: A,
)
    requires
        crate::repository::loads::<A, S>(held, id, Ok(loaded)),
    ensures
        loaded.version_model() == held.log(id).len(),
{
    let fresh = choose|fresh: A| #[trigger]
        A::fresh(id, fresh) && fresh.version_model() == 0 && crate::replay::replays(
            fresh,
            held.log(id),
            Ok(loaded),
        );
    version_counts_events(fresh, held.log(id), loaded);
}

/// Loading an aggregate that has no events gives a new instance, at version 0.
pub proof fn unknown_aggregates_load_as_new<A: Aggregate, S: EventStore>(
    held: StoreModel,
    id: Seq<char>,
    result: Result<A, AggregateError>,
)
    requires
        held.log(id).len() == 0,
        crate::repository::loads::<A, S>(held, id, result),
        !crate::repository::read_failed::<A, S>(held, id, None, result),
    ensures
        result matches Ok(loaded) && A::fresh(id, loaded) && loaded.version_model() == 0,
{
}

/// Loading creates a new instance for the identifier and replays everything that is
/// stored for it. Only a failure of reading the whole log, which is then reported,
/// can keep it from that.
pub proof fn loading_replays_the_stored_log<A: Aggregate, S: EventStore>(
    held: StoreModel,
    id: Seq<char>,
    result: Result<A, AggregateError>,
)
    requires
        crate::repository::loads::<A, S>(held, id, result),
    ensures
        ({
            ||| exists|fresh: A| #[trigger]
                A::fresh(id, fresh) && fresh.version_model() == 0 && crate::replay::replays(
                    fresh,
                    held.log(id),
                    result,
                )
            ||| exists|error: EventStoreError| #[trigger]
                S::failed_read(held, id, None, error) && result == Err::<A, AggregateError>(
                    crate::store::as_aggregate_error(error),
                )
        }),
{
}

/// From the in-memory store, a loaded aggregate is what a new instance becomes by
/// applying the stored events one after the other, each as it was stored.
pub proof fn loaded_aggregates_have_applied_what_is_stored<A: Aggregate>(
    held: StoreModel,
    id: Seq<char>,
    loaded: A,
) -> (states: Seq<A>)
    requires
        crate::repository::loads::<A, InMemoryEventStore>(held, id, Ok(loaded)),
    ensures
        states.len() == held.log(id).len() + 1,
        A::fresh(id, states[0]),
        states[0].version_model() == 0,
        states[held.log(id).len() as int] == loaded,
        forall|i: int| #![trigger held.log(id)[i]]
            0 <= i < held.log(id).len() ==> A::applied(
                states[i],
                held.log(id)[i],
                states[i + 1],
                Ok(()),
            ),
{
    let fresh = choose|fresh: A| #[trigger]
        A::fresh(id, fresh) && fresh.version_model() == 0 && crate::replay::replays(
            fresh,
            held.log(id),
            Ok(loaded),
        );
    replay_applies_every_event(fresh, held.log(id), loaded)
}

/// The snapshot-aware load takes its seed from the state of the stored snapshot and
/// replays what is stored beyond the snapshot's version; without a snapshot it replays
/// everything on a new instance. A failure of one of the reads is reported, and so is
/// a state that cannot be restored.
pub proof fn snapshotted_loading_replays_what_is_newer<
    A: Aggregate,
    S: EventStore,
    G: Fn(Value) -> Result<A, String>,
>(from_value: G, held: StoreModel, id: Seq<char>, result: Result<A, AggregateError>)
    requires
        crate::repository::loads_snapshotted::<A, S, G>(from_value, held, id, result),
    ensures
        ({
            ||| exists|error: EventStoreError| #[trigger]
                S::failed_snapshot_read(held, id, error) && result == Err::<A, AggregateError>(
                    crate::store::as_aggregate_error(error),
                )
            ||| held.snapshot(id) is None && crate::repository::loads::<A, S>(held, id, result)
            ||| held.snapshot(id) is Some && exists|answer: Result<A, String>| #[trigger]
                call_ensures(from_value, (held.snapshot(id)->Some_0.state,), answer)
                    && match answer {
                    Ok(seed) => {
                        ||| crate::replay::replays(
                            seed,
                            crate::store::tail(
                                held.log(id),
                                Some(held.snapshot(id)->Some_0.version),
                            ),
                            result,
                        )
                        ||| exists|error: EventStoreError| #[trigger]
                            S::failed_read(
                                held,
                                id,
                                Some(held.snapshot(id)->Some_0.version),
                                error,
                            ) && result == Err::<A, AggregateError>(
                                crate::store::as_aggregate_error(error),
                            )
                    },
                    Err(message) => result == Err::<A, AggregateError>(
                        AggregateError::SerializationError(message),
                    ),
                }
        }),
{
}

/// Without a snapshot, the snapshot-aware load is the full replay, unless looking for
/// the snapshot failed.
pub proof fn no_snapshot_means_full_replay<
    A: Aggregate,
    S: EventStore,
    G: Fn(Value) -> Result<A, String>,
>(from_value: G, held: StoreModel, id: Seq<char>, result: Result<A, AggregateError>)
    requires
        held.snapshot(id) is None,
    ensures
        crate::repository::loads_snapshotted::<A, S, G>(from_value, held, id, result)
            <==> crate::repository::snapshot_read_failed::<A, S>(held, id, result)
            || crate::repository::loads::<A, S>(held, id, result),
{
}

/// A snapshot-aware load counts on from the snapshot: the version is that of the
/// restored aggregate plus the number of events after the snapshot.
pub proof fn snapshotted_version_counts_on<
    A: Aggregate,
    S: EventStore,
    G: Fn(Value) -> Result<A, String>,
>(from_value: G, held: StoreModel, id: Seq<char>, snapshot: Snapshot, loaded: A)
    requires
        held.snapshot(id) == Some(snapshot),
        snapshot.version <= held.log(id).len(),
        crate::repository::loads_snapshotted::<A, S, G>(from_value, held, id, Ok(loaded)),
    ensures
        exists|seed: A| #[trigger]
            call_ensures(from_value, (snapshot.state,), Ok(seed)) && loaded.version_model()
                == seed.version_model() + (held.log(id).len() - snapshot.version),
{
    let answer = choose|answer: Result<A, String>| #[trigger]
        call_ensures(from_value, (snapshot.state,), answer) && match answer {
            Ok(seed) => {
                ||| crate::repository::read_failed::<A, S>(
                    held,
                    id,
                    Some(snapshot.version),
                    Ok(loaded),
                )
                ||| crate::replay::replays(
                    seed,
                    crate::store::tail(held.log(id), Some(snapshot.version)),
                    Ok(loaded),
                )
            },
            Err(message) => Ok::<A, AggregateError>(loaded) == Err::<A, AggregateError>(
                AggregateError::SerializationError(message),
            ),
        };
    let seed = answer->Ok_0;
    version_counts_events(
        seed,
        crate::store::tail(held.log(id), Some(snapshot.version)),
        loaded,
    );
    assert(call_ensures(from_value, (snapshot.state,), Ok(seed)));
}

/// Whether `state` restores, by `from_value`, to what the events of `log` lead a new
/// instance of `id` to.
pub open spec fn restores<A: Aggregate, G: Fn(Value) -> Result<A, String>>(
    from_value: G,
    state: Value,
    log: Seq<DomainEvent>,
    id: Seq<char>,
) -> bool {
    forall|answer: Result<A, String>| #[trigger]
        call_ensures(from_value, (state,), answer) ==> {
            &&& answer is Ok
            &&& exists|fresh: A| #[trigger]
                A::fresh(id, fresh) && fresh.version_model() == 0 && crate::replay::replays(
                    fresh,
                    log,
                    Ok(answer->Ok_0),
                )
        }
}

/// Whether the snapshot of `id`, if there is one, stands for the beginning of its
/// log: it restores to what the events up to its version lead to.
pub open spec fn faithful<A: Aggregate, G: Fn(Value) -> Result<A, String>>(
    from_value: G,
    held: StoreModel,
    id: Seq<char>,
) -> bool {
    held.snapshot(id) matches Some(snapshot) ==> {
        &&& snapshot.version <= held.log(id).len()
        &&& restores(from_value, snapshot.state, held.log(id).take(snapshot.version as int), id)
    }
}

/// Whether `result` is a failure of the store during a load of `id`, with the help of
/// its snapshot or without.
pub open spec fn loading_failed<A: Aggregate, S: EventStore>(
    held: StoreModel,
    id: Seq<char>,
    result: Result<A, AggregateError>,
) -> bool {
    ||| crate::repository::snapshot_read_failed::<A, S>(held, id, result)
    ||| exists|from: Option<u64>| #[trigger]
        crate::repository::read_failed::<A, S>(held, id, from, result)
}

/// A faithful snapshot changes nothing but the work: what the snapshot-aware load
/// gives, the full replay of the same log gives.
pub proof fn snapshotted_load_is_a_full_replay<
    A: Aggregate,
    S: EventStore,
    G: Fn(Value) -> Result<A, String>,
>(from_value: G, held: StoreModel, id: Seq<char>, result: Result<A, AggregateError>)
    requires
        faithful(from_value, held, id),
        crate::repository::loads_snapshotted::<A, S, G>(from_value, held, id, result),
        !loading_failed::<A, S>(held, id, result),
    ensures
        crate::repository::loads::<A, S>(held, id, result),
{
    if let Some(snapshot) = held.snapshot(id) {
        let log = held.log(id);
        let newer = crate::store::tail(log, Some(snapshot.version));
        assert(!crate::repository::read_failed::<A, S>(held, id, Some(snapshot.version), result));
        let answer = choose|answer: Result<A, String>| #[trigger]
            call_ensures(from_value, (snapshot.state,), answer) && match answer {
                Ok(seed) => crate::replay::replays(seed, newer, result),
                Err(message) => result == Err::<A, AggregateError>(
                    AggregateError::SerializationError(message),
                ),
            };
        let seed = answer->Ok_0;
        let older = log.take(snapshot.version as int);
        let fresh = choose|fresh: A| #[trigger]
            A::fresh(id, fresh) && fresh.version_model() == 0 && crate::replay::replays(
                fresh,
                older,
                Ok(seed),
            );
        replay_in_two_parts(fresh, older, seed, newer, result);
        a_version_splits_the_log(log, snapshot.version);
    }
}

/// With a faithful snapshot and a store that does not fail, the snapshot-aware load
/// and the full replay end in the same way, as far as any relation can tell that
/// the aggregates respect: in equal ways for a deterministic aggregate.
pub proof fn snapshotted_load_matches_full_replay<
    A: Aggregate,
    S: EventStore,
    G: Fn(Value) -> Result<A, String>,
>(
    same: spec_fn(Result<A, AggregateError>, Result<A, AggregateError>) -> bool,
    from_value: G,
    held: StoreModel,
    id: Seq<char>,
    snapshotted: Result<A, AggregateError>,
    full: Result<A, AggregateError>,
)
    requires
        consistent(same),
        faithful(from_value, held, id),
        crate::repository::loads_snapshotted::<A, S, G>(from_value, held, id, snapshotted),
        crate::repository::loads::<A, S>(held, id, full),
        !loading_failed::<A, S>(held, id, snapshotted),
        !loading_failed::<A, S>(held, id, full),
    ensures
        same(snapshotted, full),
{
    snapshotted_load_is_a_full_replay::<A, S, G>(from_value, held, id, snapshotted);
    assert(!crate::repository::read_failed::<A, S>(held, id, None, snapshotted));
    assert(!crate::repository::read_failed::<A, S>(held, id, None, full));
    let one = choose|fresh: A| #[trigger]
        A::fresh(id, fresh) && fresh.version_model() == 0 && crate::replay::replays(
            fresh,
            held.log(id),
            snapshotted,
        );
    let two = choose|fresh: A| #[trigger]
        A::fresh(id, fresh) && fresh.version_model() == 0 && crate::replay::replays(
            fresh,
            held.log(id),
            full,
        );
    assert(A::fresh(id, one) && A::fresh(id, two));
    replay_is_repeatable(same, one, two, held.log(id), snapshotted, full);
}

/// Snapshots stay faithful when events are appended, to their own log or another.
pub proof fn appending_keeps_snapshots_faithful<
    A: Aggregate,
    G: Fn(Value) -> Result<A, String>,
>(
    from_value: G,
    held: StoreModel,
    id: Seq<char>,
    target: Seq<char>,
    events: Seq<DomainEvent>,
)
    requires
        faithful(from_value, held, id),
    ensures
        faithful(from_value, held.append(target, events), id),
{
    if let Some(snapshot) = held.snapshot(id) {
        assert(held.append(target, events).log(id).take(snapshot.version as int) =~= held.log(
            id,
        ).take(snapshot.version as int));
    }
}

/// A snapshot of an aggregate that stands at the end of its log is faithful, if
/// its state restores to what the log leads to.
pub proof fn snapshots_of_saved_aggregates_are_faithful<
    A: Aggregate,
    G: Fn(Value) -> Result<A, String>,
>(from_value: G, held: StoreModel, aggregate: A, snapshot: Snapshot, state: Value)
    requires
        in_sync(held, aggregate),
        aggregate.staged_model().len() == 0,
        crate::repository::describes(snapshot, aggregate, state),
        restores(from_value, state, held.log(aggregate.id_model()), aggregate.id_model()),
    ensures
        faithful(from_value, held.put_snapshot(snapshot), aggregate.id_model()),
{
    let log = held.log(aggregate.id_model());
    assert(log.take(snapshot.version as int) =~= log);
}

// ---------------------------------------------------------------------------
// Saving
// ---------------------------------------------------------------------------

/// Whether the store holds the events that `aggregate` has applied, but for the
/// staged ones.
pub open spec fn in_sync<A: Aggregate>(held: StoreModel, aggregate: A) -> bool {
    aggregate.version_model() == held.log(aggregate.id_model()).len()
        + aggregate.staged_model().len()
}

/// A loaded aggregate is in sync with the store it came from.
pub proof fn loading_brings_in_sync<A: Aggregate, S: EventStore>(
    held: StoreModel,
    id: Seq<char>,
    loaded: A,
)
    requires
        crate::repository::loads::<A, S>(held, id, Ok(loaded)),
        loaded.id_model() == id,
        loaded.staged_model().len() == 0,
    ensures
        in_sync(held, loaded),
{
    loaded_version_is_log_length::<A, S>(held, id, loaded);
}

/// Applying an event and staging it keeps an aggregate in sync.
pub proof fn applying_and_staging_keeps_in_sync<A: Aggregate>(
    held: StoreModel,
    before: A,
    event: DomainEvent,
    applied: A,
    staged: A,
)
    requires
        in_sync(held, before),
        crate::replay::steps(before, event, applied, Ok(())),
        applied.id_model() == before.id_model(),
        applied.staged_model() == before.staged_model(),
        staged.id_model() == applied.id_model(),
        staged.version_model() == applied.version_model(),
        staged.staged_model() == applied.staged_model().push(event),
    ensures
        in_sync(held, staged),
{
}

/// An aggregate in sync has counted its staged events, and saving it expects exactly
/// what is stored.
pub proof fn in_sync_aggregates_expect_what_is_stored<A: Aggregate>(held: StoreModel, aggregate: A)
    requires
        in_sync(held, aggregate),
    ensures
        aggregate.staged_model().len() <= aggregate.version_model(),
        aggregate.staged_model().len() > 0 ==> crate::store::accepts(
            held.log(aggregate.id_model()),
            crate::repository::expected_version(aggregate),
        ),
{
}

/// Whether `result` is the failure of writing a snapshot, after the staged events of
/// `before` had been written to a store that held `pre`.
pub open spec fn snapshot_failed<A: Aggregate, S: EventStore>(
    before: A,
    pre: StoreModel,
    post: StoreModel,
    result: Result<(), AggregateError>,
) -> bool {
    exists|snapshot: Snapshot| #[trigger]
        crate::repository::snapshot_write_failed::<S>(
            snapshot,
            pre.append(before.id_model(), before.staged_model()),
            post,
            result,
        )
}

/// An aggregate in sync is never turned away: saving it raises no version conflict,
/// but for one that the store might report of a snapshot.
pub proof fn no_false_conflict<A: Aggregate, S: EventStore, F: Fn(&A) -> Result<Value, String>>(
    frequency: Option<u64>,
    snapshotter: Option<F>,
    before: A,
    after: A,
    pre: StoreModel,
    post: StoreModel,
    result: Result<(), AggregateError>,
)
    requires
        in_sync(pre, before),
        crate::repository::saves::<A, S, F>(
            frequency,
            snapshotter,
            before,
            after,
            pre,
            post,
            result,
        ),
        !snapshot_failed::<A, S>(before, pre, post, result),
    ensures
        !(result matches Err(AggregateError::VersionConflict { .. })),
{
}

/// A stale aggregate is turned away: where the log does not have the length that
/// saving expects, the answer is the conflict, with both lengths, unless the write
/// itself failed.
pub proof fn stale_save_is_rejected<
    A: Aggregate,
    S: EventStore,
    F: Fn(&A) -> Result<Value, String>,
>(
    frequency: Option<u64>,
    snapshotter: Option<F>,
    before: A,
    after: A,
    pre: StoreModel,
    post: StoreModel,
    result: Result<(), AggregateError>,
)
    requires
        crate::repository::expected_version(before) matches Some(expected) && expected != pre.log(
            before.id_model(),
        ).len(),
        crate::repository::saves::<A, S, F>(
            frequency,
            snapshotter,
            before,
            after,
            pre,
            post,
            result,
        ),
        !crate::repository::write_failed::<A, S>(before, pre, post, result),
    ensures
        result matches Err(AggregateError::VersionConflict { expected, actual }) && Some(expected)
            == crate::repository::expected_version(before) && actual == pre.log(
            before.id_model(),
        ).len(),
        after == before,
        post == pre,
{
}

/// A save that is answered with a version conflict, other than of a snapshot, changes
/// nothing: the aggregate keeps its staged events, and the store what it held.
pub proof fn rejected_saves_change_nothing<
    A: Aggregate,
    S: EventStore,
    F: Fn(&A) -> Result<Value, String>,
>(
    frequency: Option<u64>,
    snapshotter: Option<F>,
    before: A,
    after: A,
    pre: StoreModel,
    post: StoreModel,
    result: Result<(), AggregateError>,
)
    requires
        crate::repository::saves::<A, S, F>(
            frequency,
            snapshotter,
            before,
            after,
            pre,
            post,
            result,
        ),
        result matches Err(AggregateError::VersionConflict { .. }),
        !snapshot_failed::<A, S>(before, pre, post, result),
    ensures
        after == before,
        post == pre,
{
}

/// A save that succeeds stores the staged events, all of them and in order, behind
/// those that were there, and leaves none staged. Loading from the version that
/// was expected gives them back.
pub proof fn saved_events_are_read_back<
    A: Aggregate,
    S: EventStore,
    F: Fn(&A) -> Result<Value, String>,
>(
    frequency: Option<u64>,
    snapshotter: Option<F>,
    before: A,
    after: A,
    pre: StoreModel,
    post: StoreModel,
    other: Seq<char>,
)
    requires
        crate::repository::saves::<A, S, F>(
            frequency,
            snapshotter,
            before,
            after,
            pre,
            post,
            Ok(()),
        ),
    ensures
        post.log(before.id_model()) == pre.log(before.id_model()) + before.staged_model(),
        other != before.id_model() ==> post.log(other) == pre.log(other),
        after.staged_model().len() == 0,
        after.version_model() == before.version_model(),
        crate::repository::expected_version(before) matches Some(expected) ==> crate::store::tail(
            post.log(before.id_model()),
            Some(expected),
        ) == before.staged_model(),
{
    let log = pre.log(before.id_model());
    let staged = before.staged_model();
    assert(staged.len() == 0 ==> log + staged =~= log);
    assert((log + staged).skip(log.len() as int) =~= staged);
}

/// What is saved is what is loaded: where the stored events lead to one aggregate
/// and the staged events from there to another, saving makes loading give the
/// other.
pub proof fn saved_aggregates_are_loaded_back<
    A: Aggregate,
    S: EventStore,
    F: Fn(&A) -> Result<Value, String>,
>(
    frequency: Option<u64>,
    snapshotter: Option<F>,
    before: A,
    after: A,
    pre: StoreModel,
    post: StoreModel,
    base: A,
    result: Result<A, AggregateError>,
)
    requires
        crate::repository::loads::<A, S>(pre, before.id_model(), Ok(base)),
        crate::replay::replays(base, before.staged_model(), result),
        crate::repository::saves::<A, S, F>(
            frequency,
            snapshotter,
            before,
            after,
            pre,
            post,
            Ok(()),
        ),
    ensures
        crate::repository::loads::<A, S>(post, before.id_model(), result),
{
    let id = before.id_model();
    let fresh = choose|fresh: A| #[trigger]
        A::fresh(id, fresh) && fresh.version_model() == 0 && crate::replay::replays(
            fresh,
            pre.log(id),
            Ok(base),
        );
    replay_in_two_parts(fresh, pre.log(id), base, before.staged_model(), result);
    saved_events_are_read_back::<A, S, F>(
        frequency,
        snapshotter,
        before,
        after,
        pre,
        post,
        id,
    );
}

/// An aggregate in sync is in sync after it has been saved.
pub proof fn saving_keeps_in_sync<
    A: Aggregate,
    S: EventStore,
    F: Fn(&A) -> Result<Value, String>,
>(
    frequency: Option<u64>,
    snapshotter: Option<F>,
    before: A,
    after: A,
    pre: StoreModel,
    post: StoreModel,
)
    requires
        in_sync(pre, before),
        after.id_model() == before.id_model(),
        crate::repository::saves::<A, S, F>(
            frequency,
            snapshotter,
            before,
            after,
            pre,
            post,
            Ok(()),
        ),
    ensures
        in_sync(post, after),
{
    saved_events_are_read_back::<A, S, F>(
        frequency,
        snapshotter,
        before,
        after,
        pre,
        post,
        before.id_model(),
    );
}

/// Of two aggregates that were read at the same version of one log, the one that is
/// saved second is turned away, unless its write itself failed.
pub proof fn the_second_writer_is_rejected<
    A: Aggregate,
    S: EventStore,
    F: Fn(&A) -> Result<Value, String>,
>(
    frequency: Option<u64>,
    snapshotter: Option<F>,
    first: A,
    first_after: A,
    second: A,
    second_after: A,
    start: StoreModel,
    between: StoreModel,
    end: StoreModel,
    result: Result<(), AggregateError>,
)
    requires
        first.id_model() == second.id_model(),
        crate::repository::expected_version(first) is Some,
        crate::repository::expected_version(first) == crate::repository::expected_version(second),
        crate::repository::saves::<A, S, F>(
            frequency,
            snapshotter,
            first,
            first_after,
            start,
            between,
            Ok(()),
        ),
        crate::repository::saves::<A, S, F>(
            frequency,
            snapshotter,
            second,
            second_after,
            between,
            end,
            result,
        ),
        !crate::repository::write_failed::<A, S>(second, between, end, result),
    ensures
        result matches Err(AggregateError::VersionConflict { expected, actual }) && Some(expected)
            == crate::repository::expected_version(second) && actual == expected
            + first.staged_model().len(),
        second_after == second,
        end == between,
{
    saved_events_are_read_back::<A, S, F>(
        frequency,
        snapshotter,
        first,
        first_after,
        start,
        between,
        first.id_model(),
    );
    stale_save_is_rejected::<A, S, F>(
        frequency,
        snapshotter,
        second,
        second_after,
        between,
        end,
        result,
    );
}

/// A snapshot write that succeeds has stored a snapshot of the aggregate.
proof fn stored_snapshot<A: Aggregate, S: EventStore, F: Fn(&A) -> Result<Value, String>>(
    to_value: F,
    aggregate: A,
    pre: StoreModel,
    post: StoreModel,
) -> (stored: (Snapshot, Value))
    requires
        crate::repository::puts_snapshot::<A, S, F>(to_value, aggregate, pre, post, Ok(())),
    ensures
        call_ensures(to_value, (&aggregate,), Ok(stored.1)),
        crate::repository::describes(stored.0, aggregate, stored.1),
        post == pre.put_snapshot(stored.0),
{
    let answer = choose|answer: Result<Value, String>| #[trigger]
        call_ensures(to_value, (&aggregate,), answer) && match answer {
            Ok(state) => exists|snapshot: Snapshot| #[trigger]
                crate::repository::describes(snapshot, aggregate, state) && post
                    == pre.put_snapshot(snapshot),
            Err(message) => false,
        };
    let state = answer->Ok_0;
    let snapshot = choose|snapshot: Snapshot| #[trigger]
        crate::repository::describes(snapshot, aggregate, state) && post == pre.put_snapshot(
            snapshot,
        );
    (snapshot, state)
}

/// A configured frequency is honoured: a save that succeeds stores a snapshot of
/// the saved aggregate exactly if the version it has reached is a multiple of the
/// frequency, and leaves every other snapshot alone. A frequency of 0 stores none.
pub proof fn snapshots_follow_the_frequency<
    A: Aggregate,
    S: EventStore,
    F: Fn(&A) -> Result<Value, String>,
>(
    frequency: u64,
    to_value: F,
    before: A,
    after: A,
    pre: StoreModel,
    post: StoreModel,
    other: Seq<char>,
)
    requires
        before.staged_model().len() > 0,
        crate::repository::saves::<A, S, F>(
            Some(frequency),
            Some(to_value),
            before,
            after,
            pre,
            post,
            Ok(()),
        ),
    ensures
        frequency > 0 && after.version_model() % frequency == 0 ==> exists|
            snapshot: Snapshot,
            state: Value,
        | #[trigger]
            crate::repository::describes(snapshot, after, state) && call_ensures(
                to_value,
                (&after,),
                Ok(state),
            ) && post.snapshot(after.id_model()) == Some(snapshot),
        frequency == 0 || after.version_model() % frequency != 0 ==> post.snapshots
            == pre.snapshots,
        other != after.id_model() ==> post.snapshot(other) == pre.snapshot(other),
{
    let written = pre.append(before.id_model(), before.staged_model());
    if frequency > 0 && after.version_model() % frequency == 0 {
        let (snapshot, state) = stored_snapshot::<A, S, F>(to_value, after, written, post);
        assert(crate::repository::describes(snapshot, after, state));
        assert(post.snapshot(after.id_model()) == Some(snapshot));
    }
}

/// Saving keeps snapshots faithful, those it takes included, if the state that is
/// serialized restores to what the saved log leads to. So the snapshot-aware load
/// stays a full replay through any number of saves.
pub proof fn saving_keeps_snapshots_faithful<
    A: Aggregate,
    S: EventStore,
    F: Fn(&A) -> Result<Value, String>,
    G: Fn(Value) -> Result<A, String>,
>(
    from_value: G,
    frequency: Option<u64>,
    snapshotter: Option<F>,
    before: A,
    after: A,
    pre: StoreModel,
    post: StoreModel,
    id: Seq<char>,
)
    requires
        faithful(from_value, pre, id),
        in_sync(pre, before),
        after.id_model() == before.id_model(),
        crate::repository::saves::<A, S, F>(
            frequency,
            snapshotter,
            before,
            after,
            pre,
            post,
            Ok(()),
        ),
        snapshotter matches Some(to_value) ==> forall|state: Value| #[trigger]
            call_ensures(to_value, (&after,), Ok(state)) ==> restores(
                from_value,
                state,
                post.log(after.id_model()),
                after.id_model(),
            ),
    ensures
        faithful(from_value, post, id),
{
    let written = pre.append(before.id_model(), before.staged_model());
    appending_keeps_snapshots_faithful(
        from_value,
        pre,
        id,
        before.id_model(),
        before.staged_model(),
    );
    if before.staged_model().len() > 0 && snapshotter is Some && crate::repository::due(
        frequency,
        after.version_model(),
    ) {
        let (snapshot, state) = stored_snapshot::<A, S, F>(
            snapshotter->Some_0,
            after,
            written,
            post,
        );
        assert(call_ensures(snapshotter->Some_0, (&after,), Ok(state)));
        saving_keeps_in_sync::<A, S, F>(frequency, snapshotter, before, after, pre, post);
        assert(in_sync(written, after));
        snapshots_of_saved_aggregates_are_faithful(from_value, written, after, snapshot, state);
    }
}

/// Between the multiples of the frequency, saving does what it does in a repository
/// without snapshots, to the aggregate and to the store, whatever the store answers.
pub proof fn undue_saves_are_plain_saves<
    A: Aggregate,
    S: EventStore,
    F: Fn(&A) -> Result<Value, String>,
>(
    frequency: Option<u64>,
    snapshotter: Option<F>,
    before: A,
    after: A,
    pre: StoreModel,
    post: StoreModel,
    result: Result<(), AggregateError>,
)
    requires
        !crate::repository::due(frequency, before.version_model()),
    ensures
        crate::repository::saves::<A, S, F>(
            frequency,
            snapshotter,
            before,
            after,
            pre,
            post,
            result,
        ) <==> crate::repository::saves::<A, S, F>(None, None, before, after, pre, post, result),
{
}

/// Saving without staged events answers `Ok` and touches neither the aggregate nor the
/// store.
pub proof fn saving_nothing_does_nothing<
    A: Aggregate,
    S: EventStore,
    F: Fn(&A) -> Result<Value, String>,
>(
    frequency: Option<u64>,
    snapshotter: Option<F>,
    before: A,
    after: A,
    pre: StoreModel,
    post: StoreModel,
    result: Result<(), AggregateError>,
)
    requires
        before.staged_model().len() == 0,
        crate::repository::saves::<A, S, F>(
            frequency,
            snapshotter,
            before,
            after,
            pre,
            post,
            result,
        ),
    ensures
        result is Ok,
        after == before,
        post == pre,
{
}

/// Where the log has the length that the staged events start from and no snapshot is
/// due, saving succeeds: the staged events are the end of the log, nothing else has
/// changed in the store, and the aggregate has committed them. Only a failure of that
/// one write, which is then reported with everything still staged, can keep it from
/// that.
pub proof fn saving_in_time_succeeds<
    A: Aggregate,
    S: EventStore,
    F: Fn(&A) -> Result<Value, String>,
>(
    frequency: Option<u64>,
    snapshotter: Option<F>,
    before: A,
    after: A,
    pre: StoreModel,
    post: StoreModel,
    result: Result<(), AggregateError>,
    other: Seq<char>,
)
    requires
        before.staged_model().len() > 0,
        before.version_model() == pre.log(before.id_model()).len() + before.staged_model().len()
            || before.version_model() < before.staged_model().len() && pre.log(
            before.id_model(),
        ).len() == 0,
        snapshotter is None || frequency is None || frequency == Some(0u64)
            || before.version_model() % frequency->Some_0 != 0,
        crate::repository::saves::<A, S, F>(
            frequency,
            snapshotter,
            before,
            after,
            pre,
            post,
            result,
        ),
    ensures
        ({
            ||| {
                &&& result is Ok
                &&& post.log(before.id_model()) == pre.log(before.id_model())
                    + before.staged_model()
                &&& other != before.id_model() ==> post.log(other) == pre.log(other)
                &&& post.snapshot(other) == pre.snapshot(other)
                &&& A::committed(before, after)
                &&& after.staged_model().len() == 0
                &&& after.version_model() == before.version_model()
            }
            ||| after == before && exists|error: EventStoreError| #[trigger]
                S::failed_write(
                    pre,
                    before.id_model(),
                    before.staged_model(),
                    Some(pre.log(before.id_model()).len() as u64),
                    post,
                    error,
                ) && result == Err::<(), AggregateError>(
                    crate::store::as_aggregate_error(error),
                )
        }),
{
    assert(crate::repository::expected_version(before) == Some(
        pre.log(before.id_model()).len() as u64,
    ));
}

/// Where a snapshot is due as well, saving writes and commits the events in the same
/// way, and then what it does and answers is the storing of a snapshot of the
/// committed aggregate, in the store with the events.
pub proof fn saving_when_due_also_stores_a_snapshot<
    A: Aggregate,
    S: EventStore,
    F: Fn(&A) -> Result<Value, String>,
>(
    every: u64,
    to_value: F,
    before: A,
    after: A,
    pre: StoreModel,
    post: StoreModel,
    result: Result<(), AggregateError>,
)
    requires
        before.staged_model().len() > 0,
        before.version_model() == pre.log(before.id_model()).len() + before.staged_model().len()
            || before.version_model() < before.staged_model().len() && pre.log(
            before.id_model(),
        ).len() == 0,
        every > 0,
        before.version_model() % every == 0,
        crate::repository::saves::<A, S, F>(
            Some(every),
            Some(to_value),
            before,
            after,
            pre,
            post,
            result,
        ),
    ensures
        ({
            ||| {
                &&& A::committed(before, after)
                &&& after.staged_model().len() == 0
                &&& after.version_model() == before.version_model()
                &&& crate::repository::puts_snapshot::<A, S, F>(
                    to_value,
                    after,
                    pre.append(before.id_model(), before.staged_model()),
                    post,
                    result,
                )
            }
            ||| after == before && exists|error: EventStoreError| #[trigger]
                S::failed_write(
                    pre,
                    before.id_model(),
                    before.staged_model(),
                    Some(pre.log(before.id_model()).len() as u64),
                    post,
                    error,
                ) && result == Err::<(), AggregateError>(
                    crate::store::as_aggregate_error(error),
                )
        }),
{
    assert(crate::repository::expected_version(before) == Some(
        pre.log(before.id_model()).len() as u64,
    ));
}

/// Where the log has any other length, saving changes nothing and answers with the
/// conflict: the length that the staged events start from, and the one that is
/// stored. Only a failure of that one write can come instead.
pub proof fn saving_too_late_is_a_conflict<
    A: Aggregate,
    S: EventStore,
    F: Fn(&A) -> Result<Value, String>,
>(
    frequency: Option<u64>,
    snapshotter: Option<F>,
    before: A,
    after: A,
    pre: StoreModel,
    post: StoreModel,
    result: Result<(), AggregateError>,
    start: u64,
)
    requires
        before.staged_model().len() > 0,
        before.version_model() == start + before.staged_model().len() || before.version_model()
            < before.staged_model().len() && start == 0,
        pre.log(before.id_model()).len() != start,
        crate::repository::saves::<A, S, F>(
            frequency,
            snapshotter,
            before,
            after,
            pre,
            post,
            result,
        ),
    ensures
        after == before,
        ({
            ||| {
                &&& post == pre
                &&& result matches Err(AggregateError::VersionConflict { expected, actual })
                &&& expected == start
                &&& actual == pre.log(before.id_model()).len()
            }
            ||| exists|error: EventStoreError| #[trigger]
                S::failed_write(
                    pre,
                    before.id_model(),
                    before.staged_model(),
                    Some(start),
                    post,
                    error,
                ) && result == Err::<(), AggregateError>(
                    crate::store::as_aggregate_error(error),
                )
        }),
{
}

/// In the in-memory store, without snapshots, saving succeeds if and only if the log
/// has the length that the staged events start from.
pub proof fn saving_in_memory_succeeds_exactly_in_time<
    A: Aggregate,
    F: Fn(&A) -> Result<Value, String>,
>(before: A, after: A, pre: StoreModel, post: StoreModel, result: Result<(), AggregateError>)
    requires
        before.staged_model().len() > 0,
        before.version_model() >= before.staged_model().len(),
        crate::repository::saves::<A, InMemoryEventStore, F>(
            None,
            None,
            before,
            after,
            pre,
            post,
            result,
        ),
    ensures
        result is Ok <==> before.version_model() == pre.log(before.id_model()).len()
            + before.staged_model().len(),
        result is Ok ==> post.log(before.id_model()) == pre.log(before.id_model())
            + before.staged_model(),
        result is Err ==> post == pre && after == before,
{
}

/// What storing a snapshot does: the aggregate is serialized, and where that worked, the
/// store gets a snapshot of it, which takes the place of the aggregate's own and of no
/// other, or reports why it could not. No log changes.
pub proof fn storing_a_snapshot_replaces_the_last_one<
    A: Aggregate,
    S: EventStore,
    F: Fn(&A) -> Result<Value, String>,
>(
    to_value: F,
    aggregate: A,
    pre: StoreModel,
    post: StoreModel,
    result: Result<(), AggregateError>,
)
    requires
        crate::repository::puts_snapshot::<A, S, F>(to_value, aggregate, pre, post, result),
    ensures
        exists|answer: Result<Value, String>| #[trigger]
            call_ensures(to_value, (&aggregate,), answer) && match answer {
                Ok(state) => exists|snapshot: Snapshot| #[trigger]
                    crate::repository::describes(snapshot, aggregate, state) && {
                        ||| {
                            &&& result is Ok
                            &&& post.snapshot(aggregate.id_model()) == Some(snapshot)
                            &&& forall|other: Seq<char>|
                                other != aggregate.id_model() ==> #[trigger] post.snapshot(other)
                                    == pre.snapshot(other)
                            &&& forall|id: Seq<char>| #[trigger] post.log(id) == pre.log(id)
                        }
                        ||| exists|error: EventStoreError| #[trigger]
                            S::failed_snapshot_write(pre, snapshot, post, error) && result == Err::<
                                (),
                                AggregateError,
                            >(crate::store::as_aggregate_error(error))
                    },
                Err(message) => {
                    &&& result == Err::<(), AggregateError>(
                        AggregateError::SerializationError(message),
                    )
                    &&& post == pre
                },
            },
{
    let answer = choose|answer: Result<Value, String>| #[trigger]
        call_ensures(to_value, (&aggregate,), answer) && match answer {
            Ok(state) => exists|snapshot: Snapshot| #[trigger]
                crate::repository::describes(snapshot, aggregate, state) && {
                    ||| result is Ok && post == pre.put_snapshot(snapshot)
                    ||| crate::repository::snapshot_write_failed::<S>(snapshot, pre, post, result)
                },
            Err(message) => {
                &&& result == Err::<(), AggregateError>(AggregateError::SerializationError(message))
                &&& post == pre
            },
        };
    if let Ok(state) = answer {
        let snapshot = choose|snapshot: Snapshot| #[trigger]
            crate::repository::describes(snapshot, aggregate, state) && {
                ||| result is Ok && post == pre.put_snapshot(snapshot)
                ||| crate::repository::snapshot_write_failed::<S>(snapshot, pre, post, result)
            };
        assert(crate::repository::describes(snapshot, aggregate, state));
    }
    assert(call_ensures(to_value, (&aggregate,), answer));
}

/// A snapshot of an aggregate carries the aggregate's identifier, type and version and
/// the serialized state, and a moment that the clock gave.
pub proof fn snapshots_tell_what_they_are_of<A: Aggregate>(
    snapshot: Snapshot,
    aggregate: A,
    state: Value,
)
    requires
        crate::repository::describes(snapshot, aggregate, state),
    ensures
        snapshot.aggregate_id@ == aggregate.id_model(),
        snapshot.aggregate_type@ == A::type_model(),
        snapshot.version == aggregate.version_model(),
        snapshot.state == state,
        snapshot.timestamp.is_clock_reading(),
        0 <= snapshot.timestamp.seconds && snapshot.timestamp.nanos < 1_000_000_000,
{
}

/// The moment of a snapshot is what a call of the system clock gave, and no other
/// moment, however plausible.
pub(crate) proof fn snapshots_carry_a_reading_of_the_clock<A: Aggregate>(
    snapshot: Snapshot,
    aggregate: A,
    state: Value,
)
    requires
        crate::repository::describes(snapshot, aggregate, state),
    ensures
        call_ensures(crate::aggregate::Timestamp::now, (), snapshot.timestamp),
{
    crate::aggregate::readings_come_from_the_clock(snapshot.timestamp);
}

/// What saving expects and what is staged add up to the version; an aggregate that has
/// not counted its staged events expects an empty log. Nothing staged expects nothing.
pub proof fn expectation_and_staged_events_make_the_version<A: Aggregate>(aggregate: A)
    ensures
        crate::repository::expected_version(aggregate) is None
            <==> aggregate.staged_model().len() == 0,
        crate::repository::expected_version(aggregate) matches Some(expected) ==> {
            if aggregate.staged_model().len() <= aggregate.version_model() {
                expected + aggregate.staged_model().len() == aggregate.version_model()
            } else {
                expected == 0
            }
        },
{
}

/// Snapshots fall due at version 0 and from then on every `every` versions, at the
/// multiples and nowhere between; without a frequency, or with 0, never.
pub proof fn snapshots_fall_due_at_the_multiples(every: u64, version: u64, later: u64, times: nat)
    ensures
        !crate::repository::due(None, version),
        !crate::repository::due(Some(0), version),
        every > 0 ==> crate::repository::due(Some(every), 0),
        0 < version < every ==> !crate::repository::due(Some(every), version),
        later == version + every ==> (crate::repository::due(Some(every), later)
            <==> crate::repository::due(Some(every), version)),
        every > 0 && version == times * every ==> crate::repository::due(Some(every), version),
{
    if every > 0 {
        let (e, v) = (every as int, version as int);
        vstd::arithmetic::div_mod::lemma_mod_self_0(e);
        vstd::arithmetic::div_mod::lemma_mod_multiples_basic(times as int, e);
        vstd::arithmetic::div_mod::lemma_mod_add_multiples_vanish(v, e);
        if version < every {
            vstd::arithmetic::div_mod::lemma_small_mod(version as nat, every as nat);
        }
        vstd::arithmetic::div_mod::lemma_small_mod(0, every as nat);
    }
}

/// A frequency of 0 is no frequency: saving does what it does in a repository without
/// snapshots, to the aggregate and to the store, whatever the store answers.
pub proof fn frequency_zero_is_no_snapshotting<
    A: Aggregate,
    S: EventStore,
    F: Fn(&A) -> Result<Value, String>,
>(
    to_value: F,
    before: A,
    after: A,
    pre: StoreModel,
    post: StoreModel,
    result: Result<(), AggregateError>,
)
    ensures
        crate::repository::saves::<A, S, F>(
            Some(0),
            Some(to_value),
            before,
            after,
            pre,
            post,
            result,
        ) <==> crate::repository::saves::<A, S, F>(None, None, before, after, pre, post, result),
{
}

/// Without a configured frequency, saving never touches a snapshot: it leaves them all
/// as they were, or, where the one write failed, as that write left them.
pub proof fn no_frequency_means_no_snapshots<
    A: Aggregate,
    S: EventStore,
    F: Fn(&A) -> Result<Value, String>,
>(
    snapshotter: Option<F>,
    before: A,
    after: A,
    pre: StoreModel,
    post: StoreModel,
    result: Result<(), AggregateError>,
)
    requires
        crate::repository::saves::<A, S, F>(None, snapshotter, before, after, pre, post, result),
    ensures
        post.snapshots == pre.snapshots || crate::repository::write_failed::<A, S>(
            before,
            pre,
            post,
            result,
        ),
{
}

/// After a failed write nothing more is tried: the events are still staged, and the
/// store holds what that write left.
pub proof fn a_failed_write_is_the_last_one<
    A: Aggregate,
    S: EventStore,
    F: Fn(&A) -> Result<Value, String>,
>(
    frequency: Option<u64>,
    snapshotter: Option<F>,
    before: A,
    after: A,
    pre: StoreModel,
    post: StoreModel,
    result: Result<(), AggregateError>,
)
    requires
        crate::repository::saves::<A, S, F>(
            frequency,
            snapshotter,
            before,
            after,
            pre,
            post,
            result,
        ),
        result is Err,
        after.staged_model().len() > 0,
    ensures
        after == before,
        post == pre && result matches Err(AggregateError::VersionConflict { .. })
            || crate::repository::write_failed::<A, S>(before, pre, post, result),
{
}

/// A clone is as good as the repository it was cloned from. On one store it saves in
/// exactly the same way, whatever comes of it, and what is saved through either of
/// them is loaded through the other.
pub proof fn clones_share_a_store<
    A: Aggregate,
    S: EventStore,
    F: Fn(&A) -> Result<Value, String>,
>(
    one: crate::repository::AggregateRepository<A, F>,
    clone: crate::repository::AggregateRepository<A, F>,
    before: A,
    after: A,
    pre: StoreModel,
    post: StoreModel,
    saved: Result<(), AggregateError>,
    base: A,
    loaded: Result<A, AggregateError>,
)
    requires
        clone.frequency() == one.frequency(),
        clone.serializer() == one.serializer(),
    ensures
        clone.wf() == one.wf(),
        crate::repository::saves::<A, S, F>(
            clone.frequency(),
            clone.serializer(),
            before,
            after,
            pre,
            post,
            saved,
        ) <==> crate::repository::saves::<A, S, F>(
            one.frequency(),
            one.serializer(),
            before,
            after,
            pre,
            post,
            saved,
        ),
        crate::repository::saves::<A, S, F>(
            clone.frequency(),
            clone.serializer(),
            before,
            after,
            pre,
            post,
            saved,
        ) && saved is Ok && crate::repository::loads::<A, S>(pre, before.id_model(), Ok(base))
            && crate::replay::replays(base, before.staged_model(), loaded)
            ==> crate::repository::loads::<A, S>(post, before.id_model(), loaded),
{
    if crate::repository::saves::<A, S, F>(
        clone.frequency(),
        clone.serializer(),
        before,
        after,
        pre,
        post,
        saved,
    ) && saved is Ok && crate::repository::loads::<A, S>(pre, before.id_model(), Ok(base))
        && crate::replay::replays(base, before.staged_model(), loaded) {
        saved_aggregates_are_loaded_back::<A, S, F>(
            clone.frequency(),
            clone.serializer(),
            before,
            after,
            pre,
            post,
            base,
            loaded,
        );
    }
}

// ---------------------------------------------------------------------------
// Errors
// ---------------------------------------------------------------------------

/// The caller of the repository gets what the store or the serializer gave, or its
/// error: a conflict with both numbers, an unknown aggregate, a serialization error or
/// a failure of the backend with the words that came with it.
pub proof fn answers_reach_the_caller<T>(value: T, expected: u64, actual: u64, words: String)
    ensures
        crate::repository::lifted(Ok::<T, EventStoreError>(value)) == Ok::<T, AggregateError>(
            value,
        ),
        crate::repository::lifted(
            Err::<T, EventStoreError>(EventStoreError::VersionConflict { expected, actual }),
        ) == Err::<T, AggregateError>(AggregateError::VersionConflict { expected, actual }),
        crate::repository::lifted(Err::<T, EventStoreError>(EventStoreError::NotFound(words)))
            == Err::<T, AggregateError>(AggregateError::NotFound(words)),
        crate::repository::lifted(
            Err::<T, EventStoreError>(EventStoreError::SerializationError(words)),
        ) == Err::<T, AggregateError>(AggregateError::SerializationError(words)),
        crate::repository::lifted(Err::<T, EventStoreError>(EventStoreError::StorageError(words)))
            == Err::<T, AggregateError>(AggregateError::EventApplicationFailed(words)),
        crate::repository::coded(Ok::<T, String>(value)) == Ok::<T, AggregateError>(value),
        crate::repository::coded(Err::<T, String>(words)) == Err::<T, AggregateError>(
            AggregateError::SerializationError(words),
        ),
{
}

/// Converting a store error gives what the repository reports for it.
pub proof fn converted_errors_are_the_reported_ones<T>(error: EventStoreError)
    ensures
        <AggregateError as vstd::std_specs::convert::FromSpec<EventStoreError>>::obeys_from_spec(),
        crate::repository::lifted(Err::<T, EventStoreError>(error)) == Err::<T, AggregateError>(
            <AggregateError as vstd::std_specs::convert::FromSpec<EventStoreError>>::from_spec(
                error,
            ),
        ),
        crate::store::as_aggregate_error(error) == <AggregateError as vstd::std_specs::convert::FromSpec<
            EventStoreError,
        >>::from_spec(error),
{
}

/// A message is a label that says what kind of error it is, followed by the words or
/// the numbers of the error.
pub proof fn messages_label_the_words(words: String, expected: u64, actual: u64)
    ensures
        AggregateError::EventApplicationFailed(words).message_text() == "Event application failed: "@
            + words@,
        AggregateError::InvalidStateTransition(words).message_text() == "Invalid state transition: "@
            + words@,
        AggregateError::NotFound(words).message_text() == "Aggregate not found: "@ + words@,
        AggregateError::SerializationError(words).message_text() == "Serialization error: "@
            + words@,
        EventStoreError::StorageError(words).message_text() == "Storage error: "@ + words@,
        EventStoreError::SerializationError(words).message_text() == "Serialization error: "@
            + words@,
        EventStoreError::NotFound(words).message_text() == "Aggregate not found: "@ + words@,
        (AggregateError::VersionConflict { expected, actual }).message_text()
            == "Version conflict: expected "@ + crate::text::decimal(expected as nat) + ", got "@
            + crate::text::decimal(actual as nat),
        (EventStoreError::VersionConflict { expected, actual }).message_text()
            == "Version conflict: expected "@ + crate::text::decimal(expected as nat) + ", got "@
            + crate::text::decimal(actual as nat),
{
}

/// A number below ten is written as its digit, and any other as the number without its
/// last digit, followed by that digit.
pub proof fn decimals_grow_digit_by_digit(n: nat, d: nat)
    requires
        d < 10,
    ensures
        crate::text::decimal(d) == seq![('0' as int + d) as char],
        n > 0 ==> crate::text::decimal(10 * n + d) == crate::text::decimal(n).push(
            ('0' as int + d) as char,
        ),
{
    if n > 0 {
        assert((10 * n + d) / 10 == n && (10 * n + d) % 10 == d);
    }
}

/// No information is lost between a store and the caller of the repository: different
/// store errors become different aggregate errors, and all but storage errors read
/// the same.
pub proof fn store_errors_keep_their_meaning(one: EventStoreError, two: EventStoreError)
    ensures
        crate::store::as_aggregate_error(one) == crate::store::as_aggregate_error(two) ==> one
            == two,
        !(one is StorageError) ==> crate::store::as_aggregate_error(one).message_text()
            == one.message_text(),
{
}

} // verus!
