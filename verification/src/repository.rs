//! Aggregate repository
//!
//! The repository is built from decisions that take what came back from a store
//! or a serializer as an argument. They are public, so that a caller that has to
//! wait for its store can take the same decisions between its own calls.

use crate::aggregate::{Aggregate, AggregateError, Snapshot};
use crate::event::DomainEvent;
use crate::replay::replay;
use crate::store::{EventStore, EventStoreError};
use serde_json::Value;
use std::marker::PhantomData;
use vstd::prelude::*;

verus! {

/// The version an aggregate had before its staged events were applied.
pub open spec fn base_version(version: u64, staged: nat) -> u64 {
    if staged <= version {
        (version - staged) as u64
    } else {
        0
    }
}

/// The number of stored events that saving `aggregate` expects; none where there
/// is nothing to save.
pub open spec fn expected_version<A: Aggregate>(aggregate: A) -> Option<u64> {
    if aggregate.staged_model().len() == 0 {
        None
    } else {
        Some(base_version(aggregate.version_model(), aggregate.staged_model().len()))
    }
}

/// Whether a snapshot falls due at `version`.
pub open spec fn due(frequency: Option<u64>, version: u64) -> bool {
    frequency matches Some(every) && every > 0 && version % every == 0
}

/// Whether `snapshot` is a snapshot of `aggregate` with the serialized `state`, taken
/// at a moment that was read from the clock.
pub open spec fn describes<A: Aggregate>(snapshot: Snapshot, aggregate: A, state: Value) -> bool {
    &&& snapshot.aggregate_id@ == aggregate.id_model()
    &&& snapshot.aggregate_type@ == A::type_model()
    &&& snapshot.version == aggregate.version_model()
    &&& snapshot.state == state
    &&& snapshot.timestamp.is_clock_reading()
    &&& snapshot.timestamp.seconds >= 0
    &&& snapshot.timestamp.nanos < 1_000_000_000
}

/// What a store's answer means to the caller of the repository.
pub open spec fn lifted<T>(answer: Result<T, EventStoreError>) -> Result<T, AggregateError> {
    match answer {
        Ok(value) => Ok(value),
        Err(error) => Err(crate::store::as_aggregate_error(error)),
    }
}

/// What a serializer's answer means to the caller of the repository.
pub open spec fn coded<T>(answer: Result<T, String>) -> Result<T, AggregateError> {
    match answer {
        Ok(value) => Ok(value),
        Err(message) => Err(AggregateError::SerializationError(message)),
    }
}

/// Whether the version of `aggregate` leaves room for its staged events, as it does
/// if each of them has advanced it. An aggregate of which this is not so has broken
/// the invariant of [`Aggregate::version`].
pub fn counts_staged<A: Aggregate>(aggregate: &A) -> (result: bool)
    ensures
        result == (aggregate.staged_model().len() <= aggregate.version_model()),
{
    aggregate.uncommitted_events().len() as u64 <= aggregate.version()
}

/// The expected version to save `aggregate` with, or `None` where it has nothing
/// staged.
///
/// The staged events have already been applied, so the store is expected to hold
/// the events before them: the version less the number of staged events, and not
/// less than zero for an aggregate that has not counted them.
pub fn plan_save<A: Aggregate>(aggregate: &A) -> (expected: Option<u64>)
    ensures
        expected == expected_version(*aggregate),
{
    let events = aggregate.uncommitted_events();
    if events.len() == 0 {
        return None;
    }
    Some(aggregate.version().saturating_sub(events.len() as u64))
}

/// Settles the staged events of `aggregate` once the store has answered: they are
/// committed if they were written, and stay staged otherwise.
pub fn confirm_save<A: Aggregate>(
    aggregate: &mut A,
    written: Result<(), EventStoreError>,
) -> (result: Result<(), AggregateError>)
    ensures
        result == lifted(written),
        match written {
            Ok(_) => {
                &&& A::committed(*old(aggregate), *final(aggregate))
                &&& final(aggregate).staged_model().len() == 0
                &&& final(aggregate).version_model() == old(aggregate).version_model()
            },
            Err(_) => *final(aggregate) == *old(aggregate),
        },
{
    match written {
        Ok(done) => {
            aggregate.mark_events_committed();
            Ok(done)
        },
        Err(error) => Err(AggregateError::from(error)),
    }
}

/// Whether a snapshot falls due at `version`, for snapshots every `frequency`
/// versions. A frequency of 0 disables snapshotting.
pub fn snapshot_due(frequency: Option<u64>, version: u64) -> (result: bool)
    ensures
        result == due(frequency, version),
{
    match frequency {
        Some(every) => every > 0 && version % every == 0,
        None => false,
    }
}

/// Takes a store's answer to the caller of the repository.
pub fn lift<T>(answer: Result<T, EventStoreError>) -> (result: Result<T, AggregateError>)
    ensures
        result == lifted(answer),
{
    match answer {
        Ok(value) => Ok(value),
        Err(error) => Err(AggregateError::from(error)),
    }
}

/// Takes a serializer's answer to the caller of the repository.
pub fn lift_coded<T>(answer: Result<T, String>) -> (result: Result<T, AggregateError>)
    ensures
        result == coded(answer),
{
    match answer {
        Ok(value) => Ok(value),
        Err(message) => Err(AggregateError::SerializationError(message)),
    }
}

/// The snapshot of `aggregate`, taken now, with its serialized `state`.
pub fn describe<A: Aggregate>(aggregate: &A, state: Value) -> (snapshot: Snapshot)
    ensures
        describes(snapshot, *aggregate, state),
{
    Snapshot::new(
        aggregate.aggregate_id().to_string(),
        A::aggregate_type().to_string(),
        aggregate.version(),
        state,
    )
}

/// Brings `seed` up to date with the events that the store has answered with.
pub fn rebuild<A: Aggregate>(
    seed: A,
    events: Result<Vec<DomainEvent>, EventStoreError>,
) -> (result: Result<A, AggregateError>)
    ensures
        match events {
            Ok(events) => crate::replay::replays(seed, events@, result),
            Err(error) => result == Err::<A, AggregateError>(
                crate::store::as_aggregate_error(error),
            ),
        },
{
    match events {
        Ok(events) => replay(seed, events.as_slice()),
        Err(error) => Err(AggregateError::from(error)),
    }
}

/// Serializes an aggregate into the JSON payload stored in a [`Snapshot`].
pub fn serialize_aggregate<A: Aggregate, F: Fn(&A) -> Result<Value, String>>(
    aggregate: &A,
    to_value: &F,
) -> (result: Result<Value, AggregateError>)
    requires
        call_requires(*to_value, (aggregate,)),
    ensures
        exists|answer: Result<Value, String>| #[trigger]
            call_ensures(*to_value, (aggregate,), answer) && result == coded(answer),
{
    let answer = to_value(aggregate);
    lift_coded(answer)
}

/// Whether `result` is the failure of reading the log of `id` from a store that
/// holds `held`.
pub open spec fn read_failed<A: Aggregate, S: EventStore>(
    held: crate::store::StoreModel,
    id: Seq<char>,
    from: Option<u64>,
    result: Result<A, AggregateError>,
) -> bool {
    exists|error: EventStoreError| #[trigger]
        S::failed_read(held, id, from, error) && result == Err::<A, AggregateError>(
            crate::store::as_aggregate_error(error),
        )
}

/// Whether `result` is the failure of reading the snapshot of `id` from a store that
/// holds `held`.
pub open spec fn snapshot_read_failed<A: Aggregate, S: EventStore>(
    held: crate::store::StoreModel,
    id: Seq<char>,
    result: Result<A, AggregateError>,
) -> bool {
    exists|error: EventStoreError| #[trigger]
        S::failed_snapshot_read(held, id, error) && result == Err::<A, AggregateError>(
            crate::store::as_aggregate_error(error),
        )
}

/// Whether `result` is the failure, other than for a stale version, of the one write
/// that saving `before` takes, made while the store held `pre` and leaving it with
/// `post`.
pub open spec fn write_failed<A: Aggregate, S: EventStore>(
    before: A,
    pre: crate::store::StoreModel,
    post: crate::store::StoreModel,
    result: Result<(), AggregateError>,
) -> bool {
    &&& expected_version(before) is Some
    &&& exists|error: EventStoreError| #[trigger]
        S::failed_write(
            pre,
            before.id_model(),
            before.staged_model(),
            expected_version(before),
            post,
            error,
        ) && !(error is VersionConflict) && result == Err::<(), AggregateError>(
            crate::store::as_aggregate_error(error),
        )
}

/// Whether `result` is the failure of writing `snapshot`, made while the store held
/// `pre` and leaving it with `post`.
pub open spec fn snapshot_write_failed<S: EventStore>(
    snapshot: Snapshot,
    pre: crate::store::StoreModel,
    post: crate::store::StoreModel,
    result: Result<(), AggregateError>,
) -> bool {
    exists|error: EventStoreError| #[trigger]
        S::failed_snapshot_write(pre, snapshot, post, error) && result == Err::<
            (),
            AggregateError,
        >(crate::store::as_aggregate_error(error))
}

/// Whether loading `id` from a store that holds `held` may end in `result`.
pub open spec fn loads<A: Aggregate, S: EventStore>(
    held: crate::store::StoreModel,
    id: Seq<char>,
    result: Result<A, AggregateError>,
) -> bool {
    ||| read_failed::<A, S>(held, id, None, result)
    ||| exists|fresh: A| #[trigger]
        A::fresh(id, fresh) && fresh.version_model() == 0 && crate::replay::replays(
            fresh,
            held.log(id),
            result,
        )
}

/// Whether loading `id` with the help of its snapshot, from a store that holds
/// `held`, may end in `result`.
pub open spec fn loads_snapshotted<A: Aggregate, S: EventStore, G: Fn(Value) -> Result<A, String>>(
    from_value: G,
    held: crate::store::StoreModel,
    id: Seq<char>,
    result: Result<A, AggregateError>,
) -> bool {
    ||| snapshot_read_failed::<A, S>(held, id, result)
    ||| match held.snapshot(id) {
        None => loads::<A, S>(held, id, result),
        Some(snapshot) => exists|answer: Result<A, String>| #[trigger]
            call_ensures(from_value, (snapshot.state,), answer) && match answer {
                Ok(seed) => {
                    ||| read_failed::<A, S>(held, id, Some(snapshot.version), result)
                    ||| crate::replay::replays(
                        seed,
                        crate::store::tail(held.log(id), Some(snapshot.version)),
                        result,
                    )
                },
                Err(message) => result == Err::<A, AggregateError>(
                    AggregateError::SerializationError(message),
                ),
            },
    }
}

/// Whether storing a snapshot of `aggregate` may take a store from `pre` to `post`
/// with the answer `result`: the aggregate is serialized and the snapshot handed to
/// the store, once, and nothing else is.
pub open spec fn puts_snapshot<A: Aggregate, S: EventStore, F: Fn(&A) -> Result<Value, String>>(
    to_value: F,
    aggregate: A,
    pre: crate::store::StoreModel,
    post: crate::store::StoreModel,
    result: Result<(), AggregateError>,
) -> bool {
    exists|answer: Result<Value, String>| #[trigger]
        call_ensures(to_value, (&aggregate,), answer) && match answer {
            Ok(state) => exists|snapshot: Snapshot| #[trigger]
                describes(snapshot, aggregate, state) && {
                    ||| result is Ok && post == pre.put_snapshot(snapshot)
                    ||| snapshot_write_failed::<S>(snapshot, pre, post, result)
                },
            Err(message) => {
                &&& result == Err::<(), AggregateError>(AggregateError::SerializationError(message))
                &&& post == pre
            },
        }
}

/// Whether saving may take an aggregate from `before` to `after` and a store from
/// `pre` to `post` with the answer `result`.
pub open spec fn saves<A: Aggregate, S: EventStore, F: Fn(&A) -> Result<Value, String>>(
    frequency: Option<u64>,
    snapshotter: Option<F>,
    before: A,
    after: A,
    pre: crate::store::StoreModel,
    post: crate::store::StoreModel,
    result: Result<(), AggregateError>,
) -> bool {
    let log = pre.log(before.id_model());
    let written = pre.append(before.id_model(), before.staged_model());
    match expected_version(before) {
        // Nothing staged: nothing happens.
        None => result is Ok && after == before && post == pre,
        Some(expected) => {
            // The store failed to write: the events stay staged, and no more is tried.
            ||| after == before && write_failed::<A, S>(before, pre, post, result)
            // The expectation was stale: the same, and the store is as it was.
            ||| {
                &&& expected != log.len()
                &&& after == before
                &&& post == pre
                &&& result matches Err(AggregateError::VersionConflict { expected: e, actual })
                &&& e == expected
                &&& actual == log.len()
            }
            // The events are written and committed, and then a snapshot is taken if
            // one is due.
            ||| {
                &&& expected == log.len()
                &&& A::committed(before, after)
                &&& after.staged_model().len() == 0
                &&& after.version_model() == before.version_model()
                &&& match snapshotter {
                    Some(to_value) if due(frequency, after.version_model()) => puts_snapshot::<
                        A,
                        S,
                        F,
                    >(to_value, after, written, post, result),
                    _ => result is Ok && post == written,
                }
            }
        },
    }
}

/// Aggregate repository
///
/// Provides load/save operations for aggregates with event sourcing.
///
/// A repository is how to load and save. The store is handed to each call, so any
/// number of repositories, clones among them, can work on one store, and each sees
/// what the others have saved.
///
/// The ability to take snapshots is captured at construction time by
/// [`AggregateRepository::with_snapshots`], as a function that serializes an
/// aggregate and says in words why it could not.
pub struct AggregateRepository<A, F> where A: Aggregate, F: Fn(&A) -> Result<Value, String> {
    snapshot_frequency: Option<u64>,
    snapshotter: Option<F>,
    _phantom: PhantomData<A>,
}

impl<A, F> AggregateRepository<A, F> where A: Aggregate, F: Fn(&A) -> Result<Value, String> {
    /// The number of versions between snapshots, where one is configured.
    pub closed spec fn frequency(&self) -> Option<u64> {
        self.snapshot_frequency
    }

    /// The function that serializes aggregates, where there is one.
    pub closed spec fn serializer(&self) -> Option<F> {
        self.snapshotter
    }

    /// Whether the repository is well formed: its serializer takes every aggregate,
    /// and it has one if snapshots are configured, so that a configured frequency is
    /// never ignored.
    pub open spec fn wf(&self) -> bool {
        &&& self.frequency() is Some ==> self.serializer() is Some
        &&& self.serializer() matches Some(to_value) ==> forall|aggregate: A| #[trigger]
            call_requires(to_value, (&aggregate,))
    }

    /// Create new repository
    ///
    /// Snapshotting is disabled; use [`AggregateRepository::with_snapshots`] to
    /// enable it.
    pub fn new() -> (repository: Self)
        ensures
            repository.wf(),
            repository.frequency() is None,
            repository.serializer() is None,
    {
        AggregateRepository {
            snapshot_frequency: None,
            snapshotter: None,
            _phantom: PhantomData,
        }
    }

    /// Create repository with snapshotting every `frequency` versions.
    ///
    /// [`AggregateRepository::save`] persists a snapshot whenever the aggregate's
    /// version is a multiple of `frequency`. A `frequency` of 0 disables
    /// snapshotting.
    pub fn with_snapshots(frequency: u64, to_value: F) -> (repository: Self)
        requires
            forall|aggregate: A| #[trigger] call_requires(to_value, (&aggregate,)),
        ensures
            repository.wf(),
            repository.frequency() == Some(frequency),
            repository.serializer() == Some(to_value),
    {
        AggregateRepository {
            snapshot_frequency: Some(frequency),
            snapshotter: Some(to_value),
            _phantom: PhantomData,
        }
    }

    /// Load aggregate by ID
    pub fn load<S: EventStore>(&self, store: &S, aggregate_id: &str) -> (result: Result<
        A,
        AggregateError,
    >)
        requires
            store.inv(),
        ensures
            loads::<A, S>(store.model(), aggregate_id@, result),
    {
        // Create new aggregate instance
        let aggregate = A::new_instance(aggregate_id.to_string());

        // Load and apply all events
        let events = store.load_events(aggregate_id, None);
        rebuild(aggregate, events)
    }

    /// Save aggregate
    ///
    /// Relies on the [`Aggregate::version`] invariant: the version advances by
    /// exactly one per applied event. ([`counts_staged`] tests what can be seen of
    /// it.) A snapshot is persisted whenever the resulting version is a multiple of
    /// the frequency configured via [`AggregateRepository::with_snapshots`].
    pub fn save<S: EventStore>(&self, store: &mut S, aggregate: &mut A) -> (result: Result<
        (),
        AggregateError,
    >)
        requires
            self.wf(),
            old(store).inv(),
        ensures
            final(store).inv(),
            saves::<A, S, F>(
                self.frequency(),
                self.serializer(),
                *old(aggregate),
                *final(aggregate),
                old(store).model(),
                final(store).model(),
                result,
            ),
    {
        let expected = match plan_save(&*aggregate) {
            Some(expected) => expected,
            None => {
                return Ok(());
            },
        };

        // Save events with optimistic concurrency
        let written = store.save_events(
            aggregate.aggregate_id(),
            aggregate.uncommitted_events(),
            Some(expected),
        );

        // Mark events as committed
        match confirm_save(aggregate, written) {
            Ok(_) => {},
            Err(error) => {
                return Err(error);
            },
        }

        // Check if we should create a snapshot
        if snapshot_due(self.snapshot_frequency, aggregate.version()) {
            return self.create_snapshot(store, &*aggregate);
        }
        Ok(())
    }

    /// Persist a snapshot of the aggregate's current state.
    ///
    /// A repository built with [`AggregateRepository::new`] has no serializer and
    /// this is a no-op.
    fn create_snapshot<S: EventStore>(&self, store: &mut S, aggregate: &A) -> (result: Result<
        (),
        AggregateError,
    >)
        requires
            self.wf(),
            old(store).inv(),
        ensures
            final(store).inv(),
            match self.serializer() {
                Some(to_value) => puts_snapshot::<A, S, F>(
                    to_value,
                    *aggregate,
                    old(store).model(),
                    final(store).model(),
                    result,
                ),
                None => result is Ok && *final(store) == *old(store),
            },
    {
        let serialized = match &self.snapshotter {
            Some(to_value) => serialize_aggregate(aggregate, to_value),
            None => {
                return Ok(());
            },
        };
        let state = match serialized {
            Ok(state) => state,
            Err(error) => {
                return Err(error);
            },
        };
        let snapshot = describe(aggregate, state);
        lift(store.save_snapshot(&snapshot))
    }

    /// Snapshot-aware load.
    ///
    /// Loads the latest snapshot (if any), rehydrates the aggregate from it by
    /// `from_value`, then applies only the events recorded *after* the snapshot
    /// version. When no snapshot exists this falls back to a full replay identical
    /// to [`AggregateRepository::load`].
    pub fn load_snapshotted<S: EventStore, G: Fn(Value) -> Result<A, String>>(
        &self,
        store: &S,
        aggregate_id: &str,
        from_value: G,
    ) -> (result: Result<A, AggregateError>)
        requires
            store.inv(),
            forall|state: Value| #[trigger] call_requires(from_value, (state,)),
        ensures
            loads_snapshotted::<A, S, G>(from_value, store.model(), aggregate_id@, result),
    {
        match lift(store.load_snapshot(aggregate_id)) {
            Ok(Some(snapshot)) => {
                // Seed the aggregate from the persisted snapshot state.
                match lift_coded(from_value(snapshot.state.clone())) {
                    Ok(aggregate) => {
                        // Apply only events newer than the snapshot version.
                        let events = store.load_events(aggregate_id, Some(snapshot.version));
                        rebuild(aggregate, events)
                    },
                    Err(error) => Err(error),
                }
            },
            Ok(None) => self.load(store, aggregate_id),
            Err(error) => Err(error),
        }
    }

    /// Persist a snapshot of the aggregate's current state.
    ///
    /// Serializes the whole aggregate by `to_value` and stores the result tagged
    /// with the aggregate's current version, whether or not the repository takes
    /// snapshots by itself.
    pub fn save_snapshot<S: EventStore, G: Fn(&A) -> Result<Value, String>>(
        &self,
        store: &mut S,
        aggregate: &A,
        to_value: G,
    ) -> (result: Result<(), AggregateError>)
        requires
            old(store).inv(),
            call_requires(to_value, (aggregate,)),
        ensures
            final(store).inv(),
            puts_snapshot::<A, S, G>(
                to_value,
                *aggregate,
                old(store).model(),
                final(store).model(),
                result,
            ),
    {
        let state = match serialize_aggregate(aggregate, &to_value) {
            Ok(state) => state,
            Err(error) => {
                return Err(error);
            },
        };
        let snapshot = describe(aggregate, state);
        lift(store.save_snapshot(&snapshot))
    }

    /// Alias for [`AggregateRepository::save`].
    pub fn save_with_snapshot<S: EventStore>(
        &self,
        store: &mut S,
        aggregate: &mut A,
    ) -> (result: Result<(), AggregateError>)
        requires
            self.wf(),
            old(store).inv(),
        ensures
            final(store).inv(),
            saves::<A, S, F>(
                self.frequency(),
                self.serializer(),
                *old(aggregate),
                *final(aggregate),
                old(store).model(),
                final(store).model(),
                result,
            ),
    {
        self.save(store, aggregate)
    }
}

impl<A, F> Clone for AggregateRepository<A, F> where
    A: Aggregate,
    F: Fn(&A) -> Result<Value, String> + Copy,
 {
    /// A repository that loads and saves in the same way.
    fn clone(&self) -> (repository: Self)
        ensures
            repository.frequency() == self.frequency(),
            repository.serializer() == self.serializer(),
    {
        AggregateRepository {
            snapshot_frequency: self.snapshot_frequency,
            snapshotter: self.snapshotter,
            _phantom: PhantomData,
        }
    }
}

} // verus!
