//! Event stores.

use crate::aggregate::{conflict_message, labelled, AggregateError, Snapshot};
use crate::event::{append_events, DomainEvent};
use crate::index::{
    all_slots, clear_index, new_index, set_slot, slot_of, slot_or_insert,
};
use dashmap::DashMap;
use vstd::prelude::*;

verus! {

/// Whether a write that expects `expected` events in `log` may go ahead.
pub open spec fn accepts(log: Seq<DomainEvent>, expected: Option<u64>) -> bool {
    expected matches Some(version) ==> version == log.len()
}

/// What is left of `log` without its first `from` events.
pub open spec fn tail(log: Seq<DomainEvent>, from: Option<u64>) -> Seq<DomainEvent> {
    match from {
        None => log,
        Some(version) => if version <= log.len() {
            log.skip(version as int)
        } else {
            Seq::empty()
        },
    }
}

/// What a store holds in the abstract.
#[verifier::ext_equal]
pub struct StoreModel {
    /// The events stored for an aggregate, oldest first; none for an unknown one.
    pub logs: spec_fn(Seq<char>) -> Seq<DomainEvent>,
    /// The snapshot stored for an aggregate, if there is one.
    pub snapshots: spec_fn(Seq<char>) -> Option<Snapshot>,
}

impl StoreModel {
    /// Nothing stored.
    pub open spec fn empty() -> StoreModel {
        StoreModel {
            logs: |id: Seq<char>| Seq::<DomainEvent>::empty(),
            snapshots: |id: Seq<char>| None::<Snapshot>,
        }
    }

    /// The log of `id`.
    pub open spec fn log(self, id: Seq<char>) -> Seq<DomainEvent> {
        (self.logs)(id)
    }

    /// The snapshot of `id`.
    pub open spec fn snapshot(self, id: Seq<char>) -> Option<Snapshot> {
        (self.snapshots)(id)
    }

    /// The logs of `ids`, one after the other.
    pub open spec fn logs_of(self, ids: Seq<Seq<char>>) -> Seq<DomainEvent>
        decreases ids.len(),
    {
        if ids.len() == 0 {
            Seq::empty()
        } else {
            self.logs_of(ids.drop_last()) + self.log(ids.last())
        }
    }

    /// Whether `ids` lists the aggregates that have events, each exactly once.
    /// Aggregates without events may be among them.
    pub open spec fn covered_by(self, ids: Seq<Seq<char>>) -> bool {
        &&& ids.no_duplicates()
        &&& forall|id: Seq<char>| (#[trigger] self.log(id)).len() > 0 ==> ids.contains(id)
    }

    /// The same with `events` at the end of the log of `id`.
    pub open spec fn append(self, id: Seq<char>, events: Seq<DomainEvent>) -> StoreModel {
        StoreModel {
            logs: |other: Seq<char>|
                if other == id {
                    self.log(id) + events
                } else {
                    self.log(other)
                },
            snapshots: self.snapshots,
        }
    }

    /// The same with `snapshot` as the snapshot of its aggregate.
    pub open spec fn put_snapshot(self, snapshot: Snapshot) -> StoreModel {
        StoreModel {
            logs: self.logs,
            snapshots: |other: Seq<char>|
                if other == snapshot.aggregate_id@ {
                    Some(snapshot)
                } else {
                    self.snapshot(other)
                },
        }
    }
}

/// Event store trait
///
/// Implement this trait to provide custom event storage. [`InMemoryEventStore`]
/// is provided for tests and local development only.
///
/// # Version invariant
///
/// Versions are positions in an aggregate's event log, not opaque tokens:
/// version `n` means "`n` events have been applied".
///
/// # Model
///
/// An implementation says in the ghost functions what it holds and how it may fail
/// on its own account. It must define each of them: the bodies given here are one
/// fixed value for all arguments.
pub trait EventStore: Send + Sync + Sized {
    /// Whether the store is well formed.
    open spec fn inv(&self) -> bool {
        arbitrary()
    }

    /// What the store holds.
    open spec fn model(&self) -> StoreModel {
        arbitrary()
    }

    /// Whether a write of `events` to the log of `id`, made while the store holds
    /// `pre`, may fail with `error`, other than for its expectation, and leave the
    /// store holding `post`.
    open spec fn failed_write(
        pre: StoreModel,
        id: Seq<char>,
        events: Seq<DomainEvent>,
        expected: Option<u64>,
        post: StoreModel,
        error: EventStoreError,
    ) -> bool {
        arbitrary()
    }

    /// Whether reading the log of `id`, made while the store holds `held`, may fail
    /// with `error`.
    open spec fn failed_read(
        held: StoreModel,
        id: Seq<char>,
        from: Option<u64>,
        error: EventStoreError,
    ) -> bool {
        arbitrary()
    }

    /// Whether a write of `snapshot`, made while the store holds `pre`, may fail with
    /// `error` and leave the store holding `post`.
    open spec fn failed_snapshot_write(
        pre: StoreModel,
        snapshot: Snapshot,
        post: StoreModel,
        error: EventStoreError,
    ) -> bool {
        arbitrary()
    }

    /// Whether reading the snapshot of `id`, made while the store holds `held`, may
    /// fail with `error`.
    open spec fn failed_snapshot_read(
        held: StoreModel,
        id: Seq<char>,
        error: EventStoreError,
    ) -> bool {
        arbitrary()
    }

    /// Save events for an aggregate
    ///
    /// `expected_version` is the number of events already stored for
    /// `aggregate_id` as of the caller's last read. The write is rejected with
    /// [`EventStoreError::VersionConflict`] when the stored event count differs,
    /// which is what makes optimistic concurrency work.
    fn save_events(
        &mut self,
        aggregate_id: &str,
        events: &[DomainEvent],
        expected_version: Option<u64>,
    ) -> (result: Result<(), EventStoreError>)
        requires
            old(self).inv(),
        ensures
            final(self).inv(),
            match result {
                Ok(_) => {
                    &&& accepts(old(self).model().log(aggregate_id@), expected_version)
                    &&& final(self).model() == old(self).model().append(aggregate_id@, events@)
                },
                Err(EventStoreError::VersionConflict { expected, actual }) => {
                    &&& !accepts(old(self).model().log(aggregate_id@), expected_version)
                    &&& Some(expected) == expected_version
                    &&& actual == old(self).model().log(aggregate_id@).len()
                    &&& final(self).model() == old(self).model()
                },
                Err(error) => Self::failed_write(
                    old(self).model(),
                    aggregate_id@,
                    events@,
                    expected_version,
                    final(self).model(),
                    error,
                ),
            },
    ;

    /// Load events for an aggregate
    ///
    /// `from_version` is a count of leading events to skip, so passing a
    /// snapshot's version yields exactly the events recorded after that
    /// snapshot. `None` gives the full log.
    fn load_events(&self, aggregate_id: &str, from_version: Option<u64>) -> (result: Result<
        Vec<DomainEvent>,
        EventStoreError,
    >)
        requires
            self.inv(),
        ensures
            match result {
                Ok(events) => events@ == tail(self.model().log(aggregate_id@), from_version),
                Err(error) => Self::failed_read(
                    self.model(),
                    aggregate_id@,
                    from_version,
                    error,
                ),
            },
    ;

    /// Save snapshot
    ///
    /// The aggregate's previous snapshot, if there is one, is replaced.
    fn save_snapshot(&mut self, snapshot: &Snapshot) -> (result: Result<(), EventStoreError>)
        requires
            old(self).inv(),
        ensures
            final(self).inv(),
            match result {
                Ok(_) => final(self).model() == old(self).model().put_snapshot(*snapshot),
                Err(error) => Self::failed_snapshot_write(
                    old(self).model(),
                    *snapshot,
                    final(self).model(),
                    error,
                ),
            },
    ;

    /// Load snapshot
    fn load_snapshot(&self, aggregate_id: &str) -> (result: Result<
        Option<Snapshot>,
        EventStoreError,
    >)
        requires
            self.inv(),
        ensures
            match result {
                Ok(snapshot) => snapshot == self.model().snapshot(aggregate_id@),
                Err(error) => Self::failed_snapshot_read(self.model(), aggregate_id@, error),
            },
    ;
}

/// In-memory event store (for testing/development)
///
/// Everything it holds is lost when the process exits. It is not a durable store
/// and must not be used in production.
///
/// Each aggregate has a slot of its own; the indexes say which.
pub struct InMemoryEventStore {
    /// Log slots indexed by aggregate ID
    event_index: DashMap<String, usize>,
    /// One event log per slot
    logs: Vec<Vec<DomainEvent>>,
    /// Snapshot slots indexed by aggregate ID
    snapshot_index: DashMap<String, usize>,
    /// One snapshot per slot
    snapshots: Vec<Snapshot>,
}

/// Whether every slot of `slots` is one of the first `n`, and no two identifiers
/// share one.
spec fn separate(slots: Map<Seq<char>, usize>, n: nat) -> bool {
    &&& forall|id: Seq<char>| #[trigger] slots.contains_key(id) ==> slots[id] < n
    &&& forall|id1: Seq<char>, id2: Seq<char>| #[trigger]
        slots.contains_key(id1) && #[trigger] slots.contains_key(id2) && slots[id1] == slots[id2]
            ==> id1 == id2
}

impl InMemoryEventStore {
    /// The log in the slot of `id`.
    spec fn log_at(&self, id: Seq<char>) -> Seq<DomainEvent> {
        let slots = crate::index::slots(self.event_index);
        if slots.contains_key(id) {
            self.logs@[slots[id] as int]@
        } else {
            Seq::empty()
        }
    }

    /// The snapshot in the slot of `id`.
    spec fn snapshot_at(&self, id: Seq<char>) -> Option<Snapshot> {
        let slots = crate::index::slots(self.snapshot_index);
        if slots.contains_key(id) {
            Some(self.snapshots@[slots[id] as int])
        } else {
            None
        }
    }

    /// Create new in-memory event store
    pub fn new() -> (store: Self)
        ensures
            store.inv(),
            store.model() == StoreModel::empty(),
    {
        InMemoryEventStore {
            event_index: new_index(),
            logs: Vec::new(),
            snapshot_index: new_index(),
            snapshots: Vec::new(),
        }
    }

    /// Get all events (for testing)
    ///
    /// Every log comes as a whole and in order; the logs come in no particular order.
    pub fn all_events(&self) -> (events: Vec<DomainEvent>)
        requires
            self.inv(),
        ensures
            exists|ids: Seq<Seq<char>>| #[trigger]
                self.model().covered_by(ids) && events@ == self.model().logs_of(ids),
    {
        let order = all_slots(&self.event_index);
        let ghost slots = crate::index::slots(self.event_index);
        let ghost ids = choose|ids: Seq<Seq<char>>| #[trigger]
            crate::index::lists_ids(self.event_index, ids) && order@ == ids.map_values(
                |id: Seq<char>| slots[id],
            );
        let mut events: Vec<DomainEvent> = Vec::new();
        let mut i: usize = 0;
        while i < order.len()
            invariant
                self.inv(),
                slots == crate::index::slots(self.event_index),
                crate::index::lists_ids(self.event_index, ids),
                order@ == ids.map_values(|id: Seq<char>| slots[id]),
                i <= order@.len(),
                events@ == self.model().logs_of(ids.take(i as int)),
            decreases order@.len() - i,
        {
            assert(ids.contains(ids[i as int]));
            assert(slots.contains_key(ids[i as int]));
            assert(order@[i as int] == slots[ids[i as int]]);
            assert(ids.take(i + 1).drop_last() =~= ids.take(i as int));
            append_events(&mut events, self.logs[order[i]].as_slice());
            i += 1;
        }
        proof {
            assert(ids.take(i as int) =~= ids);
            assert(self.model().covered_by(ids));
        }
        events
    }

    /// Clear all data
    pub fn clear(&mut self)
        requires
            old(self).inv(),
        ensures
            final(self).inv(),
            final(self).model() == StoreModel::empty(),
    {
        clear_index(&mut self.event_index);
        self.logs.clear();
        clear_index(&mut self.snapshot_index);
        self.snapshots.clear();
    }
}

impl Default for InMemoryEventStore {
    fn default() -> (store: Self)
        ensures
            store.inv(),
            store.model() == StoreModel::empty(),
    {
        InMemoryEventStore::new()
    }
}

impl EventStore for InMemoryEventStore {
    closed spec fn inv(&self) -> bool {
        &&& separate(crate::index::slots(self.event_index), self.logs@.len())
        &&& separate(crate::index::slots(self.snapshot_index), self.snapshots@.len())
    }

    closed spec fn model(&self) -> StoreModel {
        StoreModel {
            logs: |id: Seq<char>| self.log_at(id),
            snapshots: |id: Seq<char>| self.snapshot_at(id),
        }
    }

    /// Never: the in-memory store rejects stale writes and nothing else.
    open spec fn failed_write(
        pre: StoreModel,
        id: Seq<char>,
        events: Seq<DomainEvent>,
        expected: Option<u64>,
        post: StoreModel,
        error: EventStoreError,
    ) -> bool {
        false
    }

    /// Never.
    open spec fn failed_read(
        held: StoreModel,
        id: Seq<char>,
        from: Option<u64>,
        error: EventStoreError,
    ) -> bool {
        false
    }

    /// Never.
    open spec fn failed_snapshot_write(
        pre: StoreModel,
        snapshot: Snapshot,
        post: StoreModel,
        error: EventStoreError,
    ) -> bool {
        false
    }

    /// Never.
    open spec fn failed_snapshot_read(
        held: StoreModel,
        id: Seq<char>,
        error: EventStoreError,
    ) -> bool {
        false
    }

    fn save_events(
        &mut self,
        aggregate_id: &str,
        events: &[DomainEvent],
        expected_version: Option<u64>,
    ) -> Result<(), EventStoreError> {
        let vacant = self.logs.len();
        let slot = slot_or_insert(&mut self.event_index, aggregate_id, vacant);
        if slot == vacant {
            self.logs.push(Vec::new());
        }
        assert(self.model() =~= old(self).model());

        // Check version if specified
        if let Some(expected) = expected_version {
            let current_version = self.logs[slot].len() as u64;
            if current_version != expected {
                return Err(
                    EventStoreError::VersionConflict { expected, actual: current_version },
                );
            }
        }

        // Append events
        append_events(&mut self.logs[slot], events);
        Ok(())
    }

    fn load_events(&self, aggregate_id: &str, from_version: Option<u64>) -> Result<
        Vec<DomainEvent>,
        EventStoreError,
    > {
        let mut events: Vec<DomainEvent> = Vec::new();
        if let Some(slot) = slot_of(&self.event_index, aggregate_id) {
            let log = &self.logs[slot];
            let skipped: u64 = match from_version {
                Some(version) => version,
                None => 0,
            };
            if skipped <= log.len() as u64 {
                let ghost start = skipped as int;
                let mut i: usize = skipped as usize;
                while i < log.len()
                    invariant
                        0 <= start <= i <= log@.len(),
                        events@ == log@.subrange(start, i as int),
                    decreases log@.len() - i,
                {
                    events.push(log[i].clone());
                    i += 1;
                }
            }
        }
        assert(events@ =~= tail(self.log_at(aggregate_id@), from_version));
        Ok(events)
    }

    fn save_snapshot(&mut self, snapshot: &Snapshot) -> Result<(), EventStoreError> {
        let id = snapshot.aggregate_id.as_str();
        match slot_of(&self.snapshot_index, id) {
            Some(slot) => {
                self.snapshots[slot] = snapshot.clone();
            },
            None => {
                set_slot(&mut self.snapshot_index, id, self.snapshots.len());
                self.snapshots.push(snapshot.clone());
            },
        }
        Ok(())
    }

    fn load_snapshot(&self, aggregate_id: &str) -> Result<Option<Snapshot>, EventStoreError> {
        match slot_of(&self.snapshot_index, aggregate_id) {
            Some(slot) => Ok(Some(self.snapshots[slot].clone())),
            None => Ok(None),
        }
    }
}

/// Event store error
#[derive(Debug)]
pub enum EventStoreError {
    /// The log does not have the expected length.
    VersionConflict { expected: u64, actual: u64 },
    /// The backend failed.
    StorageError(String),
    /// What is stored could not be written or read.
    SerializationError(String),
    /// There is no such aggregate.
    NotFound(String),
}

impl EventStoreError {
    /// The message of the error, as text.
    pub open spec fn message_text(self) -> Seq<char> {
        match self {
            EventStoreError::VersionConflict { expected, actual } => {
                crate::aggregate::conflict_text(expected, actual)
            },
            EventStoreError::StorageError(msg) => "Storage error: "@ + msg@,
            EventStoreError::SerializationError(msg) => "Serialization error: "@ + msg@,
            EventStoreError::NotFound(id) => "Aggregate not found: "@ + id@,
        }
    }

    /// What to tell a reader about the error
    pub fn message(&self) -> (message: String)
        ensures
            message@ == self.message_text(),
    {
        match self {
            EventStoreError::VersionConflict { expected, actual } => {
                conflict_message(*expected, *actual)
            },
            EventStoreError::StorageError(msg) => labelled("Storage error: ", msg),
            EventStoreError::SerializationError(msg) => labelled("Serialization error: ", msg),
            EventStoreError::NotFound(id) => labelled("Aggregate not found: ", id),
        }
    }
}

/// The aggregate error that stands for a store error.
pub open spec fn as_aggregate_error(error: EventStoreError) -> AggregateError {
    match error {
        EventStoreError::VersionConflict { expected, actual } => AggregateError::VersionConflict {
            expected,
            actual,
        },
        EventStoreError::NotFound(id) => AggregateError::NotFound(id),
        EventStoreError::SerializationError(msg) => AggregateError::SerializationError(msg),
        EventStoreError::StorageError(msg) => AggregateError::EventApplicationFailed(msg),
    }
}

impl From<EventStoreError> for AggregateError {
    fn from(err: EventStoreError) -> (res: Self) {
        match err {
            EventStoreError::VersionConflict { expected, actual } => {
                AggregateError::VersionConflict { expected, actual }
            },
            EventStoreError::NotFound(id) => AggregateError::NotFound(id),
            EventStoreError::SerializationError(msg) => AggregateError::SerializationError(msg),
            EventStoreError::StorageError(msg) => AggregateError::EventApplicationFailed(msg),
        }
    }
}

impl vstd::std_specs::convert::FromSpecImpl<EventStoreError> for AggregateError {
    open spec fn obeys_from_spec() -> bool {
        true
    }

    open spec fn from_spec(err: EventStoreError) -> Self {
        as_aggregate_error(err)
    }
}

} // verus!
