//! Aggregates, their base implementation and their snapshots.

use crate::event::DomainEvent;
use crate::text::append_decimal;
use serde_json::Value;
use std::fmt::Debug;
use vstd::prelude::*;
use vstd::string::StringExecFns;

verus! {

/// An aggregate: the unit of consistency of an event-sourced system. It applies
/// events to change its state and stages new events for the commands it obeys.
///
/// An implementation says in the ghost functions what it is in the abstract:
/// its identifier, its version, what it has staged, and which outcomes its
/// operations can have. `fresh`, `applied` and `committed` are relations, so an
/// implementation is free to leave an outcome open. An implementation must define
/// each of them: the bodies given here are one fixed value for all arguments, and no
/// implementation could keep the contracts below under them.
pub trait Aggregate: Send + Sync + Debug + Clone {
    /// The identifier, as text.
    open spec fn id_model(&self) -> Seq<char> {
        arbitrary()
    }

    /// The version.
    open spec fn version_model(&self) -> u64 {
        arbitrary()
    }

    /// The staged events, oldest first.
    open spec fn staged_model(&self) -> Seq<DomainEvent> {
        arbitrary()
    }

    /// The name of the aggregate type, as text.
    open spec fn type_model() -> Seq<char> {
        arbitrary()
    }

    /// Whether `new_instance` may give `instance` for `id`.
    open spec fn fresh(id: Seq<char>, instance: Self) -> bool {
        arbitrary()
    }

    /// Whether `apply_event` on `pre` may leave `post` and answer `outcome`.
    open spec fn applied(
        pre: Self,
        event: DomainEvent,
        post: Self,
        outcome: Result<(), AggregateError>,
    ) -> bool {
        arbitrary()
    }

    /// Whether `mark_events_committed` on `pre` may leave `post`.
    open spec fn committed(pre: Self, post: Self) -> bool {
        arbitrary()
    }

    /// Get aggregate ID
    fn aggregate_id(&self) -> (id: &str)
        ensures
            id@ == self.id_model(),
    ;

    /// Get aggregate type name
    fn aggregate_type() -> (name: &'static str) where Self: Sized
        ensures
            name@ == Self::type_model(),
    ;

    /// Get current version
    ///
    /// The version is the number of events applied to the aggregate: a fresh
    /// instance starts at 0 and every successful `apply_event` advances it by
    /// exactly one, replayed events included. Stores take versions for
    /// positions in the aggregate's event log, so an aggregate that advances
    /// otherwise would replay from the wrong offset.
    fn version(&self) -> (version: u64)
        ensures
            version == self.version_model(),
    ;

    /// Apply an event to the aggregate
    ///
    /// Advances the version by exactly one on success. Where the version has
    /// reached the end of its range the event has to be refused.
    fn apply_event(&mut self, event: &DomainEvent) -> (outcome: Result<(), AggregateError>)
        ensures
            Self::applied(*old(self), *event, *final(self), outcome),
            outcome is Ok ==> final(self).version_model() == old(self).version_model() + 1,
    ;

    /// Get uncommitted events
    fn uncommitted_events(&self) -> (events: &[DomainEvent])
        ensures
            events@ == self.staged_model(),
    ;

    /// Mark all events as committed
    ///
    /// Nothing is staged afterwards. No event is applied, so the version stays.
    fn mark_events_committed(&mut self)
        ensures
            Self::committed(*old(self), *final(self)),
            final(self).staged_model().len() == 0,
            final(self).version_model() == old(self).version_model(),
    ;

    /// Create a new instance (default state)
    fn new_instance(id: String) -> (instance: Self) where Self: Sized
        ensures
            Self::fresh(id@, instance),
            instance.version_model() == 0,
    ;
}

/// Base aggregate implementation
#[derive(Debug)]
pub struct AggregateRoot<T: Clone + Debug> {
    /// Aggregate ID
    pub id: String,
    /// Current version
    pub version: u64,
    /// Aggregate state
    pub state: T,
    /// Uncommitted events
    pub uncommitted_events: Vec<DomainEvent>,
}

impl<T: Clone + Debug> AggregateRoot<T> {
    /// Create new aggregate
    pub fn new(id: String, state: T) -> (root: Self)
        ensures
            root.id == id,
            root.version == 0,
            root.state == state,
            root.uncommitted_events@ == Seq::<DomainEvent>::empty(),
    {
        AggregateRoot { id, version: 0, state, uncommitted_events: Vec::new() }
    }

    /// Add uncommitted event
    pub fn add_event(&mut self, event: DomainEvent)
        ensures
            final(self).uncommitted_events@ == old(self).uncommitted_events@.push(event),
            final(self).id == old(self).id,
            final(self).version == old(self).version,
            final(self).state == old(self).state,
    {
        self.uncommitted_events.push(event);
    }

    /// Get state reference
    pub fn state(&self) -> (state: &T)
        ensures
            *state == self.state,
    {
        &self.state
    }

    /// Get uncommitted events
    pub fn uncommitted_events(&self) -> (events: &[DomainEvent])
        ensures
            events@ == self.uncommitted_events@,
    {
        self.uncommitted_events.as_slice()
    }

    /// Clear uncommitted events
    pub fn clear_uncommitted_events(&mut self)
        ensures
            final(self).uncommitted_events@ == Seq::<DomainEvent>::empty(),
            final(self).id == old(self).id,
            final(self).version == old(self).version,
            final(self).state == old(self).state,
    {
        self.uncommitted_events.clear();
    }

    /// Get mutable state reference
    ///
    /// What the caller leaves in the reference is the new state; the rest stays.
    pub fn state_mut(&mut self) -> (state: &mut T)
        ensures
            *state == old(self).state,
            final(self).state == *final(state),
            final(self).id == old(self).id,
            final(self).version == old(self).version,
            final(self).uncommitted_events == old(self).uncommitted_events,
    {
        &mut self.state
    }

    /// Increment version
    pub fn increment_version(&mut self)
        requires
            old(self).version < u64::MAX,
        ensures
            final(self).version == old(self).version + 1,
            final(self).id == old(self).id,
            final(self).state == old(self).state,
            final(self).uncommitted_events == old(self).uncommitted_events,
    {
        self.version += 1;
    }
}

impl<T: Clone + Debug> Clone for AggregateRoot<T> {
    fn clone(&self) -> (root: Self)
        ensures
            root.id == self.id,
            root.version == self.version,
            cloned(self.state, root.state),
            root.uncommitted_events@ == self.uncommitted_events@,
    {
        let root = AggregateRoot {
            id: self.id.clone(),
            version: self.version,
            state: self.state.clone(),
            uncommitted_events: self.uncommitted_events.clone(),
        };
        assert(root.uncommitted_events@ =~= self.uncommitted_events@);
        root
    }
}

/// Aggregate error
#[derive(Debug)]
pub enum AggregateError {
    /// An event could not be applied.
    EventApplicationFailed(String),
    /// A command is not allowed in the current state.
    InvalidStateTransition(String),
    /// There is no such aggregate.
    NotFound(String),
    /// The log has moved on since the aggregate was read.
    VersionConflict { expected: u64, actual: u64 },
    /// An aggregate could not be turned into a snapshot or back.
    SerializationError(String),
}

impl AggregateError {
    /// The message of the error, as text.
    pub open spec fn message_text(self) -> Seq<char> {
        match self {
            AggregateError::EventApplicationFailed(msg) => "Event application failed: "@ + msg@,
            AggregateError::InvalidStateTransition(msg) => "Invalid state transition: "@ + msg@,
            AggregateError::NotFound(id) => "Aggregate not found: "@ + id@,
            AggregateError::VersionConflict { expected, actual } => conflict_text(expected, actual),
            AggregateError::SerializationError(msg) => "Serialization error: "@ + msg@,
        }
    }

    /// What to tell a reader about the error
    pub fn message(&self) -> (message: String)
        ensures
            message@ == self.message_text(),
    {
        match self {
            AggregateError::EventApplicationFailed(msg) => {
                labelled("Event application failed: ", msg)
            },
            AggregateError::InvalidStateTransition(msg) => {
                labelled("Invalid state transition: ", msg)
            },
            AggregateError::NotFound(id) => labelled("Aggregate not found: ", id),
            AggregateError::VersionConflict { expected, actual } => {
                conflict_message(*expected, *actual)
            },
            AggregateError::SerializationError(msg) => labelled("Serialization error: ", msg),
        }
    }
}

/// The message of a version conflict, as text.
pub open spec fn conflict_text(expected: u64, actual: u64) -> Seq<char> {
    "Version conflict: expected "@ + crate::text::decimal(expected as nat) + ", got "@
        + crate::text::decimal(actual as nat)
}

/// The message of a version conflict.
pub(crate) fn conflict_message(expected: u64, actual: u64) -> (message: String)
    ensures
        message@ == conflict_text(expected, actual),
{
    let mut message = "Version conflict: expected ".to_string();
    append_decimal(&mut message, expected);
    message.append(", got ");
    append_decimal(&mut message, actual);
    message
}

/// `label` followed by `detail`.
pub(crate) fn labelled(label: &str, detail: &String) -> (message: String)
    ensures
        message@ == label@ + detail@,
{
    let mut message = label.to_string();
    message.append(detail.as_str());
    message
}

/// A moment in UTC: whole seconds since the Unix epoch, and the nanoseconds
/// past them.
#[derive(Debug, Clone, Copy, PartialEq, Eq)]
pub struct Timestamp {
    pub seconds: i64,
    pub nanos: u32,
}

impl Timestamp {
    /// Whether the timestamp is what a call of the system clock gave. No other
    /// timestamp is known to be one, however well formed.
    pub closed spec fn is_clock_reading(self) -> bool {
        call_ensures(Timestamp::now, (), self)
    }

    /// `chrono::Utc::now`, the system clock, as plain numbers (`DateTime::timestamp`
    /// and `DateTime::timestamp_subsec_nanos`). The clock is not before the epoch,
    /// or the outside function does not return; the nanoseconds stay below one
    /// second. Which moment it is depends on the machine and is left open.
    #[verifier::external_body]
    pub(crate) fn now() -> (now: Timestamp)
        ensures
            now.seconds >= 0,
            now.nanos < 1_000_000_000,
    {
        let now = chrono::Utc::now();
        Timestamp { seconds: now.timestamp(), nanos: now.timestamp_subsec_nanos() }
    }
}

/// What counts as a reading of the clock is what a call of the clock may give.
pub(crate) proof fn readings_come_from_the_clock(timestamp: Timestamp)
    ensures
        timestamp.is_clock_reading() == call_ensures(Timestamp::now, (), timestamp),
{
}

/// Aggregate snapshot
#[derive(Debug)]
pub struct Snapshot {
    /// Aggregate ID
    pub aggregate_id: String,
    /// Aggregate type
    pub aggregate_type: String,
    /// Version at snapshot
    pub version: u64,
    /// Snapshot timestamp
    pub timestamp: Timestamp,
    /// Serialized state
    pub state: Value,
}

impl Snapshot {
    /// Create new snapshot, taken now
    pub fn new(aggregate_id: String, aggregate_type: String, version: u64, state: Value) -> (res:
        Self)
        ensures
            res.aggregate_id == aggregate_id,
            res.aggregate_type == aggregate_type,
            res.version == version,
            res.state == state,
            res.timestamp.is_clock_reading(),
            res.timestamp.seconds >= 0,
            res.timestamp.nanos < 1_000_000_000,
    {
        let clock = Timestamp::now;
        Snapshot::at(aggregate_id, aggregate_type, version, clock(), state)
    }

    /// Create new snapshot, taken at `timestamp`
    pub fn at(
        aggregate_id: String,
        aggregate_type: String,
        version: u64,
        timestamp: Timestamp,
        state: Value,
    ) -> (res: Self)
        ensures
            res == (Snapshot { aggregate_id, aggregate_type, version, timestamp, state }),
    {
        Snapshot { aggregate_id, aggregate_type, version, timestamp, state }
    }
}

impl Clone for Snapshot {
    fn clone(&self) -> (res: Self)
        ensures
            res == *self,
    {
        Snapshot {
            aggregate_id: self.aggregate_id.clone(),
            aggregate_type: self.aggregate_type.clone(),
            version: self.version,
            timestamp: self.timestamp,
            state: self.state.clone(),
        }
    }
}

} // verus!
