//! Domain events: the facts an aggregate's log is made of.

use serde_json::Value;
use vstd::prelude::*;

verus! {

/// `serde_json::Value`, carried as it is: nothing here looks inside one.
#[verifier::external_type_specification]
#[verifier::external_body]
pub struct ExValue(serde_json::Value);

/// `<serde_json::Value as Clone>::clone`, which `Value` derives: the copy is the
/// same JSON value.
pub assume_specification[ <serde_json::Value as Clone>::clone ](
    value: &serde_json::Value,
) -> (res: serde_json::Value)
    ensures
        res == *value,
;

/// What is known about an event apart from its payload.
#[derive(Debug)]
pub struct EventMetadata {
    /// What happened, such as `user_created`.
    pub name: String,
}

impl Clone for EventMetadata {
    fn clone(&self) -> (res: Self)
        ensures
            res == *self,
    {
        EventMetadata { name: self.name.clone() }
    }
}

/// An event in the life of one aggregate.
#[derive(Debug)]
pub struct DomainEvent {
    /// Event metadata
    pub metadata: EventMetadata,
    /// The aggregate the event belongs to
    pub aggregate_id: String,
    /// The type of that aggregate
    pub aggregate_type: String,
    /// Event data
    pub payload: Value,
}

impl DomainEvent {
    /// Creates an event.
    pub fn new(name: &str, aggregate_id: &str, aggregate_type: &str, payload: Value) -> (res: Self)
        ensures
            res.metadata.name@ == name@,
            res.aggregate_id@ == aggregate_id@,
            res.aggregate_type@ == aggregate_type@,
            res.payload == payload,
    {
        DomainEvent {
            metadata: EventMetadata { name: name.to_string() },
            aggregate_id: aggregate_id.to_string(),
            aggregate_type: aggregate_type.to_string(),
            payload,
        }
    }
}

impl Clone for DomainEvent {
    fn clone(&self) -> (res: Self)
        ensures
            res == *self,
    {
        DomainEvent {
            metadata: self.metadata.clone(),
            aggregate_id: self.aggregate_id.clone(),
            aggregate_type: self.aggregate_type.clone(),
            payload: self.payload.clone(),
        }
    }
}

/// Appends copies of `events` to `log`.
pub(crate) fn append_events(log: &mut Vec<DomainEvent>, events: &[DomainEvent])
    ensures
        final(log)@ == old(log)@ + events@,
{
    log.extend_from_slice(events);
    assert(log@ =~= old(log)@ + events@);
}

} // verus!
