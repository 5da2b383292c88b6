//! Event sourcing: aggregates whose state is the replay of an append-only
//! event log, a store that keeps the logs under optimistic concurrency, and a
//! repository that loads and saves aggregates against a store, with snapshots.

pub mod aggregate;
pub mod event;
mod index;
pub mod laws;
pub mod replay;
pub mod repository;
pub mod store;
pub mod text;

pub use crate::aggregate::{Aggregate, AggregateError, AggregateRoot, Snapshot, Timestamp};
pub use crate::event::{DomainEvent, EventMetadata};
pub use crate::repository::AggregateRepository;
pub use crate::store::{EventStore, EventStoreError, InMemoryEventStore};
