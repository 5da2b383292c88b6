# armature_eventsourcing

Event sourcing, verified with Verus: aggregates whose state is the replay of an
append-only event log, stores that keep the logs under optimistic concurrency, and a
repository that loads and saves aggregates, with snapshots.

- `src/event.rs`: domain events
- `src/aggregate.rs`: the `Aggregate` trait, `AggregateRoot`, `Snapshot`, errors
- `src/replay.rs`: what replaying a log means, and the replay itself
- `src/store.rs`: the `EventStore` trait, its model, and `InMemoryEventStore`
- `src/index.rs`: the concurrent map behind the in-memory store
- `src/repository.rs`: `AggregateRepository` and the decisions it is built from
- `src/text.rs`: numbers in decimal, for messages
- `src/laws.rs`: what holds of all of these together
- `app/`: stores and a repository that a caller waits for, with displayable errors and
  serializable types

A contract of the library speaks of a store by its model: a log for every aggregate,
and at most one snapshot. Aggregates and stores are written by the user of the
library; what their methods have to keep stands with the traits. What comes back from
a user's store or serializer is an argument of the decisions in `src/repository.rs`,
so they hold whatever it is. A repository is how to load and save; the store is handed
to each call, so that any number of repositories can work on one store. The
repository in `app/` keeps a shared handle on its store instead.

The `DashMap`, the system clock and the copying of JSON values are taken on trust;
each stands behind an item whose comment says what is believed of it.
