use armature_eventsourcing::repository::{
    confirm_save, counts_staged, describe, lift, lift_coded, plan_save, rebuild, snapshot_due,
};
use armature_eventsourcing::{
    Aggregate, AggregateError, AggregateRepository, AggregateRoot, DomainEvent, EventStore,
    EventStoreError, InMemoryEventStore, Snapshot,
};
use serde_json::Value;

fn object(entries: Vec<(&str, Value)>) -> Value {
    let mut object = serde_json::Map::new();
    for (key, value) in entries {
        object.insert(key.to_string(), value);
    }
    Value::Object(object)
}

#[derive(Debug, Clone)]
struct TestState {
    count: u32,
}

#[derive(Debug, Clone)]
struct TestAggregate {
    root: AggregateRoot<TestState>,
}

impl Aggregate for TestAggregate {
    fn aggregate_id(&self) -> &str {
        &self.root.id
    }

    fn aggregate_type() -> &'static str {
        "TestAggregate"
    }

    fn version(&self) -> u64 {
        self.root.version
    }

    fn apply_event(&mut self, _event: &DomainEvent) -> Result<(), AggregateError> {
        self.root.increment_version();
        Ok(())
    }

    fn uncommitted_events(&self) -> &[DomainEvent] {
        self.root.uncommitted_events()
    }

    fn mark_events_committed(&mut self) {
        self.root.clear_uncommitted_events();
    }

    fn new_instance(id: String) -> Self {
        Self {
            root: AggregateRoot::new(id, TestState { count: 0 }),
        }
    }
}

// A counter aggregate whose `apply_event` actually mutates state and version,
// so snapshot-aware loading is observable.
#[derive(Debug, Clone)]
struct CounterState {
    count: u64,
}

#[derive(Debug, Clone)]
struct CounterAggregate {
    root: AggregateRoot<CounterState>,
}

impl Aggregate for CounterAggregate {
    fn aggregate_id(&self) -> &str {
        &self.root.id
    }

    fn aggregate_type() -> &'static str {
        "CounterAggregate"
    }

    fn version(&self) -> u64 {
        self.root.version
    }

    fn apply_event(&mut self, event: &DomainEvent) -> Result<(), AggregateError> {
        if event.metadata.name == "refused" {
            return Err(AggregateError::InvalidStateTransition("refused".to_string()));
        }
        let amount = event.payload["amount"].as_u64().unwrap_or(0);
        self.root.state.count += amount;
        self.root.increment_version();
        Ok(())
    }

    fn uncommitted_events(&self) -> &[DomainEvent] {
        self.root.uncommitted_events()
    }

    fn mark_events_committed(&mut self) {
        self.root.clear_uncommitted_events();
    }

    fn new_instance(id: String) -> Self {
        Self {
            root: AggregateRoot::new(id, CounterState { count: 0 }),
        }
    }
}

fn increment_event(id: &str, amount: u64) -> DomainEvent {
    DomainEvent::new(
        "increment",
        id,
        "CounterAggregate",
        object(vec![("amount", Value::from(amount))]),
    )
}

type ToJson<A> = fn(&A) -> Result<Value, String>;

type CounterRepository = AggregateRepository<CounterAggregate, ToJson<CounterAggregate>>;

fn to_json(aggregate: &CounterAggregate) -> Result<Value, String> {
    Ok(object(vec![
        ("id", Value::from(aggregate.root.id.as_str())),
        ("version", Value::from(aggregate.root.version)),
        ("state", object(vec![("count", Value::from(aggregate.root.state.count))])),
    ]))
}

fn from_json(value: Value) -> Result<CounterAggregate, String> {
    let id = value["id"].as_str().ok_or("missing field `id`")?;
    let version = value["version"].as_u64().ok_or("missing field `version`")?;
    let count = value["state"]["count"].as_u64().ok_or("missing field `count`")?;
    let mut aggregate = CounterAggregate::new_instance(id.to_string());
    aggregate.root.version = version;
    aggregate.root.state.count = count;
    Ok(aggregate)
}

fn test_to_json(aggregate: &TestAggregate) -> Result<Value, String> {
    Ok(Value::from(aggregate.root.state.count))
}

/// Applies an increment and stages it.
fn increment(aggregate: &mut CounterAggregate, amount: u64) {
    let event = increment_event(&aggregate.root.id, amount);
    aggregate.apply_event(&event).unwrap();
    aggregate.root.add_event(event);
}

#[test]
fn save_after_applying_events_succeeds() {
    let mut store = InMemoryEventStore::new();
    let repo = CounterRepository::new();

    // Load a fresh (non-existent) aggregate: version 0, no stored events.
    let mut aggregate = repo.load(&store, "agg-apply").unwrap();
    assert_eq!(aggregate.version(), 0);

    // Apply one event (bumps version to 1) and stage it as uncommitted.
    let event = increment_event("agg-apply", 5);
    aggregate.apply_event(&event).unwrap();
    aggregate.root.add_event(event);
    assert_eq!(aggregate.version(), 1);

    // Saving must succeed: the store has 0 stored events, matching the base
    // version (version() - uncommitted count = 1 - 1 = 0), not version() itself.
    repo.save(&mut store, &mut aggregate)
        .expect("save should not raise a false VersionConflict");
}

#[test]
fn save_with_snapshot_after_applying_events_succeeds() {
    let mut store = InMemoryEventStore::new();
    let repo = CounterRepository::new();

    let mut aggregate = repo.load(&store, "agg-apply-snap").unwrap();
    assert_eq!(aggregate.version(), 0);

    let event = increment_event("agg-apply-snap", 5);
    aggregate.apply_event(&event).unwrap();
    aggregate.root.add_event(event);
    assert_eq!(aggregate.version(), 1);

    repo.save_with_snapshot(&mut store, &mut aggregate)
        .expect("save_with_snapshot should not raise a false VersionConflict");
}

#[test]
fn save_detects_genuine_stale_write() {
    let mut store = InMemoryEventStore::new();
    let repo = CounterRepository::new();

    // Two independent loads of the same (empty) aggregate at base version 0.
    let mut first = repo.load(&store, "agg-stale").unwrap();
    let mut second = repo.load(&store, "agg-stale").unwrap();

    let event_a = increment_event("agg-stale", 1);
    first.apply_event(&event_a).unwrap();
    first.root.add_event(event_a);

    let event_b = increment_event("agg-stale", 2);
    second.apply_event(&event_b).unwrap();
    second.root.add_event(event_b);

    // First save succeeds and advances the store.
    repo.save(&mut store, &mut first).unwrap();

    // Second save is stale: it was loaded before the first save landed, so its
    // base version (0) no longer matches the store's current length (1).
    let result = repo.save(&mut store, &mut second);
    assert!(
        matches!(result, Err(AggregateError::VersionConflict { .. })),
        "expected a genuine VersionConflict, got: {result:?}"
    );
}

#[test]
fn test_repository_load_save() {
    let mut store = InMemoryEventStore::new();
    let repo = AggregateRepository::<TestAggregate, ToJson<TestAggregate>>::new();

    let mut aggregate = TestAggregate::new_instance("test-1".to_string());
    let event = DomainEvent::new("test_event", "test-1", "TestAggregate", object(vec![]));
    aggregate.apply_event(&event).unwrap();
    aggregate.root.add_event(event);

    repo.save(&mut store, &mut aggregate).unwrap();
    assert_eq!(aggregate.uncommitted_events().len(), 0);
}

#[test]
fn load_snapshotted_seeds_from_snapshot_and_applies_only_newer_events() {
    let mut store = InMemoryEventStore::new();
    let repo = CounterRepository::new();

    // Four persisted events (+10 each).
    store
        .save_events(
            "agg-1",
            &[
                increment_event("agg-1", 10),
                increment_event("agg-1", 10),
                increment_event("agg-1", 10),
                increment_event("agg-1", 10),
            ],
            None,
        )
        .unwrap();

    // Snapshot at version 2 with a distinctive base count that a replay-from-zero
    // could never produce.
    let mut snap_agg = CounterAggregate::new_instance("agg-1".to_string());
    snap_agg.root.version = 2;
    snap_agg.root.state.count = 1000;
    repo.save_snapshot(&mut store, &snap_agg, to_json).unwrap();

    // Snapshot-aware load: 1000 (snapshot) + 2 newer events * 10 = 1020, version 4.
    let loaded = repo.load_snapshotted(&store, "agg-1", from_json).unwrap();
    assert_eq!(
        loaded.root.state.count, 1020,
        "must seed from snapshot base and apply only events after the snapshot version"
    );
    assert_eq!(
        loaded.version(),
        4,
        "version = snapshot(2) + 2 newer events"
    );

    // Full replay from zero for contrast: 4 events * 10 = 40.
    let full = repo.load(&store, "agg-1").unwrap();
    assert_eq!(full.root.state.count, 40);
}

#[test]
fn load_snapshotted_falls_back_to_full_replay_without_snapshot() {
    let mut store = InMemoryEventStore::new();
    let repo = CounterRepository::new();

    store
        .save_events(
            "agg-2",
            &[increment_event("agg-2", 5), increment_event("agg-2", 7)],
            None,
        )
        .unwrap();

    let loaded = repo.load_snapshotted(&store, "agg-2", from_json).unwrap();
    assert_eq!(loaded.root.state.count, 12);
    assert_eq!(loaded.version(), 2);
}

#[test]
fn save_with_snapshot_persists_snapshot_every_frequency() {
    let mut store = InMemoryEventStore::new();
    let repo = CounterRepository::with_snapshots(2, to_json);

    // One event already persisted (store length 1 == the aggregate's base
    // version before the newly staged/applied event below).
    store
        .save_events("c1", &[increment_event("c1", 10)], None)
        .unwrap();

    // Aggregate reflecting the persisted state (version 1, count 10), with a
    // new event both applied (version -> 2, count -> 20) and staged to commit,
    // matching the real apply-then-save flow.
    let mut agg = CounterAggregate::new_instance("c1".to_string());
    agg.root.version = 1;
    agg.root.state.count = 10;
    let event = increment_event("c1", 10);
    agg.apply_event(&event).unwrap();
    agg.root.add_event(event);

    repo.save_with_snapshot(&mut store, &mut agg).unwrap();

    // version 2 is a multiple of the frequency, so a snapshot is persisted.
    let snapshot = store.load_snapshot("c1").unwrap();
    assert!(
        snapshot.is_some(),
        "snapshot should be persisted at version 2"
    );
    let snapshot = snapshot.unwrap();
    assert_eq!(snapshot.version, 2);

    let restored: CounterAggregate = from_json(snapshot.state).unwrap();
    assert_eq!(restored.root.state.count, 20);
}

/// `with_snapshots(n)` must be honoured by plain `save`: a configured
/// frequency that silently does nothing is the failure mode this guards.
#[test]
fn with_snapshots_makes_plain_save_persist_snapshots() {
    let mut store = InMemoryEventStore::new();
    let repo = CounterRepository::with_snapshots(3, to_json);

    let mut aggregate = repo.load(&store, "c3").unwrap();

    for (index, amount) in [10u64, 20, 30].into_iter().enumerate() {
        let event = increment_event("c3", amount);
        aggregate.apply_event(&event).unwrap();
        aggregate.root.add_event(event);
        repo.save(&mut store, &mut aggregate).unwrap();

        // Only the third save reaches version 3, the configured frequency.
        let snapshot = store.load_snapshot("c3").unwrap();
        assert_eq!(
            snapshot.is_some(),
            index == 2,
            "snapshot presence after save #{} should follow the frequency",
            index + 1
        );
    }

    let snapshot = store.load_snapshot("c3").unwrap().unwrap();
    assert_eq!(snapshot.version, 3);
    assert_eq!(snapshot.aggregate_type, "CounterAggregate");

    let restored: CounterAggregate = from_json(snapshot.state).unwrap();
    assert_eq!(restored.root.state.count, 60);
}

#[test]
fn save_snapshot_round_trips_through_store() {
    let mut store = InMemoryEventStore::new();
    let repo = CounterRepository::new();

    let mut agg = CounterAggregate::new_instance("c2".to_string());
    agg.root.version = 3;
    agg.root.state.count = 99;

    repo.save_snapshot(&mut store, &agg, to_json).unwrap();

    let snapshot = store.load_snapshot("c2").unwrap().unwrap();
    assert_eq!(snapshot.version, 3);
    assert_eq!(snapshot.aggregate_type, "CounterAggregate");

    let restored: CounterAggregate = from_json(snapshot.state).unwrap();
    assert_eq!(restored.root.state.count, 99);
}

#[test]
fn load_snapshotted_matches_full_replay_after_real_incremental_save() {
    let mut store = InMemoryEventStore::new();
    let repo = CounterRepository::new();

    // Build the aggregate through several real load -> apply -> save cycles
    // (the same flow a caller would actually drive), rather than
    // hand-constructing state.
    let mut aggregate = repo.load(&store, "agg-equiv").unwrap();
    for amount in [3, 5, 7] {
        let event = increment_event("agg-equiv", amount);
        aggregate.apply_event(&event).unwrap();
        aggregate.root.add_event(event);
        repo.save(&mut store, &mut aggregate).unwrap();
    }
    assert_eq!(aggregate.version(), 3);
    assert_eq!(aggregate.root.state.count, 15);

    // Take a REAL snapshot mid-stream, reflecting genuinely replayed state
    // (not a fabricated value) at the current version (3).
    repo.save_snapshot(&mut store, &aggregate, to_json).unwrap();
    assert!(
        store.load_snapshot("agg-equiv").unwrap().is_some(),
        "snapshot must actually be persisted so load_snapshotted exercises \
         the snapshot path, not the no-snapshot fallback"
    );

    // Continue applying more real events after the snapshot.
    for amount in [11, 13] {
        let event = increment_event("agg-equiv", amount);
        aggregate.apply_event(&event).unwrap();
        aggregate.root.add_event(event);
        repo.save(&mut store, &mut aggregate).unwrap();
    }
    assert_eq!(aggregate.version(), 5);
    assert_eq!(aggregate.root.state.count, 39);

    // The invariant under test: snapshot + replay of newer events must
    // produce exactly the same state as a full replay of the identical
    // event log.
    let snapshotted = repo.load_snapshotted(&store, "agg-equiv", from_json).unwrap();
    let full = repo.load(&store, "agg-equiv").unwrap();

    assert_eq!(snapshotted.version(), full.version());
    assert_eq!(snapshotted.root.state.count, full.root.state.count);

    // Byte-for-byte: compare the full serialized state rather than only
    // the fields we thought to check individually.
    let snapshotted_json = to_json(&snapshotted).unwrap();
    let full_json = to_json(&full).unwrap();
    assert_eq!(
        snapshotted_json, full_json,
        "snapshot+replay state must exactly equal full-replay state"
    );
}

#[test]
fn saving_without_staged_events_does_nothing() {
    let mut store = InMemoryEventStore::new();
    let repo = CounterRepository::with_snapshots(1, to_json);
    let mut aggregate = CounterAggregate::new_instance("idle".to_string());
    aggregate.root.version = 4;
    repo.save(&mut store, &mut aggregate).unwrap();
    assert!(store.all_events().is_empty());
    assert!(store.load_snapshot("idle").unwrap().is_none());
    assert_eq!(plan_save(&aggregate), None);
}

#[test]
fn aggregates_stay_in_sync_with_their_log() {
    let mut store = InMemoryEventStore::new();
    let repo = CounterRepository::new();
    store.save_events("sync", &[increment_event("sync", 1)], None).unwrap();
    let mut aggregate = repo.load(&store, "sync").unwrap();
    for round in 1..4u64 {
        increment(&mut aggregate, 1);
        assert_eq!(plan_save(&aggregate), Some(round));
        repo.save(&mut store, &mut aggregate).unwrap();
        assert_eq!(aggregate.version(), round + 1);
        assert_eq!(store.load_events("sync", None).unwrap().len() as u64, round + 1);
    }
}

#[test]
fn snapshots_taken_by_saving_match_a_full_replay() {
    let mut store = InMemoryEventStore::new();
    let repo = CounterRepository::with_snapshots(2, to_json);
    let mut aggregate = repo.load(&store, "match").unwrap();
    for amount in [1, 2, 4, 8, 16] {
        increment(&mut aggregate, amount);
        repo.save(&mut store, &mut aggregate).unwrap();
        let snapshotted = repo.load_snapshotted(&store, "match", from_json).unwrap();
        let full = repo.load(&store, "match").unwrap();
        assert_eq!(to_json(&snapshotted).unwrap(), to_json(&full).unwrap());
        assert_eq!(to_json(&full).unwrap(), to_json(&aggregate).unwrap());
    }
    assert_eq!(store.load_snapshot("match").unwrap().unwrap().version, 4);
    assert_eq!(repo.load(&store, "match").unwrap().root.state.count, 31);
}

#[test]
fn expected_version_is_the_version_before_the_staged_events() {
    let mut aggregate = CounterAggregate::new_instance("plan".to_string());
    aggregate.root.version = 5;
    increment(&mut aggregate, 1);
    increment(&mut aggregate, 1);
    assert_eq!(aggregate.version(), 7);
    assert_eq!(plan_save(&aggregate), Some(5));

    // An aggregate that has not counted its staged events.
    aggregate.root.version = 1;
    assert_eq!(plan_save(&aggregate), Some(0));
}

#[test]
fn saved_events_are_read_back() {
    let mut store = InMemoryEventStore::new();
    let repo = CounterRepository::new();
    let mut aggregate = repo.load(&store, "rb").unwrap();
    increment(&mut aggregate, 1);
    repo.save(&mut store, &mut aggregate).unwrap();
    increment(&mut aggregate, 2);
    increment(&mut aggregate, 3);
    repo.save(&mut store, &mut aggregate).unwrap();

    let stored = store.load_events("rb", Some(1)).unwrap();
    let amounts: Vec<u64> = stored.iter().map(|e| e.payload["amount"].as_u64().unwrap()).collect();
    assert_eq!(amounts, vec![2, 3]);
}

#[test]
fn saved_aggregates_are_loaded_back() {
    let mut store = InMemoryEventStore::new();
    let repo = CounterRepository::new();
    let mut aggregate = repo.load(&store, "lb").unwrap();
    increment(&mut aggregate, 4);
    increment(&mut aggregate, 6);
    repo.save(&mut store, &mut aggregate).unwrap();
    let loaded = repo.load(&store, "lb").unwrap();
    assert_eq!(to_json(&loaded).unwrap(), to_json(&aggregate).unwrap());
    assert_eq!(loaded.version(), 2);
    assert_eq!(loaded.root.state.count, 10);
    assert_eq!(loaded.root.id, "lb");
    // No frequency is configured, so no snapshot was taken.
    assert!(store.load_snapshot("lb").unwrap().is_none());
}

#[test]
fn rejected_saves_change_nothing() {
    let mut store = InMemoryEventStore::new();
    let repo = CounterRepository::with_snapshots(1, to_json);
    store
        .save_events("rej", &[increment_event("rej", 1), increment_event("rej", 2)], None)
        .unwrap();

    let mut stale = CounterAggregate::new_instance("rej".to_string());
    increment(&mut stale, 9);
    let result = repo.save(&mut store, &mut stale);
    assert!(matches!(
        result,
        Err(AggregateError::VersionConflict { expected: 0, actual: 2 })
    ));
    assert_eq!(stale.uncommitted_events().len(), 1);
    assert_eq!(stale.version(), 1);
    assert_eq!(store.load_events("rej", None).unwrap().len(), 2);
    assert!(store.load_snapshot("rej").unwrap().is_none());
}

#[test]
fn the_second_writer_is_rejected() {
    let mut store = InMemoryEventStore::new();
    let repo = CounterRepository::new();
    let mut first = repo.load(&store, "two").unwrap();
    let mut second = repo.load(&store, "two").unwrap();
    increment(&mut first, 1);
    increment(&mut first, 1);
    increment(&mut second, 5);
    repo.save(&mut store, &mut first).unwrap();
    assert!(matches!(
        repo.save(&mut store, &mut second),
        Err(AggregateError::VersionConflict { expected: 0, actual: 2 })
    ));
    // Having read again, the second writer goes ahead.
    let mut again = repo.load(&store, "two").unwrap();
    increment(&mut again, 5);
    repo.save(&mut store, &mut again).unwrap();
    assert_eq!(repo.load(&store, "two").unwrap().root.state.count, 7);
}

#[test]
fn versions_count_events() {
    let mut store = InMemoryEventStore::new();
    let repo = CounterRepository::new();
    let events = [increment_event("v", 1), increment_event("v", 0), increment_event("v", 2)];
    store.save_events("v", &events, None).unwrap();
    assert_eq!(repo.load(&store, "v").unwrap().version(), 3);
}

#[test]
fn replay_stops_at_the_first_refused_event() {
    let mut store = InMemoryEventStore::new();
    let repo = CounterRepository::new();
    let refused = DomainEvent::new("refused", "r", "CounterAggregate", Value::Null);
    store
        .save_events("r", &[increment_event("r", 1), refused, increment_event("r", 2)], None)
        .unwrap();
    assert!(matches!(
        repo.load(&store, "r"),
        Err(AggregateError::InvalidStateTransition(m)) if m == "refused"
    ));

    // A snapshot after the refused event gets past it.
    let mut past = CounterAggregate::new_instance("r".to_string());
    past.root.version = 2;
    past.root.state.count = 1;
    repo.save_snapshot(&mut store, &past, to_json).unwrap();
    let loaded = repo.load_snapshotted(&store, "r", from_json).unwrap();
    assert_eq!(loaded.root.state.count, 3);
    assert_eq!(loaded.version(), 3);
}

#[test]
fn snapshots_follow_the_frequency() {
    assert!(!snapshot_due(None, 4));
    assert!(!snapshot_due(Some(0), 0));
    assert!(!snapshot_due(Some(0), 4));
    assert!(snapshot_due(Some(2), 4));
    assert!(!snapshot_due(Some(3), 4));
    assert!(snapshot_due(Some(1), u64::MAX));
    assert!(snapshot_due(Some(5), 0));

    // Two events at once step over version 3 and reach version 4.
    let mut store = InMemoryEventStore::new();
    let repo = CounterRepository::with_snapshots(3, to_json);
    let mut aggregate = repo.load(&store, "f").unwrap();
    increment(&mut aggregate, 1);
    increment(&mut aggregate, 1);
    repo.save(&mut store, &mut aggregate).unwrap();
    increment(&mut aggregate, 1);
    increment(&mut aggregate, 1);
    repo.save(&mut store, &mut aggregate).unwrap();
    assert!(store.load_snapshot("f").unwrap().is_none());
    increment(&mut aggregate, 1);
    increment(&mut aggregate, 1);
    repo.save(&mut store, &mut aggregate).unwrap();
    assert_eq!(store.load_snapshot("f").unwrap().unwrap().version, 6);
}

#[test]
fn a_frequency_of_zero_disables_snapshots() {
    let mut store = InMemoryEventStore::new();
    let repo = CounterRepository::with_snapshots(0, to_json);
    let mut aggregate = repo.load(&store, "z").unwrap();
    increment(&mut aggregate, 1);
    repo.save(&mut store, &mut aggregate).unwrap();
    assert!(store.load_snapshot("z").unwrap().is_none());
    assert_eq!(store.load_events("z", None).unwrap().len(), 1);
}

#[test]
fn a_failed_snapshot_is_reported_after_the_events_are_saved() {
    fn failing(_aggregate: &CounterAggregate) -> Result<Value, String> {
        Err("no JSON today".to_string())
    }
    let mut store = InMemoryEventStore::new();
    let repo = CounterRepository::with_snapshots(1, failing);
    let mut aggregate = repo.load(&store, "s").unwrap();
    increment(&mut aggregate, 1);
    assert!(matches!(
        repo.save(&mut store, &mut aggregate),
        Err(AggregateError::SerializationError(m)) if m == "no JSON today"
    ));
    assert!(aggregate.uncommitted_events().is_empty());
    assert_eq!(store.load_events("s", None).unwrap().len(), 1);
    assert!(matches!(
        repo.save_snapshot(&mut store, &aggregate, failing),
        Err(AggregateError::SerializationError(m)) if m == "no JSON today"
    ));
    assert!(store.load_snapshot("s").unwrap().is_none());
}

#[test]
fn an_unreadable_snapshot_is_reported() {
    let mut store = InMemoryEventStore::new();
    let repo = CounterRepository::new();
    let snapshot = Snapshot::new("u".to_string(), "CounterAggregate".to_string(), 1, Value::Null);
    store.save_snapshot(&snapshot).unwrap();
    assert!(matches!(
        repo.load_snapshotted(&store, "u", from_json),
        Err(AggregateError::SerializationError(m)) if m == "missing field `id`"
    ));
}

/// A store whose backend is down.
struct BrokenStore;

impl EventStore for BrokenStore {
    fn save_events(
        &mut self,
        _aggregate_id: &str,
        _events: &[DomainEvent],
        _expected_version: Option<u64>,
    ) -> Result<(), EventStoreError> {
        Err(EventStoreError::StorageError("down".to_string()))
    }

    fn load_events(
        &self,
        aggregate_id: &str,
        _from_version: Option<u64>,
    ) -> Result<Vec<DomainEvent>, EventStoreError> {
        Err(EventStoreError::NotFound(aggregate_id.to_string()))
    }

    fn save_snapshot(&mut self, _snapshot: &Snapshot) -> Result<(), EventStoreError> {
        Err(EventStoreError::StorageError("down".to_string()))
    }

    fn load_snapshot(&self, _aggregate_id: &str) -> Result<Option<Snapshot>, EventStoreError> {
        Err(EventStoreError::SerializationError("garbled".to_string()))
    }
}

#[test]
fn store_failures_reach_the_caller() {
    let mut store = BrokenStore;
    let repo = CounterRepository::new();
    assert!(matches!(repo.load(&store, "b"), Err(AggregateError::NotFound(id)) if id == "b"));
    assert!(matches!(
        repo.load_snapshotted(&store, "b", from_json),
        Err(AggregateError::SerializationError(m)) if m == "garbled"
    ));
    let mut aggregate = CounterAggregate::new_instance("b".to_string());
    increment(&mut aggregate, 1);
    assert!(matches!(
        repo.save(&mut store, &mut aggregate),
        Err(AggregateError::EventApplicationFailed(m)) if m == "down"
    ));
    assert_eq!(aggregate.uncommitted_events().len(), 1);
    assert!(matches!(
        repo.save_snapshot(&mut store, &aggregate, to_json),
        Err(AggregateError::EventApplicationFailed(m)) if m == "down"
    ));
}

#[test]
fn cloned_repositories_work_on_one_store() {
    let mut store = InMemoryEventStore::new();
    let one = CounterRepository::with_snapshots(1, to_json);
    let two = one.clone();

    let mut aggregate = one.load(&store, "shared").unwrap();
    increment(&mut aggregate, 8);
    one.save(&mut store, &mut aggregate).unwrap();

    let mut seen = two.load(&store, "shared").unwrap();
    assert_eq!(seen.root.state.count, 8);
    increment(&mut seen, 1);
    two.save(&mut store, &mut seen).unwrap();
    assert_eq!(store.load_snapshot("shared").unwrap().unwrap().version, 2);
    assert_eq!(one.load_snapshotted(&store, "shared", from_json).unwrap().root.state.count, 9);

    // What the clone has saved makes a copy of the aggregate stale.
    increment(&mut aggregate, 1);
    assert!(matches!(
        one.save(&mut store, &mut aggregate),
        Err(AggregateError::VersionConflict { expected: 1, actual: 2 })
    ));
}

/// A store that takes events and refuses snapshots, and counts what it is asked.
struct NoSnapshots {
    events: InMemoryEventStore,
    written: u64,
    refused: u64,
}

impl EventStore for NoSnapshots {
    fn save_events(
        &mut self,
        aggregate_id: &str,
        events: &[DomainEvent],
        expected_version: Option<u64>,
    ) -> Result<(), EventStoreError> {
        self.written += 1;
        self.events.save_events(aggregate_id, events, expected_version)
    }

    fn load_events(
        &self,
        aggregate_id: &str,
        from_version: Option<u64>,
    ) -> Result<Vec<DomainEvent>, EventStoreError> {
        self.events.load_events(aggregate_id, from_version)
    }

    fn save_snapshot(&mut self, _snapshot: &Snapshot) -> Result<(), EventStoreError> {
        self.refused += 1;
        Err(EventStoreError::StorageError("no room".to_string()))
    }

    fn load_snapshot(&self, _aggregate_id: &str) -> Result<Option<Snapshot>, EventStoreError> {
        Ok(None)
    }
}

#[test]
fn a_refused_snapshot_leaves_the_events_saved() {
    let mut store = NoSnapshots { events: InMemoryEventStore::new(), written: 0, refused: 0 };
    let repo = CounterRepository::with_snapshots(1, to_json);
    let mut aggregate = repo.load(&store, "n").unwrap();
    increment(&mut aggregate, 3);
    assert!(matches!(
        repo.save(&mut store, &mut aggregate),
        Err(AggregateError::EventApplicationFailed(m)) if m == "no room"
    ));
    assert!(aggregate.uncommitted_events().is_empty());
    assert_eq!((store.written, store.refused), (1, 1));

    increment(&mut aggregate, 4);
    assert!(repo.save_snapshot(&mut store, &aggregate, to_json).is_err());
    assert_eq!(aggregate.uncommitted_events().len(), 1);
    assert_eq!((store.written, store.refused), (1, 2));
    assert_eq!(repo.load(&store, "n").unwrap().root.state.count, 3);
}

#[test]
fn a_frequency_of_zero_saves_as_without_snapshots() {
    let mut store = NoSnapshots { events: InMemoryEventStore::new(), written: 0, refused: 0 };
    let zero = CounterRepository::with_snapshots(0, to_json);
    let none = CounterRepository::new();
    let mut aggregate = zero.load(&store, "zn").unwrap();
    increment(&mut aggregate, 1);
    zero.save(&mut store, &mut aggregate).unwrap();
    increment(&mut aggregate, 1);
    none.save(&mut store, &mut aggregate).unwrap();
    zero.save_with_snapshot(&mut store, &mut aggregate).unwrap();
    assert_eq!((store.written, store.refused), (2, 0));
}

#[test]
fn aggregates_in_sync_have_counted_their_staged_events() {
    let mut aggregate = CounterAggregate::new_instance("cs".to_string());
    assert!(counts_staged(&aggregate));
    increment(&mut aggregate, 1);
    assert!(counts_staged(&aggregate));
    aggregate.root.add_event(increment_event("cs", 1));
    assert!(!counts_staged(&aggregate));
}

#[test]
fn confirming_a_write_settles_the_staged_events() {
    let mut aggregate = CounterAggregate::new_instance("c".to_string());
    increment(&mut aggregate, 1);
    let lost = Err(EventStoreError::VersionConflict { expected: 0, actual: 3 });
    assert!(matches!(
        confirm_save(&mut aggregate, lost),
        Err(AggregateError::VersionConflict { expected: 0, actual: 3 })
    ));
    assert_eq!(aggregate.uncommitted_events().len(), 1);
    confirm_save(&mut aggregate, Ok(())).unwrap();
    assert!(aggregate.uncommitted_events().is_empty());
    assert_eq!(aggregate.version(), 1);
}

#[test]
fn answers_are_taken_to_the_caller() {
    assert!(matches!(lift(Ok(3)), Ok(3)));
    assert!(matches!(
        lift::<()>(Err(EventStoreError::NotFound("x".to_string()))),
        Err(AggregateError::NotFound(id)) if id == "x"
    ));
    assert!(matches!(lift_coded(Ok(true)), Ok(true)));
    assert!(matches!(
        lift_coded::<bool>(Err("bad".to_string())),
        Err(AggregateError::SerializationError(m)) if m == "bad"
    ));

    let seed = CounterAggregate::new_instance("d".to_string());
    let events = vec![increment_event("d", 2), increment_event("d", 3)];
    let built = rebuild(seed.clone(), Ok(events)).unwrap();
    assert_eq!(built.root.state.count, 5);
    assert!(matches!(
        rebuild(seed, Err(EventStoreError::StorageError("down".to_string()))),
        Err(AggregateError::EventApplicationFailed(m)) if m == "down"
    ));

    let snapshot = describe(&built, Value::from(5));
    assert_eq!(snapshot.aggregate_id, "d");
    assert_eq!(snapshot.aggregate_type, "CounterAggregate");
    assert_eq!(snapshot.version, 2);
    assert_eq!(snapshot.state, Value::from(5));
}

#[test]
fn aggregates_of_any_type_can_be_snapshotted() {
    let mut store = InMemoryEventStore::new();
    let repo = AggregateRepository::<TestAggregate, ToJson<TestAggregate>>::with_snapshots(
        1,
        test_to_json,
    );
    let mut aggregate = TestAggregate::new_instance("t".to_string());
    let event = DomainEvent::new("test_event", "t", "TestAggregate", object(vec![]));
    aggregate.apply_event(&event).unwrap();
    aggregate.root.add_event(event);
    repo.save(&mut store, &mut aggregate).unwrap();
    let snapshot = store.load_snapshot("t").unwrap().unwrap();
    assert_eq!(snapshot.aggregate_type, "TestAggregate");
    assert_eq!(snapshot.state, Value::from(0));
}

#[derive(Debug, Clone)]
struct UserState {
    email: String,
    active: bool,
}

#[derive(Debug, Clone)]
struct UserAggregate {
    root: AggregateRoot<UserState>,
}

impl Aggregate for UserAggregate {
    fn aggregate_id(&self) -> &str {
        &self.root.id
    }

    fn aggregate_type() -> &'static str {
        "User"
    }

    fn version(&self) -> u64 {
        self.root.version
    }

    fn apply_event(&mut self, event: &DomainEvent) -> Result<(), AggregateError> {
        match event.metadata.name.as_str() {
            "user_created" => {
                self.root.state.email = event.payload["email"].as_str().unwrap().to_string();
                self.root.state.active = true;
                self.root.increment_version();
            }
            "user_deactivated" => {
                self.root.state.active = false;
                self.root.increment_version();
            }
            other => {
                return Err(AggregateError::EventApplicationFailed(other.to_string()));
            }
        }
        Ok(())
    }

    fn uncommitted_events(&self) -> &[DomainEvent] {
        &self.root.uncommitted_events
    }

    fn mark_events_committed(&mut self) {
        self.root.uncommitted_events.clear();
    }

    fn new_instance(id: String) -> Self {
        Self {
            root: AggregateRoot::new(id, UserState { email: String::new(), active: false }),
        }
    }
}

#[test]
fn a_user_is_created_saved_and_loaded() {
    let mut store = InMemoryEventStore::new();
    let repo = AggregateRepository::<UserAggregate, ToJson<UserAggregate>>::new();
    let mut user = UserAggregate::new_instance("user-123".to_string());
    user.root.add_event(DomainEvent::new(
        "user_created",
        "user-123",
        "User",
        object(vec![("email", Value::from("alice@example.com"))]),
    ));
    let event = user.root.uncommitted_events[0].clone();
    user.apply_event(&event).unwrap();
    repo.save(&mut store, &mut user).unwrap();

    let loaded = repo.load(&store, "user-123").unwrap();
    assert_eq!(loaded.root.state.email, "alice@example.com");
    assert!(loaded.root.state.active);
    assert_eq!(loaded.version(), 1);
}
