use medbook_core::app_error::CoreError;
use medbook_core::outbox::{
    publish, CreateOutboxEntity, EventStatus, OutboxEntity, OutboxStore, PublishAttempt,
};

fn enqueue(store: &mut OutboxStore, event_type: &str, payload: &str, now: i64) -> OutboxEntity {
    publish(store, event_type.to_string(), Some(payload.to_string()), now).unwrap()
}

#[test]
fn publish_assigns_ascending_ids_and_pending_status() {
    let mut store = OutboxStore::new();
    let a = enqueue(&mut store, "booking.created", "{\"id\":1}", 100);
    let b = enqueue(&mut store, "booking.cancelled", "{\"id\":2}", 150);
    let c = enqueue(&mut store, "booking.created", "{\"id\":3}", 200);
    assert_eq!(a.id, 1);
    assert_eq!(b.id, 2);
    assert_eq!(c.id, 3);
    assert_eq!(a.status, EventStatus::Pending);
    assert_eq!(a.created_at, 100);
    assert_eq!(a.updated_at, 100);
    assert_eq!(b.event_type, "booking.cancelled");
    assert_eq!(c.payload, "{\"id\":3}");
}

#[test]
fn publish_rejects_unserializable_payload() {
    let mut store = OutboxStore::new();
    let r = publish(&mut store, "booking.created".to_string(), None, 100);
    assert_eq!(r.unwrap_err(), CoreError::SerializationError);
    assert_eq!(store.events.len(), 0);
}

#[test]
fn publish_rejects_full_store() {
    let mut store = OutboxStore {
        events: Vec::new(),
        next_id: i32::MAX,
    };
    let r = publish(
        &mut store,
        "booking.created".to_string(),
        Some("{}".to_string()),
        100,
    );
    assert_eq!(r.unwrap_err(), CoreError::StoreError);
    assert_eq!(store.next_id, i32::MAX);
}

#[test]
fn select_pending_returns_only_pending_rows_in_order() {
    let mut store = OutboxStore::new();
    enqueue(&mut store, "a", "1", 10);
    enqueue(&mut store, "b", "2", 20);
    enqueue(&mut store, "c", "3", 30);
    store.mark_processed(2, 40);
    let pending = store.select_pending();
    assert_eq!(pending.len(), 2);
    assert_eq!(pending[0].id, 1);
    assert_eq!(pending[0].event_type, "a");
    assert_eq!(pending[1].id, 3);
    assert_eq!(pending[1].event_type, "c");
}

#[test]
fn mark_processed_flips_status_and_updated_at_only() {
    let mut store = OutboxStore::new();
    enqueue(&mut store, "a", "1", 10);
    enqueue(&mut store, "b", "2", 20);
    let found = store.mark_processed(1, 99);
    assert!(found);
    assert_eq!(store.events[0].status, EventStatus::Processed);
    assert_eq!(store.events[0].updated_at, 99);
    assert_eq!(store.events[0].created_at, 10);
    assert_eq!(store.events[0].payload, "1");
    assert_eq!(store.events[1].status, EventStatus::Pending);
    assert_eq!(store.events[1].updated_at, 20);
    assert!(!store.mark_processed(7, 100));
}

// Simulated crash-recovery re-publish: marking the same row twice is safe and
// equals marking it once; the status never reverts.
#[test]
fn marking_twice_equals_marking_once() {
    let mut once = OutboxStore::new();
    enqueue(&mut once, "a", "1", 10);
    enqueue(&mut once, "b", "2", 20);
    let mut twice = OutboxStore::new();
    enqueue(&mut twice, "a", "1", 10);
    enqueue(&mut twice, "b", "2", 20);
    once.mark_processed(1, 50);
    twice.mark_processed(1, 50);
    let found_again = twice.mark_processed(1, 50);
    assert!(found_again);
    for (a, b) in once.events.iter().zip(twice.events.iter()) {
        assert_eq!(a.id, b.id);
        assert_eq!(a.status, b.status);
        assert_eq!(a.created_at, b.created_at);
        assert_eq!(a.updated_at, b.updated_at);
        assert_eq!(a.payload, b.payload);
    }
    assert_eq!(twice.events[0].status, EventStatus::Processed);
}

// With a broker that accepts every publish, a single cycle processes every
// pending event exactly once and skips none.
#[test]
fn cycle_with_successful_broker_processes_every_event() {
    let mut store = OutboxStore::new();
    enqueue(&mut store, "a", "1", 10);
    enqueue(&mut store, "b", "2", 20);
    enqueue(&mut store, "c", "3", 30);
    let outcomes: Vec<Result<(), CoreError>> = vec![Ok(()), Ok(()), Ok(())];
    let log: Vec<PublishAttempt> = store.run_publish_cycle(&outcomes, 100);
    assert_eq!(log.len(), 3);
    for (k, attempt) in log.iter().enumerate() {
        assert_eq!(attempt.id, (k + 1) as i32);
        assert!(attempt.delivered);
    }
    for row in store.events.iter() {
        assert_eq!(row.status, EventStatus::Processed);
        assert_eq!(row.updated_at, 100);
    }
    assert_eq!(store.select_pending().len(), 0);
    // a second cycle finds nothing to publish
    let empty: Vec<Result<(), CoreError>> = Vec::new();
    let log2 = store.run_publish_cycle(&empty, 200);
    assert_eq!(log2.len(), 0);
}

// A publish failure for one row leaves it pending and retried next cycle;
// the others still reach Processed in the same cycle.
#[test]
fn cycle_with_one_failure_keeps_that_row_pending() {
    let mut store = OutboxStore::new();
    enqueue(&mut store, "a", "1", 10);
    enqueue(&mut store, "b", "2", 20);
    enqueue(&mut store, "c", "3", 30);
    let outcomes = vec![Ok(()), Err(CoreError::BrokerError), Ok(())];
    let log = store.run_publish_cycle(&outcomes, 100);
    assert_eq!(log.len(), 3);
    assert!(log[0].delivered);
    assert!(!log[1].delivered);
    assert!(log[2].delivered);
    assert_eq!(store.events[0].status, EventStatus::Processed);
    assert_eq!(store.events[1].status, EventStatus::Pending);
    assert_eq!(store.events[1].payload, "2");
    assert_eq!(store.events[1].updated_at, 20);
    assert_eq!(store.events[2].status, EventStatus::Processed);
    let pending = store.select_pending();
    assert_eq!(pending.len(), 1);
    assert_eq!(pending[0].id, 2);
}

// Events inserted with ids 1, 2, 3, all pending before any poll: a single
// cycle publishes them in ascending id order.
#[test]
fn cycle_publishes_in_ascending_id_order() {
    let mut store = OutboxStore::new();
    enqueue(&mut store, "third", "3", 30);
    enqueue(&mut store, "first", "1", 10);
    enqueue(&mut store, "second", "2", 20);
    let outcomes = vec![Ok(()), Ok(()), Ok(())];
    let log = store.run_publish_cycle(&outcomes, 100);
    let ids: Vec<i32> = log.iter().map(|a| a.id).collect();
    assert_eq!(ids, vec![1, 2, 3]);
    assert_eq!(log[0].queue, "third");
    assert_eq!(log[1].queue, "first");
    assert_eq!(log[2].queue, "second");
}

// Scenario: one event against a stub broker that always succeeds — the row is
// Processed and exactly one publish went to the queue named after the event
// type, with the exact payload.
#[test]
fn scenario_single_event_successful_cycle() {
    let mut store = OutboxStore::new();
    enqueue(&mut store, "booking.created", "{\"id\":42}", 10);
    let outcomes = vec![Ok(())];
    let log = store.run_publish_cycle(&outcomes, 20);
    assert_eq!(log.len(), 1);
    assert_eq!(log[0].queue, "booking.created");
    assert_eq!(log[0].payload, "{\"id\":42}");
    assert!(log[0].delivered);
    assert_eq!(store.events[0].status, EventStatus::Processed);
}

// Scenario: the stub broker fails the first publish only; after one cycle the
// event is still Pending, after a second (now succeeding) it is Processed.
#[test]
fn scenario_retry_after_first_failure() {
    let mut store = OutboxStore::new();
    enqueue(&mut store, "booking.created", "{\"id\":42}", 10);
    let first = store.run_publish_cycle(&vec![Err(CoreError::BrokerError)], 20);
    assert_eq!(first.len(), 1);
    assert!(!first[0].delivered);
    assert_eq!(store.events[0].status, EventStatus::Pending);
    let second = store.run_publish_cycle(&vec![Ok(())], 30);
    assert_eq!(second.len(), 1);
    assert!(second[0].delivered);
    assert_eq!(second[0].payload, "{\"id\":42}");
    assert_eq!(store.events[0].status, EventStatus::Processed);
    assert_eq!(store.events[0].updated_at, 30);
}

#[test]
fn cycle_on_empty_store_publishes_nothing() {
    let mut store = OutboxStore::new();
    let outcomes: Vec<Result<(), CoreError>> = Vec::new();
    let log = store.run_publish_cycle(&outcomes, 100);
    assert_eq!(log.len(), 0);
    assert_eq!(store.events.len(), 0);
}

#[test]
fn insert_keeps_caller_values() {
    let mut store = OutboxStore::new();
    let row = store.insert(
        CreateOutboxEntity {
            event_type: "booking.created".to_string(),
            payload: "{\"id\":42}".to_string(),
        },
        77,
    );
    assert_eq!(row.id, 1);
    assert_eq!(row.event_type, "booking.created");
    assert_eq!(row.payload, "{\"id\":42}");
    assert_eq!(row.status, EventStatus::Pending);
    assert_eq!(row.created_at, 77);
    assert_eq!(store.next_id, 2);
}

#[test]
fn publish_now_stamps_creation_and_update_alike() {
    let mut store = OutboxStore::new();
    let row = medbook_core::outbox::publish_now(
        &mut store,
        "booking.created".to_string(),
        Some("{}".to_string()),
    )
    .unwrap();
    assert_eq!(row.created_at, row.updated_at);
    assert_eq!(row.status, EventStatus::Pending);
    let r = medbook_core::outbox::publish_now(&mut store, "booking.created".to_string(), None);
    assert_eq!(r.unwrap_err(), CoreError::SerializationError);
}
