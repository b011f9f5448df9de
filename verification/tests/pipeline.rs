//! Tests of the queue, the batch buffer and the flush triggers.

use std::collections::HashSet;

use indigauge::{
    handle_queued_events, BatchBuffer, EventLevel, EventPayload, EventQueue, FlushOutcome,
    QueuedEvent,
};

fn valid_event(n: u32) -> QueuedEvent {
    let _ = n;
    QueuedEvent::new(EventPayload::new(
        "game.start".to_string(),
        EventLevel::Info,
        None,
        u128::from(n),
    ))
}

fn invalid_event() -> QueuedEvent {
    QueuedEvent::new(EventPayload::new(
        "not valid".to_string(),
        EventLevel::Info,
        None,
        0,
    ))
}

#[test]
fn enqueue_at_capacity_returns_false_and_does_not_grow() {
    let mut queue = EventQueue::new(3);
    assert!(queue.enqueue(true, valid_event(0)));
    assert!(queue.enqueue(true, valid_event(1)));
    assert!(queue.enqueue(true, valid_event(2)));
    assert_eq!(queue.len(), 3);
    // at capacity: refused, length unchanged
    assert!(!queue.enqueue(true, valid_event(3)));
    assert_eq!(queue.len(), 3);
}

#[test]
fn enqueue_without_active_session_is_a_silent_drop() {
    let mut queue = EventQueue::new(10);
    assert!(!queue.enqueue(false, valid_event(0)));
    assert_eq!(queue.len(), 0);
}

#[test]
fn drain_revalidates_and_drops_invalid_events() {
    let mut queue = EventQueue::new(10);
    assert!(queue.enqueue(true, valid_event(0)));
    assert!(queue.enqueue(true, invalid_event()));
    assert!(queue.enqueue(true, valid_event(1)));
    let mut buffer = BatchBuffer::new();
    let dropped = handle_queued_events(&mut queue, &mut buffer);
    assert_eq!(dropped, 1);
    assert_eq!(queue.len(), 0);
    assert_eq!(buffer.len(), 2);
}

#[test]
fn flush_removes_the_oldest_prefix_in_order() {
    let mut queue = EventQueue::new(10);
    for n in 0..5 {
        assert!(queue.enqueue(true, valid_event(n)));
    }
    let mut buffer = BatchBuffer::new();
    handle_queued_events(&mut queue, &mut buffer);
    let batch = buffer.flush(3);
    // exactly min(len, batch_size) events leave, oldest first
    assert_eq!(batch.len(), 3);
    assert_eq!(buffer.len(), 2);
    let elapsed: Vec<u128> = batch.iter().map(|p| p.elapsed_ms).collect();
    assert_eq!(elapsed, vec![0, 1, 2]);
    let rest = buffer.flush(3);
    assert_eq!(rest.len(), 2);
    let elapsed_rest: Vec<u128> = rest.iter().map(|p| p.elapsed_ms).collect();
    assert_eq!(elapsed_rest, vec![3, 4]);
    assert_eq!(buffer.len(), 0);
}

#[test]
fn timer_flush_of_empty_buffer_is_a_heartbeat() {
    let mut buffer = BatchBuffer::new();
    match buffer.timer_flush(64) {
        FlushOutcome::Heartbeat => {}
        FlushOutcome::Batch(_) => panic!("an empty buffer must produce a heartbeat"),
    }
    assert_eq!(buffer.len(), 0);
}

#[test]
fn timer_flush_of_nonempty_buffer_is_a_batch() {
    let mut queue = EventQueue::new(10);
    assert!(queue.enqueue(true, valid_event(7)));
    let mut buffer = BatchBuffer::new();
    handle_queued_events(&mut queue, &mut buffer);
    match buffer.timer_flush(64) {
        FlushOutcome::Batch(batch) => assert_eq!(batch.len(), 1),
        FlushOutcome::Heartbeat => panic!("a pending event must produce a batch"),
    }
    assert_eq!(buffer.len(), 0);
}

#[test]
fn size_trigger_fires_only_at_batch_size() {
    let mut queue = EventQueue::new(100);
    for n in 0..63 {
        assert!(queue.enqueue(true, valid_event(n)));
    }
    let mut buffer = BatchBuffer::new();
    handle_queued_events(&mut queue, &mut buffer);
    assert!(buffer.maybe_flush(64).is_none());
    assert!(queue.enqueue(true, valid_event(63)));
    handle_queued_events(&mut queue, &mut buffer);
    let batch = buffer.maybe_flush(64).expect("64 buffered events must flush");
    assert_eq!(batch.len(), 64);
    assert_eq!(buffer.len(), 0);
}

#[test]
fn hundred_events_flush_as_sixty_four_then_thirty_six() {
    let mut queue = EventQueue::new(10000);
    for n in 0..100 {
        assert!(queue.enqueue(true, valid_event(n)));
    }
    let mut buffer = BatchBuffer::new();
    let dropped = handle_queued_events(&mut queue, &mut buffer);
    assert_eq!(dropped, 0);

    // the size trigger fires once, taking exactly one full batch
    let first = buffer.maybe_flush(64).expect("the size trigger must fire");
    assert_eq!(first.len(), 64);
    assert!(buffer.maybe_flush(64).is_none());

    // a later timer (or session-end) flush takes the remaining events
    let second = match buffer.timer_flush(64) {
        FlushOutcome::Batch(batch) => batch,
        FlushOutcome::Heartbeat => panic!("events were still pending"),
    };
    assert_eq!(second.len(), 36);
    assert_eq!(buffer.len(), 0);

    // every event carries a distinct idempotency key
    let mut keys = HashSet::new();
    for payload in first.iter().chain(second.iter()) {
        assert_eq!(payload.idempotency_key.len(), 36);
        assert!(keys.insert(payload.idempotency_key.clone()));
    }
    assert_eq!(keys.len(), 100);
}

#[test]
fn queued_event_validate_rechecks_the_payload() {
    assert!(valid_event(0).validate().is_ok());
    assert!(invalid_event().validate().is_err());
    let payload = invalid_event().into_inner();
    assert_eq!(payload.event_type, "not valid");
}
