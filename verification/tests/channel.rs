//! Tests of the cross-thread ingress: the real bounded channel, the
//! producer path, and draining into the buffer.

use indigauge::{
    channel_bounded, drain_channel, enqueue, should_install_queue, BatchBuffer, EventLevel,
    EventPayload, IndigaugeMode, QueuedEvent,
};

#[test]
fn enqueue_fills_the_channel_and_then_drops() {
    let (tx, _rx) = channel_bounded(2);
    let sent = enqueue(
        &tx,
        Some(5),
        EventLevel::Info,
        "game.start".to_string(),
        None,
        "main.rs".to_string(),
        1,
        "game".to_string(),
    );
    assert!(sent);
    assert!(enqueue(
        &tx,
        Some(6),
        EventLevel::Info,
        "game.tick".to_string(),
        None,
        "main.rs".to_string(),
        2,
        "game".to_string(),
    ));
    // the channel is at capacity: the event is dropped silently
    assert!(!enqueue(
        &tx,
        Some(7),
        EventLevel::Info,
        "game.tick".to_string(),
        None,
        "main.rs".to_string(),
        3,
        "game".to_string(),
    ));
}

#[test]
fn enqueue_without_session_start_is_refused() {
    let (tx, _rx) = channel_bounded(8);
    assert!(!enqueue(
        &tx,
        None,
        EventLevel::Info,
        "game.start".to_string(),
        None,
        "main.rs".to_string(),
        1,
        "game".to_string(),
    ));
}

#[test]
fn drained_events_carry_what_was_enqueued() {
    let (tx, rx) = channel_bounded(8);
    assert!(enqueue(
        &tx,
        Some(41),
        EventLevel::Warn,
        "save.failed".to_string(),
        None,
        "save.rs".to_string(),
        77,
        "game::save".to_string(),
    ));
    let mut buffer = BatchBuffer::new();
    let (accepted, dropped) = drain_channel(&rx, &mut buffer);
    assert_eq!((accepted, dropped), (1, 0));
    let batch = buffer.flush(64);
    assert_eq!(batch.len(), 1);
    let payload = &batch[0];
    assert_eq!(payload.event_type, "save.failed");
    assert_eq!(payload.elapsed_ms, 41);
    assert_eq!(payload.idempotency_key.len(), 36);
    // warnings carry their source context
    let ctx = payload.context.as_ref().expect("warn events carry context");
    assert_eq!(ctx.file, "save.rs");
    assert_eq!(ctx.line, 77);
    assert_eq!(ctx.module.as_deref(), Some("game::save"));
}

#[test]
fn info_events_carry_no_context_and_empty_module_is_dropped() {
    let (tx, rx) = channel_bounded(8);
    assert!(enqueue(
        &tx,
        Some(1),
        EventLevel::Info,
        "ui.click".to_string(),
        None,
        "ui.rs".to_string(),
        5,
        "ui".to_string(),
    ));
    assert!(enqueue(
        &tx,
        Some(2),
        EventLevel::Error,
        "net.lost".to_string(),
        None,
        "net.rs".to_string(),
        9,
        "".to_string(),
    ));
    let mut buffer = BatchBuffer::new();
    drain_channel(&rx, &mut buffer);
    let batch = buffer.flush(64);
    assert_eq!(batch.len(), 2);
    assert!(batch[0].context.is_none());
    let ctx = batch[1].context.as_ref().expect("error events carry context");
    assert_eq!(ctx.module, None);
}

#[test]
fn drain_drops_events_that_fail_revalidation() {
    let (tx, rx) = channel_bounded(8);
    // an event built outside the validated path, with a malformed type
    let rogue = QueuedEvent::new(EventPayload::new(
        "no dots here".to_string(),
        EventLevel::Info,
        None,
        0,
    ));
    assert!(enqueue(
        &tx,
        Some(1),
        EventLevel::Info,
        "game.start".to_string(),
        None,
        "main.rs".to_string(),
        1,
        "game".to_string(),
    ));
    // push the rogue event through the same channel
    tx.try_send(rogue).expect("the channel has room");
    let mut buffer = BatchBuffer::new();
    let (accepted, dropped) = drain_channel(&rx, &mut buffer);
    assert_eq!(accepted, 1);
    assert_eq!(dropped, 1);
    assert_eq!(buffer.len(), 1);
}

#[test]
fn queue_installation_gate() {
    assert!(should_install_queue(IndigaugeMode::Live, true, false));
    assert!(should_install_queue(IndigaugeMode::Dev, false, false));
    assert!(!should_install_queue(IndigaugeMode::Live, false, false));
    assert!(!should_install_queue(IndigaugeMode::Disabled, true, false));
    assert!(!should_install_queue(IndigaugeMode::Live, true, true));
}
