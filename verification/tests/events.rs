//! Tests of event payloads, levels, the crash report builder and the small
//! helpers.

use indigauge::{
    build_crash_report, build_event_payload, select, EventLevel, EventPayload,
    IndigaugeLogLevel, SessionStartInstant,
};

#[test]
fn event_payload_holds_its_fields_and_a_fresh_key() {
    let payload = EventPayload::new(
        "ui.click".to_string(),
        EventLevel::Debug,
        Some(serde_json::Value::Bool(true)),
        1234,
    );
    assert_eq!(payload.event_type, "ui.click");
    assert_eq!(payload.level, EventLevel::Debug);
    assert_eq!(payload.metadata, Some(serde_json::Value::Bool(true)));
    assert_eq!(payload.elapsed_ms, 1234);
    assert_eq!(payload.idempotency_key.len(), 36);
    assert!(payload.context.is_none());

    let other = EventPayload::new("ui.click".to_string(), EventLevel::Debug, None, 1234);
    assert_ne!(payload.idempotency_key, other.idempotency_key);
}

#[test]
fn levels_have_wire_names() {
    assert_eq!(EventLevel::Trace.as_str(), "trace");
    assert_eq!(EventLevel::Warn.as_str(), "warn");
    assert_eq!(EventLevel::Fatal.as_str(), "fatal");
    assert_eq!(IndigaugeLogLevel::Debug.as_str(), "debug");
    assert_eq!(IndigaugeLogLevel::Silent.as_str(), "silent");
}

#[test]
fn log_levels_gate_by_rank() {
    assert!(IndigaugeLogLevel::Info.allows(IndigaugeLogLevel::Error));
    assert!(IndigaugeLogLevel::Error.allows(IndigaugeLogLevel::Error));
    assert!(!IndigaugeLogLevel::Silent.allows(IndigaugeLogLevel::Error));
}

#[test]
fn built_payload_context_follows_the_level() {
    let payload = build_event_payload(
        EventLevel::Fatal,
        "game.crash".to_string(),
        None,
        10,
        "main.rs".to_string(),
        3,
        "game".to_string(),
    );
    let ctx = payload.context.expect("fatal events carry context");
    assert_eq!(ctx.file, "main.rs");
    assert_eq!(ctx.line, 3);
    assert_eq!(ctx.module.as_deref(), Some("game"));

    let payload = build_event_payload(
        EventLevel::Trace,
        "ui.hover".to_string(),
        None,
        10,
        "ui.rs".to_string(),
        8,
        "ui".to_string(),
    );
    assert!(payload.context.is_none());
}

#[test]
fn crash_report_is_skipped_without_session_or_under_dev() {
    let start = SessionStartInstant::new();
    assert!(build_crash_report(&start, "tok", 100, None, None).is_none());

    let mut start = SessionStartInstant::new();
    start.set(10).unwrap();
    assert!(build_crash_report(&start, "dev", 100, None, None).is_none());
}

#[test]
fn crash_report_carries_the_panic_details() {
    let mut start = SessionStartInstant::new();
    start.set(10).unwrap();
    let report = build_crash_report(
        &start,
        "token",
        110,
        Some("boom".to_string()),
        Some(("game.rs".to_string(), 27)),
    )
    .expect("a live session reports crashes");
    assert_eq!(report.event_type, "game.crash");
    assert_eq!(report.level, EventLevel::Fatal);
    assert_eq!(report.elapsed_ms, 100);
    assert!(report.metadata.is_some());
    let ctx = report.context.expect("the panic location becomes context");
    assert_eq!(ctx.file, "game.rs");
    assert_eq!(ctx.line, 27);
    assert_eq!(ctx.module, None);

    let bare = build_crash_report(&start, "token", 110, None, None).unwrap();
    assert!(bare.metadata.is_none());
    assert!(bare.context.is_none());
}

#[test]
fn select_picks_by_condition() {
    assert_eq!(select(1, 2, true), 1);
    assert_eq!(select(1, 2, false), 2);
    assert_eq!(select("a", "b", false), "b");
}

#[test]
fn feedback_and_batch_payloads_hold_their_fields() {
    let feedback = indigauge::FeedbackPayload::new(
        "more checkpoints please".to_string(),
        5000,
        Some("How was the level?".to_string()),
        "suggestion".to_string(),
    );
    assert_eq!(feedback.message, "more checkpoints please");
    assert_eq!(feedback.elapsed_ms, 5000);
    assert_eq!(feedback.question.as_deref(), Some("How was the level?"));
    assert_eq!(feedback.category, "suggestion");

    let batch = indigauge::BatchEventPayload {
        events: vec![EventPayload::new(
            "game.start".to_string(),
            EventLevel::Info,
            None,
            0,
        )],
    };
    assert_eq!(batch.events.len(), 1);
}
