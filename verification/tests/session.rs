//! Tests of the session lifecycle, the write-once start instant and the
//! session payload builder.

use indigauge::{
    build_start_session_payload, ApiResponse, BatchBuffer, ErrorBody, EventLevel, EventPayload,
    IndigaugeConfig, IndigaugeInitDoneEvent, IndigaugeMode, QueuedEvent, SessionPhase,
    SessionStartInstant, SessionState, StartDecision, StartSessionEvent, StartSessionResponse,
    handle_queued_events, EventQueue,
};

#[test]
fn start_instant_is_write_once() {
    let mut start = SessionStartInstant::new();
    assert!(!start.is_set());
    assert!(start.set(1000).is_ok());
    assert!(start.is_set());
    // a second set is an error value, not a crash, and the original stays
    assert!(start.set(2000).is_err());
    assert_eq!(start.elapsed_ms(1500), Some(500));
    assert_eq!(start.elapsed_ms(900), Some(0));
}

#[test]
fn elapsed_is_none_before_session_start() {
    let start = SessionStartInstant::new();
    assert_eq!(start.elapsed_ms(12345), None);
}

#[test]
fn start_decisions_follow_state_and_mode() {
    let start = SessionStartInstant::new();

    let mut state = SessionState::new();
    assert_eq!(state.phase, SessionPhase::Uninitialized);
    let d = state.request_start(&start, true, IndigaugeMode::Live);
    assert_eq!(d, StartDecision::SendRequest);
    assert_eq!(state.phase, SessionPhase::Starting);

    // asking again while starting is skipped
    let d = state.request_start(&start, true, IndigaugeMode::Live);
    assert_eq!(d, StartDecision::SkipAlreadyStarted);

    let mut state = SessionState::new();
    let d = state.request_start(&start, false, IndigaugeMode::Live);
    assert_eq!(d, StartDecision::FailNoSender);
    assert_eq!(state.phase, SessionPhase::Failed);

    let mut state = SessionState::new();
    let d = state.request_start(&start, true, IndigaugeMode::Disabled);
    assert_eq!(d, StartDecision::SkipDisabled);
    assert_eq!(state.phase, SessionPhase::Skipped);

    let mut state = SessionState::new();
    let d = state.request_start(&start, true, IndigaugeMode::Dev);
    assert_eq!(d, StartDecision::StartDev);
    assert_eq!(state.phase, SessionPhase::Starting);
}

#[test]
fn completing_a_start_activates_the_session() {
    let mut start = SessionStartInstant::new();
    let mut state = SessionState::new();
    state.request_start(&start, true, IndigaugeMode::Dev);
    let outcome = state.complete_start(&mut start, StartSessionResponse::dev().session_token, 42);
    assert!(matches!(outcome, IndigaugeInitDoneEvent::Success));
    assert_eq!(state.phase, SessionPhase::Active);
    assert_eq!(state.token.as_deref(), Some("dev"));
    assert!(start.is_set());
}

#[test]
fn completing_a_start_twice_fails_and_keeps_the_instant() {
    let mut start = SessionStartInstant::new();
    let mut state = SessionState::new();
    let first = state.complete_start(&mut start, "tok".to_string(), 100);
    assert!(matches!(first, IndigaugeInitDoneEvent::Success));
    let second = state.complete_start(&mut start, "other".to_string(), 999);
    assert!(matches!(second, IndigaugeInitDoneEvent::Failure(_)));
    assert_eq!(state.token.as_deref(), Some("tok"));
    assert_eq!(start.elapsed_ms(100), Some(0));
}

#[test]
fn start_responses_drive_the_state() {
    let mut start = SessionStartInstant::new();
    let mut state = SessionState::new();
    let response: ApiResponse<StartSessionResponse> = ApiResponse::Error(ErrorBody {
        code: "401".to_string(),
        message: "bad key".to_string(),
    });
    let outcome = state.handle_start_response(&mut start, response, 10);
    assert!(matches!(outcome, IndigaugeInitDoneEvent::Failure(_)));
    assert_eq!(state.phase, SessionPhase::Failed);
    assert!(!start.is_set());

    let mut state = SessionState::new();
    let response = ApiResponse::Success(StartSessionResponse {
        session_token: "abc".to_string(),
    });
    let outcome = state.handle_start_response(&mut start, response, 10);
    assert!(matches!(outcome, IndigaugeInitDoneEvent::Success));
    assert_eq!(state.phase, SessionPhase::Active);
    assert_eq!(state.token.as_deref(), Some("abc"));
}

#[test]
fn ending_a_session_forces_a_final_flush() {
    let mut queue = EventQueue::new(10);
    for n in 0..3u32 {
        let payload =
            EventPayload::new("game.start".to_string(), EventLevel::Info, None, u128::from(n));
        assert!(queue.enqueue(true, QueuedEvent::new(payload)));
    }
    let mut buffer = BatchBuffer::new();
    handle_queued_events(&mut queue, &mut buffer);
    let mut state = SessionState::new();
    let batch = state.end_session(&mut buffer, 64);
    assert_eq!(batch.len(), 3);
    assert_eq!(buffer.len(), 0);
    assert_eq!(state.phase, SessionPhase::Ended);
}

#[test]
fn dev_response_uses_the_sentinel_token() {
    assert_eq!(StartSessionResponse::dev().session_token, "dev");
}

#[test]
fn start_session_event_builder() {
    assert_eq!(StartSessionEvent::new().platform, None);
    let ev = StartSessionEvent::new().with_platform("steam".to_string());
    assert_eq!(ev.platform.as_deref(), Some("steam"));
}

#[test]
fn session_payload_buckets_the_hardware() {
    let payload = build_start_session_payload(
        "1.2.3".to_string(),
        Some("player".to_string()),
        Some("steam".to_string()),
        Some("linux".to_string()),
        "16",
        "31.9 GiB",
        "AMD Ryzen 7 5800X",
        Some("RTX 3070".to_string()),
    );
    assert_eq!(payload.client_version, "1.2.3");
    assert_eq!(payload.cores.as_deref(), Some(">8"));
    assert_eq!(payload.memory.as_deref(), Some(">16"));
    assert_eq!(payload.cpu_family.as_deref(), Some("AMD Ryzen 5000 Series"));
    assert_eq!(payload.gpu.as_deref(), Some("RTX 3070"));

    let payload = build_start_session_payload(
        "1.2.3".to_string(),
        None,
        None,
        None,
        "not a number",
        "no memory info",
        "Mystery CPU",
        None,
    );
    assert_eq!(payload.cores, None);
    assert_eq!(payload.memory, None);
    assert_eq!(payload.cpu_family, None);
}

#[test]
fn config_defaults_and_urls() {
    let config = IndigaugeConfig::new(
        "mygame".to_string(),
        "pk".to_string(),
        "0.1.0".to_string(),
        None,
    );
    assert_eq!(config.api_base, "https://ingest.indigauge.com");
    assert_eq!(config.batch_size, 64);
    assert_eq!(config.max_queue, 10000);
    assert_eq!(config.flush_interval_ms, 10000);
    assert_eq!(config.request_timeout_ms, 10000);
    assert!(config.has_public_key());
    assert_eq!(config.api_url("events/batch"), "https://ingest.indigauge.com/v1/events/batch");

    let config = IndigaugeConfig::new(
        "mygame".to_string(),
        "".to_string(),
        "0.1.0".to_string(),
        Some("http://localhost:9999".to_string()),
    );
    assert!(!config.has_public_key());
    assert_eq!(config.api_url("feedback"), "http://localhost:9999/v1/feedback");
}
