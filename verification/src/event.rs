//! Event payloads: the immutable records that travel through the pipeline,
//! their severity levels, optional source context, and the queued wrapper
//! that re-checks validity at dequeue time.

use vstd::prelude::*;

use crate::errors::ValidationError;
use crate::validate::is_valid_event_type;
use crate::validate::validate_event_type;

verus! {

/// `serde_json::Value` carries structured event metadata through the
/// pipeline. The pipeline never looks inside it; the transport layer
/// serializes it.
#[verifier::external_type_specification]
#[verifier::external_body]
pub struct ExValue(serde_json::Value);

/// Severity of an event.
#[derive(Clone, Copy, Debug, PartialEq, Eq, Structural)]
pub enum EventLevel {
    Trace,
    Debug,
    Info,
    Warn,
    Error,
    Fatal,
}

/// The wire name of each severity level.
pub open spec fn level_str(level: EventLevel) -> Seq<char> {
    match level {
        EventLevel::Trace => "trace"@,
        EventLevel::Debug => "debug"@,
        EventLevel::Info => "info"@,
        EventLevel::Warn => "warn"@,
        EventLevel::Error => "error"@,
        EventLevel::Fatal => "fatal"@,
    }
}

/// Levels severe enough to carry source context: warnings, errors and
/// crash reports.
pub open spec fn carries_context(level: EventLevel) -> bool {
    level == EventLevel::Warn || level == EventLevel::Error || level == EventLevel::Fatal
}

impl EventLevel {
    /// The level's wire name.
    pub fn as_str(&self) -> (name: &'static str)
        ensures
            name@ == level_str(*self),
    {
        proof {
            reveal_strlit("trace");
            reveal_strlit("debug");
            reveal_strlit("info");
            reveal_strlit("warn");
            reveal_strlit("error");
            reveal_strlit("fatal");
        }
        match self {
            EventLevel::Trace => "trace",
            EventLevel::Debug => "debug",
            EventLevel::Info => "info",
            EventLevel::Warn => "warn",
            EventLevel::Error => "error",
            EventLevel::Fatal => "fatal",
        }
    }

    /// Whether events of this level carry source context.
    pub fn wants_context(&self) -> (b: bool)
        ensures
            b == carries_context(*self),
    {
        match self {
            EventLevel::Warn => true,
            EventLevel::Error => true,
            EventLevel::Fatal => true,
            _ => false,
        }
    }
}

/// Source code context attached to warnings, errors and crash reports.
#[derive(Debug)]
pub struct EventPayloadCtx {
    pub file: String,
    pub line: u32,
    pub module: Option<String>,
}

/// A single analytics event, immutable once constructed. Destroyed on
/// successful transmission or permanent drop.
#[derive(Debug)]
pub struct EventPayload {
    /// The type of the event, in `namespace.event` format.
    pub event_type: String,
    /// Structured metadata associated with the event, if any.
    pub metadata: Option<serde_json::Value>,
    /// Severity of the event.
    pub level: EventLevel,
    /// Milliseconds elapsed since the session started.
    pub elapsed_ms: u128,
    /// Random identifier enabling server-side deduplication.
    pub idempotency_key: String,
    /// Source context, populated only for the severest levels.
    pub context: Option<EventPayloadCtx>,
}

/// Relies on `uuid::Uuid::new_v4` and its hyphenated `Display` form: a fresh
/// random version-4 identifier always renders as 36 characters. Nothing more
/// is assumed of the random value.
#[verifier::external_body]
fn fresh_idempotency_key() -> (key: String)
    ensures
        key@.len() == 36,
{
    uuid::Uuid::new_v4().to_string()
}

impl EventPayload {
    /// Creates a new event payload without context and generates a fresh
    /// idempotency key for it.
    pub fn new(
        event_type: String,
        level: EventLevel,
        metadata: Option<serde_json::Value>,
        elapsed_ms: u128,
    ) -> (payload: EventPayload)
        ensures
            payload.event_type == event_type,
            payload.level == level,
            payload.metadata == metadata,
            payload.elapsed_ms == elapsed_ms,
            payload.idempotency_key@.len() == 36,
            payload.context is None,
    {
        EventPayload {
            event_type,
            metadata,
            level,
            elapsed_ms,
            idempotency_key: fresh_idempotency_key(),
            context: None,
        }
    }

    /// Attaches (or clears) source context, leaving every other field as is.
    pub fn with_context(self, ctx: Option<EventPayloadCtx>) -> (payload: EventPayload)
        ensures
            payload.event_type == self.event_type,
            payload.level == self.level,
            payload.metadata == self.metadata,
            payload.elapsed_ms == self.elapsed_ms,
            payload.idempotency_key == self.idempotency_key,
            payload.context == ctx,
    {
        EventPayload { context: ctx, ..self }
    }
}

/// A payload whose event type is well-formed.
pub open spec fn valid_payload(p: EventPayload) -> bool {
    is_valid_event_type(p.event_type@)
}

/// [`valid_payload`] as a predicate value, for filtering sequences of
/// payloads.
pub open spec fn valid_pred() -> spec_fn(EventPayload) -> bool {
    |p: EventPayload| valid_payload(p)
}

/// An event while it is owned by the queue: wraps a payload and re-checks
/// its validity at dequeue time, guarding against payloads constructed
/// outside the validated path.
#[derive(Debug)]
pub struct QueuedEvent {
    payload: EventPayload,
}

impl View for QueuedEvent {
    type V = EventPayload;

    /// A queued event is its wrapped payload.
    closed spec fn view(&self) -> EventPayload {
        self.payload
    }
}

impl QueuedEvent {
    /// Wraps a payload for queueing.
    pub fn new(payload: EventPayload) -> (ev: QueuedEvent)
        ensures
            ev@ == payload,
    {
        QueuedEvent { payload }
    }

    /// Unwraps and returns the inner event payload.
    pub fn into_inner(self) -> (payload: EventPayload)
        ensures
            payload == self@,
    {
        self.payload
    }

    /// Re-checks the event type format of the wrapped payload.
    pub fn validate(&self) -> (r: Result<(), ValidationError>)
        ensures
            r is Ok <==> is_valid_event_type(self@.event_type@),
    {
        validate_event_type(self.payload.event_type.as_str())
    }
}

/// The body of a batch request: the events of one flush, oldest first.
#[derive(Debug)]
pub struct BatchEventPayload {
    pub events: Vec<EventPayload>,
}

} // verus!
