//! The crash reporter's payload: the one event built out-of-band when the
//! process is going down. The decision of whether to report and what the
//! payload holds lives here, verified; the blocking best-effort delivery is
//! the embedding application's last act.

use vstd::prelude::*;

use crate::event::EventLevel;
use crate::event::EventPayload;
use crate::event::EventPayloadCtx;
use crate::session::SessionStartInstant;
use crate::session::dev_token;
use crate::strings::str_eq;

verus! {

/// Relies on `serde_json`'s `Value` and `Map` constructors: wraps a panic
/// message as the JSON object `{"message": <text>}`. The pipeline never
/// looks inside the value; the transport serializes it.
#[verifier::external_body]
fn message_metadata(text: String) -> (metadata: serde_json::Value) {
    let mut map = serde_json::Map::new();
    map.insert("message".to_string(), serde_json::Value::String(text));
    serde_json::Value::Object(map)
}

/// Builds the crash event reported from a panic hook: level `fatal`, event
/// type `game.crash`, the panic location as context, the panic message as
/// metadata, and the time elapsed since the session started. No report is
/// built when no session was ever started, or when the session runs under
/// the `dev` sentinel token.
pub fn build_crash_report(
    start: &SessionStartInstant,
    session_token: &str,
    now_ms: u128,
    message: Option<String>,
    location: Option<(String, u32)>,
) -> (report: Option<EventPayload>)
    ensures
        start@ is None ==> report is None,
        session_token@ == dev_token() ==> report is None,
        (start@ matches Some(started) && session_token@ != dev_token()) ==> match report {
            Some(payload) => {
                &&& payload.event_type@ == "game.crash"@
                &&& payload.level == EventLevel::Fatal
                &&& payload.elapsed_ms == crash_elapsed(start@, now_ms)
                &&& (payload.metadata is Some <==> message is Some)
                &&& payload.idempotency_key@.len() == 36
                &&& match location {
                    Some(loc) => match payload.context {
                        Some(ctx) => {
                            &&& ctx.file == loc.0
                            &&& ctx.line == loc.1
                            &&& ctx.module is None
                        },
                        None => false,
                    },
                    None => payload.context is None,
                }
            },
            None => false,
        },
{
    if !start.is_set() {
        return None;
    }
    if str_eq(session_token, "dev") {
        return None;
    }
    let elapsed = match start.elapsed_ms(now_ms) {
        Some(elapsed) => elapsed,
        None => 0,
    };
    let metadata = match message {
        Some(text) => Some(message_metadata(text)),
        None => None,
    };
    let context = match location {
        Some(loc) => Some(EventPayloadCtx { file: loc.0, line: loc.1, module: None }),
        None => None,
    };
    let payload = EventPayload::new(
        String::from_str("game.crash"),
        EventLevel::Fatal,
        metadata,
        elapsed,
    );
    Some(payload.with_context(context))
}

/// The elapsed time recorded in a crash report: the gap between the session
/// start instant and the crash, zero when the clock reads earlier than the
/// start.
pub open spec fn crash_elapsed(start: Option<u128>, now_ms: u128) -> u128 {
    match start {
        Some(started) => if now_ms >= started {
            (now_ms - started) as u128
        } else {
            0u128
        },
        None => 0u128,
    }
}

} // verus!
