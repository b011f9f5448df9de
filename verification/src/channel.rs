//! Cross-thread ingress: producers on arbitrary threads hand events to the
//! scheduler through a bounded multi-producer/single-consumer channel.
//!
//! The channel itself is an outside concurrent structure: other threads may
//! send between any two observations, so nothing is assumed about what it
//! holds, only about the shape of each call's outcome. The pipeline therefore
//! re-validates every event on drain (see [`crate::buffer`]); the bounded
//! queue discipline itself is stated and proved on [`crate::queue::EventQueue`].

use vstd::prelude::*;

use crate::buffer::BatchBuffer;
use crate::event::EventLevel;
use crate::event::EventPayload;
use crate::event::EventPayloadCtx;
use crate::event::QueuedEvent;
use crate::event::carries_context;
use crate::event::valid_payload;

verus! {

/// `crossbeam_channel::Sender`: the producer half of the channel.
#[verifier::external_type_specification]
#[verifier::external_body]
#[verifier::reject_recursive_types(T)]
pub struct ExSender<T>(crossbeam_channel::Sender<T>);

/// `crossbeam_channel::Receiver`: the consumer half of the channel.
#[verifier::external_type_specification]
#[verifier::external_body]
#[verifier::reject_recursive_types(T)]
pub struct ExReceiver<T>(crossbeam_channel::Receiver<T>);

/// Relies on `crossbeam_channel::bounded`: creates a channel with the given
/// capacity. The capacity bound keeps clear of the internal index arithmetic
/// that would panic on absurdly large capacities; nothing is assumed about
/// the returned handles.
#[verifier::external_body]
pub fn channel_bounded(cap: usize) -> (handles: (
    crossbeam_channel::Sender<QueuedEvent>,
    crossbeam_channel::Receiver<QueuedEvent>,
))
    requires
        0 < cap <= 0x1000000,
{
    crossbeam_channel::bounded(cap)
}

/// Relies on `crossbeam_channel::Sender::try_send`: sends without ever
/// blocking, and reports whether the channel accepted the event (it refuses
/// when full or disconnected). Other threads share the channel, so nothing
/// is assumed beyond the returned flag.
#[verifier::external_body]
fn try_send_event(tx: &crossbeam_channel::Sender<QueuedEvent>, ev: QueuedEvent) -> (sent: bool) {
    tx.try_send(ev).is_ok()
}

/// Relies on `crossbeam_channel::Receiver::try_recv`: takes one currently
/// available event without waiting, or reports that none is available right
/// now. Other threads share the channel, so nothing is assumed about which
/// event comes back.
#[verifier::external_body]
fn try_recv_event(rx: &crossbeam_channel::Receiver<QueuedEvent>) -> (received: Option<QueuedEvent>) {
    rx.try_recv().ok()
}

/// Whether the event channel should be installed when the plugin is built:
/// only live and dev modes collect events, live mode needs a public key to
/// be of any use, and a second installation is refused.
pub open spec fn install_queue_spec(
    mode: crate::config::IndigaugeMode,
    has_public_key: bool,
    already_installed: bool,
) -> bool {
    &&& (mode == crate::config::IndigaugeMode::Live || mode == crate::config::IndigaugeMode::Dev)
    &&& !(mode == crate::config::IndigaugeMode::Live && !has_public_key)
    &&& !already_installed
}

/// Decides whether to create the event channel and install the queue.
pub fn should_install_queue(
    mode: crate::config::IndigaugeMode,
    has_public_key: bool,
    already_installed: bool,
) -> (install: bool)
    ensures
        install == install_queue_spec(mode, has_public_key, already_installed),
{
    let enabled = matches!(mode, crate::config::IndigaugeMode::Live | crate::config::IndigaugeMode::Dev);
    let keyless_live = matches!(mode, crate::config::IndigaugeMode::Live) && !has_public_key;
    enabled && !keyless_live && !already_installed
}

/// Builds the event payload that `enqueue` submits: the given fields, a
/// fresh idempotency key, and source context exactly for the severe levels,
/// with an empty module name recorded as no module.
pub fn build_event_payload(
    level: EventLevel,
    event_type: String,
    metadata: Option<serde_json::Value>,
    elapsed_ms: u128,
    file: String,
    line: u32,
    module: String,
) -> (payload: EventPayload)
    ensures
        payload.event_type == event_type,
        payload.level == level,
        payload.metadata == metadata,
        payload.elapsed_ms == elapsed_ms,
        payload.idempotency_key@.len() == 36,
        carries_context(level) ==> match payload.context {
            Some(ctx) => {
                &&& ctx.file@ == file@
                &&& ctx.line == line
                &&& (module@.len() == 0 ==> ctx.module is None)
                &&& (module@.len() > 0 ==> match ctx.module {
                    Some(m) => m@ == module@,
                    None => false,
                })
            },
            None => false,
        },
        !carries_context(level) ==> payload.context is None,
{
    let payload = EventPayload::new(event_type, level, metadata, elapsed_ms);
    if level.wants_context() {
        let module_field: Option<String> = if module.as_str().unicode_len() == 0 {
            None
        } else {
            Some(module)
        };
        payload.with_context(Some(EventPayloadCtx { file, line, module: module_field }))
    } else {
        payload
    }
}

/// The producer path: builds a payload from the call site's data and hands
/// it to the channel without ever blocking the caller. Returns `false` —
/// a silent drop — when no session has started (`elapsed_ms` is `None`) or
/// the channel refuses the event; telemetry never applies backpressure.
pub fn enqueue(
    tx: &crossbeam_channel::Sender<QueuedEvent>,
    elapsed_ms: Option<u128>,
    level: EventLevel,
    event_type: String,
    metadata: Option<serde_json::Value>,
    file: String,
    line: u32,
    module: String,
) -> (sent: bool)
    ensures
        elapsed_ms is None ==> !sent,
{
    match elapsed_ms {
        None => false,
        Some(elapsed) => {
            let payload = build_event_payload(
                level,
                event_type,
                metadata,
                elapsed,
                file,
                line,
                module,
            );
            try_send_event(tx, QueuedEvent::new(payload))
        },
    }
}

/// The drain trigger over the channel: moves every event available right
/// now into the buffer, re-validating each one. Events failing re-validation
/// are dropped and counted. Whatever the channel handed over, the buffer
/// gains only events with valid types, behind what it already held.
pub fn drain_channel(
    rx: &crossbeam_channel::Receiver<QueuedEvent>,
    buffer: &mut BatchBuffer,
) -> (counts: (usize, usize))
    ensures
        final(buffer)@.len() == old(buffer)@.len() + counts.0,
        final(buffer)@.take(old(buffer)@.len() as int) == old(buffer)@,
        forall|i: int|
            old(buffer)@.len() <= i < final(buffer)@.len() ==> valid_payload(
                #[trigger] final(buffer)@[i],
            ),
        old(buffer).wf() ==> final(buffer).wf(),
{
    let ghost buf0: Seq<EventPayload> = buffer@;
    let ghost was_wf: bool = buffer.wf();
    let mut accepted: usize = 0;
    let mut dropped: usize = 0;
    loop
        invariant
            buffer@.len() == buf0.len() + accepted,
            buffer@.take(buf0.len() as int) == buf0,
            forall|i: int|
                buf0.len() <= i < buffer@.len() ==> valid_payload(#[trigger] buffer@[i]),
            was_wf ==> buffer.wf(),
            accepted <= usize::MAX - 1,
            dropped <= usize::MAX - 1,
        ensures
            buffer@.len() == buf0.len() + accepted,
            buffer@.take(buf0.len() as int) == buf0,
            forall|i: int|
                buf0.len() <= i < buffer@.len() ==> valid_payload(#[trigger] buffer@[i]),
            was_wf ==> buffer.wf(),
        decreases usize::MAX - accepted, usize::MAX - dropped,
    {
        let next = try_recv_event(rx);
        match next {
            None => {
                break;
            },
            Some(ev) => {
                match ev.validate() {
                    Ok(_) => {
                        if accepted == usize::MAX - 1 {
                            // the buffer cannot meaningfully grow further;
                            // stop draining rather than overflow the count
                            break;
                        }
                        buffer.push_validated(ev);
                        accepted = accepted + 1;
                        proof {
                            assert(buffer@.take(buf0.len() as int) =~= buf0);
                        }
                    },
                    Err(_) => {
                        if dropped == usize::MAX - 1 {
                            break;
                        }
                        dropped = dropped + 1;
                    },
                }
            },
        }
    }
    (accepted, dropped)
}

} // verus!
