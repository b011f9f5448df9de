//! Client-side telemetry pipeline: event validation, a bounded event queue,
//! batch buffering with size and timer flush triggers, a retry/backoff
//! policy, session lifecycle tracking, and crash reporting.
//!
//! The pipeline never blocks or panics its caller: a full queue or an
//! inactive session drops the event and reports `false`. Events are
//! re-validated when drained into the batch buffer; a flush removes the
//! oldest events up to the batch size; a timer flush of an empty buffer
//! yields a heartbeat. The rules are stated as contracts and proved;
//! network transport and host-engine integration live outside this crate,
//! behind a handful of trusted channel and identifier wrappers.

mod buffer;
mod channel;
mod config;
mod crash;
mod errors;
mod event;
mod feedback;
mod hardware;
mod queue;
mod retry;
mod session;
mod strings;
mod utils;
mod validate;

pub use buffer::BatchBuffer;
pub use buffer::DEFAULT_BATCH_SIZE;
pub use buffer::FlushOutcome;
pub use buffer::flush_count;
pub use buffer::handle_queued_events;
pub use buffer::lemma_flush_removes_min_prefix;
pub use channel::build_event_payload;
pub use channel::channel_bounded;
pub use channel::drain_channel;
pub use channel::enqueue;
pub use channel::install_queue_spec;
pub use channel::should_install_queue;
pub use config::IndigaugeConfig;
pub use config::IndigaugeLogLevel;
pub use config::IndigaugeMode;
pub use config::default_api_base;
pub use crash::build_crash_report;
pub use crash::crash_elapsed;
pub use errors::SessionStateError;
pub use errors::ValidationError;
pub use event::BatchEventPayload;
pub use event::EventLevel;
pub use event::EventPayload;
pub use event::EventPayloadCtx;
pub use event::QueuedEvent;
pub use event::carries_context;
pub use event::valid_payload;
pub use feedback::FeedbackPayload;
pub use hardware::bucket_cores;
pub use hardware::bucket_cores_spec;
pub use hardware::bucket_ram_gb;
pub use hardware::bucket_ram_gb_spec;
pub use hardware::coarsen_cpu_name;
pub use hardware::cpu_family_spec;
pub use hardware::extract_generation;
pub use hardware::extract_generation_spec;
pub use hardware::extract_ryzen_gen;
pub use hardware::generation_label;
pub use queue::DEFAULT_MAX_QUEUE;
pub use queue::EventQueue;
pub use retry::MAX_BACKOFF_EXPONENT;
pub use retry::MAX_BACKOFF_MS;
pub use retry::backoff_delay_millis;
pub use retry::calculate_backoff_delay_ms;
pub use retry::lemma_backoff_delay_bounded;
pub use retry::lemma_backoff_delay_monotonic;
pub use retry::should_retry;
pub use session::ApiResponse;
pub use session::ErrorBody;
pub use session::IdResponse;
pub use session::IndigaugeInitDoneEvent;
pub use session::SessionPhase;
pub use session::SessionStartInstant;
pub use session::SessionState;
pub use session::StartDecision;
pub use session::StartSessionEvent;
pub use session::StartSessionPayload;
pub use session::StartSessionResponse;
pub use session::build_start_session_payload;
pub use session::dev_token;
pub use session::lemma_start_instant_set_once;
pub use session::start_decision_spec;
pub use utils::select;
pub use validate::is_valid_event_type;
pub use validate::validate_event_type;
pub use validate::validate_event_type_compile_time;
