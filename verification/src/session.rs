//! Session lifecycle: the state machine gating the whole pipeline, the
//! process-wide write-once session start instant, and the request/response
//! types of the session endpoints. No session, no flush; the start instant,
//! once set, is never reset.

use vstd::prelude::*;

use crate::buffer::BatchBuffer;
use crate::buffer::flush_count;
use crate::config::IndigaugeMode;
use crate::errors::SessionStateError;
use crate::event::EventPayload;
use crate::hardware::bucket_cores;
use crate::hardware::bucket_cores_spec;
use crate::hardware::bucket_ram_gb;
use crate::hardware::bucket_ram_gb_spec;
use crate::hardware::coarsen_cpu_name;
use crate::hardware::cpu_family_spec;
use crate::strings::chars_of;
use crate::strings::find_ci;
use crate::strings::find_ci_spec;
use crate::strings::lemma_find_ci_found;
use crate::strings::parse_u32;
use crate::strings::parse_u32_spec;
use crate::strings::prefix_chars;

verus! {

/// Error response body returned for failed API calls.
#[derive(Debug)]
pub struct ErrorBody {
    pub code: String,
    pub message: String,
}

/// Generic API envelope: endpoints answer either with the expected value or
/// with an error body.
#[derive(Debug)]
pub enum ApiResponse<T, E = ErrorBody> {
    Success(T),
    Error(E),
}

/// Response containing only a generated identifier.
#[derive(Debug)]
pub struct IdResponse {
    pub id: String,
}

/// Response returned by the session start endpoint.
#[derive(Debug)]
pub struct StartSessionResponse {
    pub session_token: String,
}

/// The sentinel token of a synthesized development-mode session.
pub open spec fn dev_token() -> Seq<char> {
    "dev"@
}

impl StartSessionResponse {
    /// The deterministic development-mode session response: no network call
    /// is made, the token is the `dev` sentinel.
    pub fn dev() -> (response: StartSessionResponse)
        ensures
            response.session_token@ == dev_token(),
    {
        StartSessionResponse { session_token: String::from_str("dev") }
    }
}

/// Payload sent when creating a new analytics session: client identity and
/// coarse, privacy-safe hardware descriptors.
#[derive(Debug)]
pub struct StartSessionPayload {
    pub client_version: String,
    pub player_id: Option<String>,
    pub platform: Option<String>,
    pub os: Option<String>,
    pub cpu_family: Option<String>,
    pub cores: Option<String>,
    pub memory: Option<String>,
    pub gpu: Option<String>,
}

/// Event used to trigger session start.
#[derive(Debug)]
pub struct StartSessionEvent {
    pub platform: Option<String>,
}

impl StartSessionEvent {
    /// A start request without a platform string.
    pub fn new() -> (ev: StartSessionEvent)
        ensures
            ev.platform is None,
    {
        StartSessionEvent { platform: None }
    }

    /// Sets the platform string to send with the session start payload.
    pub fn with_platform(self, platform: String) -> (ev: StartSessionEvent)
        ensures
            ev.platform == Some(platform),
    {
        StartSessionEvent { platform: Some(platform) }
    }
}

/// Emitted when session initialization completes, is skipped, or fails.
#[derive(Debug)]
pub enum IndigaugeInitDoneEvent {
    Success,
    Skipped(String),
    Failure(String),
    UnexpectedFailure(String),
}

/// The process-wide session start instant, in milliseconds of some monotonic
/// clock. Set exactly once per process lifetime; every `elapsed_ms` field is
/// computed from it. A second attempt to set it is an error value, never a
/// crash, and the original instant is retained.
pub struct SessionStartInstant {
    instant_ms: Option<u128>,
}

impl View for SessionStartInstant {
    type V = Option<u128>;

    /// The instant, if it has been set.
    closed spec fn view(&self) -> Option<u128> {
        self.instant_ms
    }
}

/// What setting the start instant does: the first set stores the given
/// instant; any later set is refused and retains the original.
pub open spec fn set_instant_spec(before: Option<u128>, now_ms: u128) -> (Option<u128>, Result<
    (),
    SessionStateError,
>) {
    match before {
        None => (Some(now_ms), Ok(())),
        Some(original) => (Some(original), Err(SessionStateError::StartInstantAlreadySet)),
    }
}

impl SessionStartInstant {
    /// An unset start instant, as at process start.
    pub fn new() -> (instant: SessionStartInstant)
        ensures
            instant@ is None,
    {
        SessionStartInstant { instant_ms: None }
    }

    /// Whether the instant has been set.
    pub fn is_set(&self) -> (set: bool)
        ensures
            set == (self@ is Some),
    {
        self.instant_ms.is_some()
    }

    /// Sets the instant if it was never set; a second set yields a
    /// [`SessionStateError`] and retains the original instant.
    pub fn set(&mut self, now_ms: u128) -> (r: Result<(), SessionStateError>)
        ensures
            (final(self)@, r) == set_instant_spec(old(self)@, now_ms),
    {
        match self.instant_ms {
            None => {
                self.instant_ms = Some(now_ms);
                Ok(())
            },
            Some(_) => Err(SessionStateError::StartInstantAlreadySet),
        }
    }

    /// Milliseconds elapsed since the session started, given the current
    /// instant of the same clock, or nothing when no session was started.
    /// A clock observed before the start instant counts as zero elapsed.
    pub fn elapsed_ms(&self, now_ms: u128) -> (elapsed: Option<u128>)
        ensures
            match self@ {
                None => elapsed is None,
                Some(start) => elapsed == Some(
                    if now_ms >= start {
                        (now_ms - start) as u128
                    } else {
                        0u128
                    },
                ),
            },
    {
        match self.instant_ms {
            None => None,
            Some(start) => {
                if now_ms >= start {
                    Some(now_ms - start)
                } else {
                    Some(0)
                }
            },
        }
    }
}

/// Setting the start instant twice: the first set succeeds, the second
/// yields a session state error — never a crash — and the original instant
/// is retained.
pub proof fn lemma_start_instant_set_once(first_now: u128, second_now: u128)
    ensures
        ({
            let (after_first, first_result) = set_instant_spec(None, first_now);
            let (after_second, second_result) = set_instant_spec(after_first, second_now);
            &&& first_result == Ok::<(), SessionStateError>(())
            &&& after_first == Some(first_now)
            &&& second_result == Err::<(), SessionStateError>(
                SessionStateError::StartInstantAlreadySet,
            )
            &&& after_second == Some(first_now)
        }),
{
}

/// The part of the memory description before the first dot (all of it when
/// there is no dot): `31.9 GiB` gives `31`.
pub open spec fn memory_prefix(memory: Seq<char>) -> Seq<char> {
    match find_ci_spec(memory, "."@) {
        Some(p) => memory.take(p),
        None => memory,
    }
}

/// Builds the session start payload from the client's identity and the
/// host's raw hardware description: the core count and memory size are
/// parsed and bucketed into coarse ranges, the CPU model is coarsened into
/// a general category; what cannot be parsed is simply left out.
pub fn build_start_session_payload(
    client_version: String,
    player_id: Option<String>,
    platform: Option<String>,
    os: Option<String>,
    core_count: &str,
    memory: &str,
    cpu: &str,
    gpu: Option<String>,
) -> (payload: StartSessionPayload)
    ensures
        payload.client_version == client_version,
        payload.player_id == player_id,
        payload.platform == platform,
        payload.os == os,
        payload.gpu == gpu,
        match parse_u32_spec(core_count@) {
            Some(n) => match payload.cores {
                Some(label) => label@ == bucket_cores_spec(n),
                None => false,
            },
            None => payload.cores is None,
        },
        match parse_u32_spec(memory_prefix(memory@)) {
            Some(n) => match payload.memory {
                Some(label) => label@ == bucket_ram_gb_spec(n),
                None => false,
            },
            None => payload.memory is None,
        },
        match cpu_family_spec(cpu@) {
            Some(f) => match payload.cpu_family {
                Some(label) => label@ == f,
                None => false,
            },
            None => payload.cpu_family is None,
        },
{
    let cores = match parse_u32(&chars_of(core_count)) {
        Some(n) => Some(String::from_str(bucket_cores(n))),
        None => None,
    };
    let memory_chars = chars_of(memory);
    let dot = chars_of(".");
    let cut = match find_ci(&memory_chars, &dot) {
        Some(p) => {
            proof {
                lemma_find_ci_found(memory_chars@, dot@, 0, p as int);
            }
            prefix_chars(&memory_chars, p)
        },
        None => {
            proof {
                assert(memory_chars@.take(memory_chars@.len() as int) =~= memory_chars@);
            }
            prefix_chars(&memory_chars, memory_chars.len())
        },
    };
    let memory_bucket = match parse_u32(&cut) {
        Some(n) => Some(String::from_str(bucket_ram_gb(n))),
        None => None,
    };
    let cpu_family = coarsen_cpu_name(cpu);
    StartSessionPayload {
        client_version,
        player_id,
        platform,
        os,
        cpu_family,
        cores,
        memory: memory_bucket,
        gpu,
    }
}

/// The lifecycle phase of the session.
#[derive(Clone, Copy, Debug, PartialEq, Eq, Structural)]
pub enum SessionPhase {
    /// No start was requested yet.
    Uninitialized,
    /// A start request is on its way.
    Starting,
    /// The session is live: the pipeline flushes.
    Active,
    /// The session was ended; a final flush was forced.
    Ended,
    /// A start was requested while one was already under way, or telemetry
    /// is disabled.
    Skipped,
    /// Starting the session failed.
    Failed,
}

/// What a start request decides, before any network traffic happens.
#[derive(Clone, Copy, Debug, PartialEq, Eq, Structural)]
pub enum StartDecision {
    /// A session is already started or starting: do nothing.
    SkipAlreadyStarted,
    /// Telemetry is disabled by mode: do nothing.
    SkipDisabled,
    /// No event channel was installed: report an unexpected failure.
    FailNoSender,
    /// Development mode: synthesize the `dev` session locally, no network.
    StartDev,
    /// Live mode: issue the asynchronous session start request.
    SendRequest,
}

/// The decision taken on a start request: an already-started session wins,
/// then a missing channel, then the operating mode.
pub open spec fn start_decision_spec(
    already_started: bool,
    has_sender: bool,
    mode: IndigaugeMode,
) -> StartDecision {
    if already_started {
        StartDecision::SkipAlreadyStarted
    } else if !has_sender {
        StartDecision::FailNoSender
    } else {
        match mode {
            IndigaugeMode::Dev => StartDecision::StartDev,
            IndigaugeMode::Disabled => StartDecision::SkipDisabled,
            IndigaugeMode::Live => StartDecision::SendRequest,
        }
    }
}

/// The phase a start decision leaves the session in.
pub open spec fn phase_after_decision(before: SessionPhase, d: StartDecision) -> SessionPhase {
    match d {
        StartDecision::SkipAlreadyStarted => before,
        StartDecision::SkipDisabled => SessionPhase::Skipped,
        StartDecision::FailNoSender => SessionPhase::Failed,
        StartDecision::StartDev => SessionPhase::Starting,
        StartDecision::SendRequest => SessionPhase::Starting,
    }
}

/// The session state owned by the scheduler: the phase and, once active,
/// the server-issued (or `dev` sentinel) token.
pub struct SessionState {
    pub phase: SessionPhase,
    pub token: Option<String>,
}

impl SessionState {
    /// A fresh, uninitialized session.
    pub fn new() -> (state: SessionState)
        ensures
            state.phase == SessionPhase::Uninitialized,
            state.token is None,
    {
        SessionState { phase: SessionPhase::Uninitialized, token: None }
    }

    /// Handles a start request: decides what to do from the current state,
    /// the presence of the event channel and the mode, and moves the phase
    /// accordingly. No network traffic happens here; a `SendRequest`
    /// decision tells the caller to issue the start request.
    pub fn request_start(
        &mut self,
        start: &SessionStartInstant,
        has_sender: bool,
        mode: IndigaugeMode,
    ) -> (decision: StartDecision)
        ensures
            decision == start_decision_spec(old(self).phase is Starting || start@ is Some, has_sender, mode),
            final(self).phase == phase_after_decision(old(self).phase, decision),
            final(self).token == old(self).token,
    {
        let already_started = matches!(self.phase, SessionPhase::Starting) || start.is_set();
        if already_started {
            StartDecision::SkipAlreadyStarted
        } else if !has_sender {
            self.phase = SessionPhase::Failed;
            StartDecision::FailNoSender
        } else {
            match mode {
                IndigaugeMode::Dev => {
                    self.phase = SessionPhase::Starting;
                    StartDecision::StartDev
                },
                IndigaugeMode::Disabled => {
                    self.phase = SessionPhase::Skipped;
                    StartDecision::SkipDisabled
                },
                IndigaugeMode::Live => {
                    self.phase = SessionPhase::Starting;
                    StartDecision::SendRequest
                },
            }
        }
    }

    /// Completes a session start with the obtained token: captures the
    /// process-wide start instant (exactly once) and activates the session.
    /// If the instant was already set, nothing changes and a failure signal
    /// is returned — never a crash.
    pub fn complete_start(
        &mut self,
        start: &mut SessionStartInstant,
        token: String,
        now_ms: u128,
    ) -> (outcome: IndigaugeInitDoneEvent)
        ensures
            match old(start)@ {
                None => {
                    &&& outcome is Success
                    &&& final(start)@ == Some(now_ms)
                    &&& final(self).phase == SessionPhase::Active
                    &&& final(self).token == Some(token)
                },
                Some(original) => {
                    &&& (outcome matches IndigaugeInitDoneEvent::Failure(reason)
                        && reason@ == "Failed to set session start instant"@)
                    &&& final(start)@ == Some(original)
                    &&& final(self).phase == old(self).phase
                    &&& final(self).token == old(self).token
                },
            },
    {
        match start.set(now_ms) {
            Ok(_) => {
                self.phase = SessionPhase::Active;
                self.token = Some(token);
                IndigaugeInitDoneEvent::Success
            },
            Err(_) => IndigaugeInitDoneEvent::Failure(
                String::from_str("Failed to set session start instant"),
            ),
        }
    }

    /// Handles the session start response: a token activates the session;
    /// an error envelope fails it. Deserialization happens at the transport
    /// edge; this consumes the decoded envelope.
    pub fn handle_start_response(
        &mut self,
        start: &mut SessionStartInstant,
        response: ApiResponse<StartSessionResponse, ErrorBody>,
        now_ms: u128,
    ) -> (outcome: IndigaugeInitDoneEvent)
        ensures
            match response {
                ApiResponse::Success(ok) => match old(start)@ {
                    None => {
                        &&& outcome is Success
                        &&& final(start)@ == Some(now_ms)
                        &&& final(self).phase == SessionPhase::Active
                        &&& final(self).token == Some(ok.session_token)
                    },
                    Some(original) => {
                        &&& outcome is Failure
                        &&& final(start)@ == Some(original)
                        &&& final(self).phase == old(self).phase
                        &&& final(self).token == old(self).token
                    },
                },
                ApiResponse::Error(_) => {
                    &&& (outcome matches IndigaugeInitDoneEvent::Failure(reason)
                        && reason@ == "Failed to start session"@)
                    &&& final(self).phase == SessionPhase::Failed
                    &&& final(self).token == old(self).token
                    &&& final(start)@ == old(start)@
                },
            },
    {
        match response {
            ApiResponse::Success(ok) => self.complete_start(start, ok.session_token, now_ms),
            ApiResponse::Error(_) => {
                self.phase = SessionPhase::Failed;
                IndigaugeInitDoneEvent::Failure(String::from_str("Failed to start session"))
            },
        }
    }

    /// Records that the start request itself failed at the transport.
    pub fn fail_start(&mut self) -> (outcome: IndigaugeInitDoneEvent)
        ensures
            outcome matches IndigaugeInitDoneEvent::Failure(reason) && reason@
                == "Create session post request failed"@,
            final(self).phase == SessionPhase::Failed,
            final(self).token == old(self).token,
    {
        self.phase = SessionPhase::Failed;
        IndigaugeInitDoneEvent::Failure(String::from_str("Create session post request failed"))
    }

    /// Ends the session: forces one final flush of the buffer (the batch is
    /// handed back for a best-effort send, together with the end-of-session
    /// signal) and marks the session ended.
    pub fn end_session(&mut self, buffer: &mut BatchBuffer, batch_size: usize) -> (batch: Vec<
        EventPayload,
    >)
        ensures
            batch@ == old(buffer)@.take(flush_count(old(buffer)@.len() as int, batch_size as int)),
            final(buffer)@ == old(buffer)@.skip(
                flush_count(old(buffer)@.len() as int, batch_size as int),
            ),
            old(buffer).wf() ==> final(buffer).wf(),
            final(self).phase == SessionPhase::Ended,
            final(self).token == old(self).token,
    {
        let batch = buffer.flush(batch_size);
        self.phase = SessionPhase::Ended;
        batch
    }
}

} // verus!
