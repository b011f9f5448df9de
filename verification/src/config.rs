//! Runtime configuration of the pipeline: ingest endpoint, batching and
//! queueing parameters, log gating and operating mode. The environment is
//! read by the embedding application; this type only holds the values.

use vstd::prelude::*;

verus! {

/// The ingest host used when no override is supplied.
pub open spec fn default_api_base() -> Seq<char> {
    "https://ingest.indigauge.com"@
}

/// How much the SDK logs to the host's console.
#[derive(Clone, Copy, Debug, PartialEq, Eq, Structural)]
pub enum IndigaugeLogLevel {
    Debug,
    Info,
    Warn,
    Error,
    Silent,
}

/// The rank of a log level: higher means quieter.
pub open spec fn level_rank(level: IndigaugeLogLevel) -> int {
    match level {
        IndigaugeLogLevel::Debug => 0,
        IndigaugeLogLevel::Info => 1,
        IndigaugeLogLevel::Warn => 2,
        IndigaugeLogLevel::Error => 3,
        IndigaugeLogLevel::Silent => 4,
    }
}

impl IndigaugeLogLevel {
    /// The level's lower-case name.
    pub fn as_str(&self) -> (name: &'static str)
        ensures
            name@ == self.as_str_spec(),
    {
        proof {
            reveal_strlit("debug");
            reveal_strlit("info");
            reveal_strlit("warn");
            reveal_strlit("error");
            reveal_strlit("silent");
        }
        match self {
            IndigaugeLogLevel::Debug => "debug",
            IndigaugeLogLevel::Info => "info",
            IndigaugeLogLevel::Warn => "warn",
            IndigaugeLogLevel::Error => "error",
            IndigaugeLogLevel::Silent => "silent",
        }
    }

    /// The name returned by [`IndigaugeLogLevel::as_str`].
    pub open spec fn as_str_spec(&self) -> Seq<char> {
        match self {
            IndigaugeLogLevel::Debug => "debug"@,
            IndigaugeLogLevel::Info => "info"@,
            IndigaugeLogLevel::Warn => "warn"@,
            IndigaugeLogLevel::Error => "error"@,
            IndigaugeLogLevel::Silent => "silent"@,
        }
    }

    /// Whether messages gated at `threshold` should be shown under this
    /// configured level: true exactly when this level is at most as quiet
    /// as the threshold.
    pub fn allows(&self, threshold: IndigaugeLogLevel) -> (shown: bool)
        ensures
            shown == (level_rank(*self) <= level_rank(threshold)),
    {
        let own: u8 = match self {
            IndigaugeLogLevel::Debug => 0,
            IndigaugeLogLevel::Info => 1,
            IndigaugeLogLevel::Warn => 2,
            IndigaugeLogLevel::Error => 3,
            IndigaugeLogLevel::Silent => 4,
        };
        let other: u8 = match threshold {
            IndigaugeLogLevel::Debug => 0,
            IndigaugeLogLevel::Info => 1,
            IndigaugeLogLevel::Warn => 2,
            IndigaugeLogLevel::Error => 3,
            IndigaugeLogLevel::Silent => 4,
        };
        own <= other
    }
}

/// What the SDK does with collected data.
#[derive(Clone, Copy, Debug, PartialEq, Eq, Structural)]
pub enum IndigaugeMode {
    /// Live mode sends data to the ingest API.
    Live,
    /// Dev mode only logs data to the console, with a synthesized session.
    Dev,
    /// Disabled mode collects and sends nothing.
    Disabled,
}

impl Default for IndigaugeMode {
    /// The mode used when none is configured: live.
    fn default() -> (mode: IndigaugeMode)
        ensures
            mode == IndigaugeMode::Live,
    {
        IndigaugeMode::Live
    }
}

/// Runtime configuration used when talking to the ingest API.
pub struct IndigaugeConfig {
    pub api_base: String,
    pub game_name: String,
    pub public_key: String,
    pub game_version: String,
    pub batch_size: usize,
    pub flush_interval_ms: u64,
    pub max_queue: usize,
    pub request_timeout_ms: u64,
}

impl IndigaugeConfig {
    /// Creates a configuration with the given identity and the default
    /// batching parameters. `api_base` overrides the ingest host (the
    /// embedding application passes the environment's override here, if
    /// any); by default data goes to the standard ingest host.
    pub fn new(
        game_name: String,
        public_key: String,
        game_version: String,
        api_base: Option<String>,
    ) -> (config: IndigaugeConfig)
        ensures
            match api_base {
                Some(base) => config.api_base == base,
                None => config.api_base@ == default_api_base(),
            },
            config.game_name == game_name,
            config.public_key == public_key,
            config.game_version == game_version,
            config.batch_size == 64,
            config.flush_interval_ms == 10000,
            config.max_queue == 10000,
            config.request_timeout_ms == 10000,
    {
        let base = match api_base {
            Some(base) => base,
            None => String::from_str("https://ingest.indigauge.com"),
        };
        IndigaugeConfig {
            api_base: base,
            game_name,
            public_key,
            game_version,
            batch_size: 64,
            flush_interval_ms: 10000,
            max_queue: 10000,
            request_timeout_ms: 10000,
        }
    }

    /// Whether a non-empty public key is configured.
    pub fn has_public_key(&self) -> (has: bool)
        ensures
            has == (self.public_key@.len() > 0),
    {
        self.public_key.as_str().unicode_len() > 0
    }

    /// The versioned API URL for a relative path:
    /// `<api_base>/v1/<path>`.
    pub fn api_url(&self, path: &str) -> (url: String)
        ensures
            url@ == self.api_base@ + "/v1/"@ + path@,
    {
        let mut url = self.api_base.clone();
        url.append("/v1/");
        url.append(path);
        url
    }
}

} // verus!
