//! The configuration of the sidecar, from the texts of its settings.

use crate::address::{parse_url, url_parse, url_text};
use crate::clock::duration_nanos;
use crate::text::{
    decimal, decimal_text, debug_text, join_two, law_decimal_is_digits, law_decimal_reads_back,
    law_trimmed_is_whole, lower_text, lowered, parse_u64, quoted_debug, text_eq, trim_text, trimmed,
    u64_value, unsigned_value, white_space,
};
use crate::trtllm_context_first::dispatch::{ConfigError, ContextFirstLimits};
use crate::trtllm_context_first::ids::{DisaggIdNamespace, IdError, NODE_ID_SPACE, PROCESS_ID_SPACE};
use reqwest::Url;
use std::time::Duration;
use vstd::prelude::*;

verus! {

pub const SIDECAR_PORT_ENV: &'static str = "DYN_SIDECAR_PORT";

pub const ADAPTER_MODE_ENV: &'static str = "DYN_ADAPTER_MODE";

pub const CONTEXT_ENGINE_URL_ENV: &'static str = "DYN_CONTEXT_ENGINE_URL";

pub const CONTEXT_FIRST_REQUEST_BYTES_ENV: &'static str = "DYN_CONTEXT_FIRST_REQUEST_BYTES";

pub const CONTEXT_FIRST_HANDOFF_BYTES_ENV: &'static str = "DYN_CONTEXT_FIRST_HANDOFF_BYTES";

pub const CONTEXT_FIRST_RESPONSE_BYTES_ENV: &'static str = "DYN_CONTEXT_FIRST_RESPONSE_BYTES";

pub const CONTEXT_FIRST_CONTEXT_DEADLINE_MS_ENV: &'static str =
    "DYN_CONTEXT_FIRST_CONTEXT_DEADLINE_MS";

pub const CONTEXT_FIRST_GENERATION_DEADLINE_MS_ENV: &'static str =
    "DYN_CONTEXT_FIRST_GENERATION_DEADLINE_MS";

pub const CONTEXT_FIRST_NODE_ID_ENV: &'static str = "DYN_CONTEXT_FIRST_NODE_ID";

pub const CONTEXT_FIRST_PROCESS_ID_ENV: &'static str = "DYN_CONTEXT_FIRST_PROCESS_ID";

pub const DECODE_ENGINE_PORT_ENV: &'static str = "DYN_DECODE_ENGINE_PORT";

pub const CONNECT_TIMEOUT_MS_ENV: &'static str = "DYN_SIDECAR_CONNECT_TIMEOUT_MS";

pub const READ_TIMEOUT_MS_ENV: &'static str = "DYN_SIDECAR_READ_TIMEOUT_MS";

pub const DRAIN_TIMEOUT_MS_ENV: &'static str = "DYN_SIDECAR_DRAIN_TIMEOUT_MS";

pub const DEFAULT_SIDECAR_PORT: u16 = 8000;

pub const DEFAULT_DECODE_ENGINE_PORT: u16 = 8001;

pub const DEFAULT_CONNECT_TIMEOUT_MS: u64 = 10_000;

pub const DEFAULT_READ_TIMEOUT_MS: u64 = 300_000;

pub const DEFAULT_DRAIN_TIMEOUT_MS: u64 = 30_000;

pub const DEFAULT_CONTEXT_FIRST_REQUEST_BYTES: usize = 1_048_576;

pub const DEFAULT_CONTEXT_FIRST_HANDOFF_BYTES: usize = 8_388_608;

pub const DEFAULT_CONTEXT_FIRST_RESPONSE_BYTES: usize = 16_777_216;

pub const DEFAULT_CONTEXT_FIRST_CONTEXT_DEADLINE_MS: u64 = 60_000;

pub const DEFAULT_CONTEXT_FIRST_GENERATION_DEADLINE_MS: u64 = 300_000;

/// The longest deadline of a leg, so that a slip in a setting shows at startup
/// and does not hold a request for hours.
pub const MAX_LEG_DEADLINE_MS: u64 = 3_600_000;

/// The adapter that the sidecar runs.
#[derive(Debug, Clone, Copy, PartialEq, Eq, Structural)]
pub enum AdapterMode {
    /// No adapter: requests go to the decode engine.
    Disabled,
    /// The context-first handoff.
    TrtllmContextFirst,
}

/// Why the settings were refused.
#[derive(Debug)]
pub enum SettingError {
    /// A setting is no text.
    NotUtf8 { name: &'static str },
    /// A setting that the adapter needs is missing.
    Required { name: &'static str },
    /// The adapter mode is none that there is.
    UnknownMode { found: String },
    NotAPort { name: &'static str },
    NotADuration { name: &'static str },
    NotAByteCount { name: &'static str },
    NotAnInteger { name: &'static str },
    NotAUrl { name: &'static str },
    /// A setting is zero that must not be.
    Zero { name: &'static str },
    /// The URL of the decode engine could not be built.
    DecodeEngineUrl,
    Limits { source: ConfigError },
    DeadlineTooLong,
    Namespace { source: IdError },
}

/// What a [`SettingError`] holds.
#[verifier::ext_equal]
pub enum SettingErrorView {
    NotUtf8 { name: Seq<char> },
    Required { name: Seq<char> },
    UnknownMode { found: Seq<char> },
    NotAPort { name: Seq<char> },
    NotADuration { name: Seq<char> },
    NotAByteCount { name: Seq<char> },
    NotAnInteger { name: Seq<char> },
    NotAUrl { name: Seq<char> },
    Zero { name: Seq<char> },
    DecodeEngineUrl,
    Limits { source: ConfigError },
    DeadlineTooLong,
    Namespace { source: IdError },
}

impl View for SettingError {
    type V = SettingErrorView;

    open spec fn view(&self) -> SettingErrorView {
        match self {
            SettingError::NotUtf8 { name } => SettingErrorView::NotUtf8 { name: name@ },
            SettingError::Required { name } => SettingErrorView::Required { name: name@ },
            SettingError::UnknownMode { found } => SettingErrorView::UnknownMode { found: found@ },
            SettingError::NotAPort { name } => SettingErrorView::NotAPort { name: name@ },
            SettingError::NotADuration { name } => SettingErrorView::NotADuration { name: name@ },
            SettingError::NotAByteCount { name } => SettingErrorView::NotAByteCount {
                name: name@,
            },
            SettingError::NotAnInteger { name } => SettingErrorView::NotAnInteger { name: name@ },
            SettingError::NotAUrl { name } => SettingErrorView::NotAUrl { name: name@ },
            SettingError::Zero { name } => SettingErrorView::Zero { name: name@ },
            SettingError::DecodeEngineUrl => SettingErrorView::DecodeEngineUrl,
            SettingError::Limits { source } => SettingErrorView::Limits { source: *source },
            SettingError::DeadlineTooLong => SettingErrorView::DeadlineTooLong,
            SettingError::Namespace { source } => SettingErrorView::Namespace { source: *source },
        }
    }
}

impl SettingErrorView {
    /// The text of the error.
    pub open spec fn text(self) -> Seq<char> {
        match self {
            SettingErrorView::NotUtf8 { name } => name + " must be valid UTF-8"@,
            SettingErrorView::Required { name } => name
                + " must be set when the context-first adapter is enabled"@,
            SettingErrorView::UnknownMode { found } =>
                "DYN_ADAPTER_MODE must be \"none\" or \"trtllm-context-first\", got "@
                    + quoted_debug(found),
            SettingErrorView::NotAPort { name } => name + " must be a valid TCP port"@,
            SettingErrorView::NotADuration { name } => name
                + " must be a valid duration in milliseconds"@,
            SettingErrorView::NotAByteCount { name } => name + " must be a byte count"@,
            SettingErrorView::NotAnInteger { name } => name + " must be a non-negative integer"@,
            SettingErrorView::NotAUrl { name } => name + " must be a valid URL"@,
            SettingErrorView::Zero { name } => name + " must be greater than zero"@,
            SettingErrorView::DecodeEngineUrl => "failed to construct local decode-engine URL"@,
            SettingErrorView::Limits { .. } => "invalid context-first limits"@,
            SettingErrorView::DeadlineTooLong =>
                "context-first leg deadlines must not exceed 3600s"@,
            SettingErrorView::Namespace { .. } => "invalid context-first id namespace"@,
        }
    }
}

impl SettingError {
    /// Writes the error out.
    pub fn message(&self) -> (message: String)
        ensures
            message@ == self@.text(),
    {
        match self {
            SettingError::NotUtf8 { name } => join_two(*name, " must be valid UTF-8"),
            SettingError::Required { name } => join_two(
                *name,
                " must be set when the context-first adapter is enabled",
            ),
            SettingError::UnknownMode { found } => join_two(
                "DYN_ADAPTER_MODE must be \"none\" or \"trtllm-context-first\", got ",
                debug_text(found.as_str()).as_str(),
            ),
            SettingError::NotAPort { name } => join_two(*name, " must be a valid TCP port"),
            SettingError::NotADuration { name } => join_two(
                *name,
                " must be a valid duration in milliseconds",
            ),
            SettingError::NotAByteCount { name } => join_two(*name, " must be a byte count"),
            SettingError::NotAnInteger { name } => join_two(
                *name,
                " must be a non-negative integer",
            ),
            SettingError::NotAUrl { name } => join_two(*name, " must be a valid URL"),
            SettingError::Zero { name } => join_two(*name, " must be greater than zero"),
            SettingError::DecodeEngineUrl =>
                "failed to construct local decode-engine URL".to_string(),
            SettingError::Limits { .. } => "invalid context-first limits".to_string(),
            SettingError::DeadlineTooLong =>
                "context-first leg deadlines must not exceed 3600s".to_string(),
            SettingError::Namespace { .. } => "invalid context-first id namespace".to_string(),
        }
    }
}

/// The mode that a text spells, apart from white space around it and the case of
/// its letters.
pub open spec fn mode_of(raw: Seq<char>) -> Result<AdapterMode, SettingErrorView> {
    let spelled = lowered(trimmed(raw));
    if spelled == ""@ || spelled == "none"@ {
        Ok(AdapterMode::Disabled)
    } else if spelled == "trtllm-context-first"@ {
        Ok(AdapterMode::TrtllmContextFirst)
    } else {
        Err(SettingErrorView::UnknownMode { found: spelled })
    }
}

impl AdapterMode {
    /// The spelling of the mode.
    pub open spec fn spelling(self) -> Seq<char> {
        match self {
            AdapterMode::Disabled => "none"@,
            AdapterMode::TrtllmContextFirst => "trtllm-context-first"@,
        }
    }

    /// Reads a mode. A text that spells none is an error, so that a slip never
    /// starts the sidecar without its adapter.
    pub fn parse(raw: &str) -> (outcome: Result<Self, SettingError>)
        ensures
            match mode_of(raw@) {
                Ok(mode) => outcome == Ok::<Self, SettingError>(mode),
                Err(error) => outcome is Err && outcome->Err_0@ == error,
            },
    {
        let spelled = lower_text(trim_text(raw));
        if text_eq(spelled.as_str(), "") || text_eq(spelled.as_str(), "none") {
            Ok(AdapterMode::Disabled)
        } else if text_eq(spelled.as_str(), "trtllm-context-first") {
            Ok(AdapterMode::TrtllmContextFirst)
        } else {
            Err(SettingError::UnknownMode { found: spelled })
        }
    }

    pub fn as_str(self) -> (spelling: &'static str)
        ensures
            spelling@ == self.spelling(),
    {
        match self {
            AdapterMode::Disabled => "none",
            AdapterMode::TrtllmContextFirst => "trtllm-context-first",
        }
    }
}

/// A mode is read back from its spelling.
pub proof fn law_mode_round_trips(mode: AdapterMode)
    ensures
        mode_of(mode.spelling()) == Ok::<AdapterMode, SettingErrorView>(mode),
{
    reveal_strlit("");
    reveal_strlit("none");
    reveal_strlit("trtllm-context-first");
    let spelling = mode.spelling();
    law_trimmed_is_whole(spelling);
    assert(!white_space(spelling.first()));
    assert(!white_space(spelling.last()));
    assert(trimmed(spelling) == spelling);
    assert(lowered(spelling) =~= spelling);
}

/// A setting as it was found.
#[derive(Debug, Clone, PartialEq, Eq)]
pub enum RawSetting {
    Missing,
    /// It is set, but to no text.
    NotUnicode,
    Text(String),
}

/// What a [`RawSetting`] holds: nothing where the setting is missing, and no text
/// where it is none.
pub open spec fn raw_of(raw: RawSetting) -> Option<Option<Seq<char>>> {
    match raw {
        RawSetting::Missing => None,
        RawSetting::NotUnicode => Some(None),
        RawSetting::Text(text) => Some(Some(text@)),
    }
}

/// The port in a setting.
pub open spec fn port_in(raw: Option<Option<Seq<char>>>, name: Seq<char>, default: u16) -> Result<
    u16,
    SettingErrorView,
> {
    match raw {
        None => Ok(default),
        Some(None) => Err(SettingErrorView::NotUtf8 { name }),
        Some(Some(text)) => match u64_value(text) {
            Some(number) => if number > 65_535 {
                Err(SettingErrorView::NotAPort { name })
            } else if number == 0 {
                Err(SettingErrorView::Zero { name })
            } else {
                Ok(number as u16)
            },
            None => Err(SettingErrorView::NotAPort { name }),
        },
    }
}

/// The milliseconds in a setting.
pub open spec fn millis_in(
    raw: Option<Option<Seq<char>>>,
    name: Seq<char>,
    default_ms: u64,
) -> Result<u64, SettingErrorView> {
    match raw {
        None => Ok(default_ms),
        Some(None) => Err(SettingErrorView::NotUtf8 { name }),
        Some(Some(text)) => match u64_value(text) {
            Some(number) => if number == 0 {
                Err(SettingErrorView::Zero { name })
            } else {
                Ok(number)
            },
            None => Err(SettingErrorView::NotADuration { name }),
        },
    }
}

/// The byte count in a setting. White space around it does not matter.
pub open spec fn byte_count_in(
    raw: Option<Option<Seq<char>>>,
    name: Seq<char>,
    default: usize,
) -> Result<usize, SettingErrorView> {
    match raw {
        None => Ok(default),
        Some(None) => Err(SettingErrorView::NotUtf8 { name }),
        Some(Some(text)) => match u64_value(trimmed(text)) {
            Some(number) => if number > usize::MAX {
                Err(SettingErrorView::NotAByteCount { name })
            } else if number == 0 {
                Err(SettingErrorView::Zero { name })
            } else {
                Ok(number as usize)
            },
            None => Err(SettingErrorView::NotAByteCount { name }),
        },
    }
}

/// The number in a setting. White space around it does not matter.
pub open spec fn number_in(
    raw: Option<Option<Seq<char>>>,
    name: Seq<char>,
    default: u64,
) -> Result<u64, SettingErrorView> {
    match raw {
        None => Ok(default),
        Some(None) => Err(SettingErrorView::NotUtf8 { name }),
        Some(Some(text)) => match u64_value(trimmed(text)) {
            Some(number) => Ok(number),
            None => Err(SettingErrorView::NotAnInteger { name }),
        },
    }
}

/// The adapter mode in a setting.
pub open spec fn mode_in(raw: Option<Option<Seq<char>>>) -> Result<AdapterMode, SettingErrorView> {
    match raw {
        None => Ok(AdapterMode::Disabled),
        Some(None) => Err(SettingErrorView::NotUtf8 { name: ADAPTER_MODE_ENV@ }),
        Some(Some(text)) => mode_of(text),
    }
}

/// The text of the URL in a setting that must be there.
pub open spec fn url_in(raw: Option<Option<Seq<char>>>, name: Seq<char>) -> Result<
    Seq<char>,
    SettingErrorView,
> {
    match raw {
        None => Err(SettingErrorView::Required { name }),
        Some(None) => Err(SettingErrorView::NotUtf8 { name }),
        Some(Some(text)) => match url_parse(text) {
            Some(url) => Ok(url),
            None => Err(SettingErrorView::NotAUrl { name }),
        },
    }
}

/// Reads a port.
pub fn port_setting(raw: &RawSetting, name: &'static str, default: u16) -> (outcome: Result<
    u16,
    SettingError,
>)
    ensures
        match port_in(raw_of(*raw), name@, default) {
            Ok(port) => outcome == Ok::<u16, SettingError>(port),
            Err(error) => outcome is Err && outcome->Err_0@ == error,
        },
{
    match raw {
        RawSetting::Missing => Ok(default),
        RawSetting::NotUnicode => Err(SettingError::NotUtf8 { name }),
        RawSetting::Text(text) => match parse_u64(text.as_str()) {
            Some(number) => {
                if number > 65_535 {
                    return Err(SettingError::NotAPort { name });
                }
                if number == 0 {
                    return Err(SettingError::Zero { name });
                }
                Ok(number as u16)
            },
            None => Err(SettingError::NotAPort { name }),
        },
    }
}

/// Reads a length of time in milliseconds.
pub fn duration_setting(raw: &RawSetting, name: &'static str, default_ms: u64) -> (outcome: Result<
    Duration,
    SettingError,
>)
    ensures
        match millis_in(raw_of(*raw), name@, default_ms) {
            Ok(millis) => outcome is Ok && duration_nanos(outcome->Ok_0) == millis * 1_000_000,
            Err(error) => outcome is Err && outcome->Err_0@ == error,
        },
{
    match raw {
        RawSetting::Missing => Ok(Duration::from_millis(default_ms)),
        RawSetting::NotUnicode => Err(SettingError::NotUtf8 { name }),
        RawSetting::Text(text) => match parse_u64(text.as_str()) {
            Some(number) => {
                if number == 0 {
                    return Err(SettingError::Zero { name });
                }
                Ok(Duration::from_millis(number))
            },
            None => Err(SettingError::NotADuration { name }),
        },
    }
}

/// Reads a byte count.
pub fn bytes_setting(raw: &RawSetting, name: &'static str, default: usize) -> (outcome: Result<
    usize,
    SettingError,
>)
    ensures
        match byte_count_in(raw_of(*raw), name@, default) {
            Ok(count) => outcome == Ok::<usize, SettingError>(count),
            Err(error) => outcome is Err && outcome->Err_0@ == error,
        },
{
    match raw {
        RawSetting::Missing => Ok(default),
        RawSetting::NotUnicode => Err(SettingError::NotUtf8 { name }),
        RawSetting::Text(text) => match parse_u64(trim_text(text.as_str())) {
            Some(number) => {
                if number > usize::MAX as u64 {
                    return Err(SettingError::NotAByteCount { name });
                }
                if number == 0 {
                    return Err(SettingError::Zero { name });
                }
                Ok(number as usize)
            },
            None => Err(SettingError::NotAByteCount { name }),
        },
    }
}

/// Reads a number.
pub fn u64_setting(raw: &RawSetting, name: &'static str, default: u64) -> (outcome: Result<
    u64,
    SettingError,
>)
    ensures
        match number_in(raw_of(*raw), name@, default) {
            Ok(number) => outcome == Ok::<u64, SettingError>(number),
            Err(error) => outcome is Err && outcome->Err_0@ == error,
        },
{
    match raw {
        RawSetting::Missing => Ok(default),
        RawSetting::NotUnicode => Err(SettingError::NotUtf8 { name }),
        RawSetting::Text(text) => match parse_u64(trim_text(text.as_str())) {
            Some(number) => Ok(number),
            None => Err(SettingError::NotAnInteger { name }),
        },
    }
}

/// Reads the adapter mode.
pub fn mode_setting(raw: &RawSetting) -> (outcome: Result<AdapterMode, SettingError>)
    ensures
        match mode_in(raw_of(*raw)) {
            Ok(mode) => outcome == Ok::<AdapterMode, SettingError>(mode),
            Err(error) => outcome is Err && outcome->Err_0@ == error,
        },
{
    match raw {
        RawSetting::Missing => Ok(AdapterMode::Disabled),
        RawSetting::NotUnicode => Err(SettingError::NotUtf8 { name: ADAPTER_MODE_ENV }),
        RawSetting::Text(text) => AdapterMode::parse(text.as_str()),
    }
}

/// Reads a URL that must be there.
pub fn url_setting(raw: &RawSetting, name: &'static str) -> (outcome: Result<Url, SettingError>)
    ensures
        match url_in(raw_of(*raw), name@) {
            Ok(url) => outcome is Ok && url_text(outcome->Ok_0) == url,
            Err(error) => outcome is Err && outcome->Err_0@ == error,
        },
{
    match raw {
        RawSetting::Missing => Err(SettingError::Required { name }),
        RawSetting::NotUnicode => Err(SettingError::NotUtf8 { name }),
        RawSetting::Text(text) => match parse_url(text.as_str()) {
            Some(url) => Ok(url),
            None => Err(SettingError::NotAUrl { name }),
        },
    }
}

/// The settings as they were found, each under the name of its constant.
#[derive(Debug, Clone)]
pub struct Settings {
    pub sidecar_port: RawSetting,
    pub decode_engine_port: RawSetting,
    pub adapter_mode: RawSetting,
    pub context_engine_url: RawSetting,
    pub request_bytes: RawSetting,
    pub handoff_bytes: RawSetting,
    pub response_bytes: RawSetting,
    pub context_deadline_ms: RawSetting,
    pub generation_deadline_ms: RawSetting,
    pub node_id: RawSetting,
    pub process_id: RawSetting,
    pub connect_timeout_ms: RawSetting,
    pub read_timeout_ms: RawSetting,
    pub drain_timeout_ms: RawSetting,
}

/// The settings of the context-first adapter.
#[derive(Debug)]
pub struct ContextFirstConfig {
    /// The worker that runs the context leg.
    pub context_engine_url: Url,
    pub limits: ContextFirstLimits,
    /// The namespace of the request ids. It is configured, since two gateways
    /// that share one would give out the same ids.
    pub namespace: DisaggIdNamespace,
}

/// The address that the sidecar listens on: an IPv4 host and a port.
#[derive(Debug, Clone, Copy, PartialEq, Eq)]
pub struct ListenAddr {
    pub host: [u8; 4],
    pub port: u16,
}

/// The configuration of the sidecar.
#[derive(Debug)]
pub struct Config {
    pub listen_addr: ListenAddr,
    pub decode_engine_url: Url,
    /// The time to connect to the decode engine.
    pub connect_timeout: Duration,
    /// The time between two reads of a response.
    pub read_timeout: Duration,
    /// The time that active requests are given at shutdown.
    pub drain_timeout: Duration,
    pub adapter_mode: AdapterMode,
    /// There exactly when the mode is the context-first handoff.
    pub context_first: Option<ContextFirstConfig>,
}

/// What a [`ContextFirstConfig`] holds, its deadlines in nanoseconds.
#[verifier::ext_equal]
pub struct ContextFirstView {
    pub context_engine_url: Seq<char>,
    pub request_body_bytes: usize,
    pub handoff_body_bytes: usize,
    pub response_body_bytes: usize,
    pub context_deadline: nat,
    pub generation_deadline: nat,
    pub node_id: u64,
    pub process_id: u64,
}

impl View for ContextFirstConfig {
    type V = ContextFirstView;

    open spec fn view(&self) -> ContextFirstView {
        ContextFirstView {
            context_engine_url: url_text(self.context_engine_url),
            request_body_bytes: self.limits.request_body_bytes,
            handoff_body_bytes: self.limits.handoff_body_bytes,
            response_body_bytes: self.limits.response_body_bytes,
            context_deadline: duration_nanos(self.limits.context_deadline),
            generation_deadline: duration_nanos(self.limits.generation_deadline),
            node_id: self.namespace.node(),
            process_id: self.namespace.process(),
        }
    }
}

impl Clone for ContextFirstConfig {
    fn clone(&self) -> (copy: Self)
        ensures
            copy@ == self@,
    {
        ContextFirstConfig {
            context_engine_url: self.context_engine_url.clone(),
            limits: self.limits,
            namespace: self.namespace,
        }
    }
}

/// The settings of the adapter, where they are right. Errors come in the order of
/// the reads.
pub open spec fn context_first_in(settings: Settings) -> Result<
    ContextFirstView,
    SettingErrorView,
> {
    let url = url_in(raw_of(settings.context_engine_url), CONTEXT_ENGINE_URL_ENV@);
    let request = byte_count_in(
        raw_of(settings.request_bytes),
        CONTEXT_FIRST_REQUEST_BYTES_ENV@,
        DEFAULT_CONTEXT_FIRST_REQUEST_BYTES,
    );
    let handoff = byte_count_in(
        raw_of(settings.handoff_bytes),
        CONTEXT_FIRST_HANDOFF_BYTES_ENV@,
        DEFAULT_CONTEXT_FIRST_HANDOFF_BYTES,
    );
    let response = byte_count_in(
        raw_of(settings.response_bytes),
        CONTEXT_FIRST_RESPONSE_BYTES_ENV@,
        DEFAULT_CONTEXT_FIRST_RESPONSE_BYTES,
    );
    let context = millis_in(
        raw_of(settings.context_deadline_ms),
        CONTEXT_FIRST_CONTEXT_DEADLINE_MS_ENV@,
        DEFAULT_CONTEXT_FIRST_CONTEXT_DEADLINE_MS,
    );
    let generation = millis_in(
        raw_of(settings.generation_deadline_ms),
        CONTEXT_FIRST_GENERATION_DEADLINE_MS_ENV@,
        DEFAULT_CONTEXT_FIRST_GENERATION_DEADLINE_MS,
    );
    let node = number_in(raw_of(settings.node_id), CONTEXT_FIRST_NODE_ID_ENV@, 0);
    let process = number_in(raw_of(settings.process_id), CONTEXT_FIRST_PROCESS_ID_ENV@, 0);
    if url is Err {
        Err(url->Err_0)
    } else if request is Err {
        Err(request->Err_0)
    } else if handoff is Err {
        Err(handoff->Err_0)
    } else if response is Err {
        Err(response->Err_0)
    } else if context is Err {
        Err(context->Err_0)
    } else if generation is Err {
        Err(generation->Err_0)
    } else if context->Ok_0 > MAX_LEG_DEADLINE_MS || generation->Ok_0 > MAX_LEG_DEADLINE_MS {
        Err(SettingErrorView::DeadlineTooLong)
    } else if node is Err {
        Err(node->Err_0)
    } else if process is Err {
        Err(process->Err_0)
    } else if node->Ok_0 >= NODE_ID_SPACE {
        Err(SettingErrorView::Namespace { source: IdError::NodeIdOutOfRange(node->Ok_0) })
    } else if process->Ok_0 >= PROCESS_ID_SPACE {
        Err(SettingErrorView::Namespace { source: IdError::ProcessIdOutOfRange(process->Ok_0) })
    } else {
        Ok(
            ContextFirstView {
                context_engine_url: url->Ok_0,
                request_body_bytes: request->Ok_0,
                handoff_body_bytes: handoff->Ok_0,
                response_body_bytes: response->Ok_0,
                context_deadline: (context->Ok_0 * 1_000_000) as nat,
                generation_deadline: (generation->Ok_0 * 1_000_000) as nat,
                node_id: node->Ok_0,
                process_id: process->Ok_0,
            },
        )
    }
}

/// The settings of the adapter that a mode asks for.
pub open spec fn adapter_in(mode: AdapterMode, settings: Settings) -> Result<
    Option<ContextFirstView>,
    SettingErrorView,
> {
    match mode {
        AdapterMode::Disabled => Ok(None),
        AdapterMode::TrtllmContextFirst => match context_first_in(settings) {
            Ok(adapter) => Ok(Some(adapter)),
            Err(error) => Err(error),
        },
    }
}

/// What the settings of an adapter hold.
pub open spec fn adapter_of(adapter: Option<ContextFirstConfig>) -> Option<ContextFirstView> {
    match adapter {
        Some(adapter) => Some(adapter@),
        None => None,
    }
}

/// What a read of the settings of an adapter holds.
pub open spec fn adapter_outcome(
    outcome: Result<Option<ContextFirstConfig>, SettingError>,
) -> Result<Option<ContextFirstView>, SettingErrorView> {
    match outcome {
        Ok(adapter) => Ok(adapter_of(adapter)),
        Err(error) => Err(error@),
    }
}

/// Reads the limits of the adapter.
fn read_limits(settings: &Settings) -> (outcome: Result<ContextFirstLimits, SettingError>)
    ensures
        outcome is Err ==> url_in(raw_of(settings.context_engine_url), CONTEXT_ENGINE_URL_ENV@) is Ok
            ==> context_first_in(*settings) == Err::<ContextFirstView, SettingErrorView>(
            outcome->Err_0@,
        ),
        outcome is Ok ==> ({
            let limits = outcome->Ok_0;
            let context = millis_in(
                raw_of(settings.context_deadline_ms),
                CONTEXT_FIRST_CONTEXT_DEADLINE_MS_ENV@,
                DEFAULT_CONTEXT_FIRST_CONTEXT_DEADLINE_MS,
            );
            let generation = millis_in(
                raw_of(settings.generation_deadline_ms),
                CONTEXT_FIRST_GENERATION_DEADLINE_MS_ENV@,
                DEFAULT_CONTEXT_FIRST_GENERATION_DEADLINE_MS,
            );
            &&& byte_count_in(
                raw_of(settings.request_bytes),
                CONTEXT_FIRST_REQUEST_BYTES_ENV@,
                DEFAULT_CONTEXT_FIRST_REQUEST_BYTES,
            ) == Ok::<usize, SettingErrorView>(limits.request_body_bytes)
            &&& byte_count_in(
                raw_of(settings.handoff_bytes),
                CONTEXT_FIRST_HANDOFF_BYTES_ENV@,
                DEFAULT_CONTEXT_FIRST_HANDOFF_BYTES,
            ) == Ok::<usize, SettingErrorView>(limits.handoff_body_bytes)
            &&& byte_count_in(
                raw_of(settings.response_bytes),
                CONTEXT_FIRST_RESPONSE_BYTES_ENV@,
                DEFAULT_CONTEXT_FIRST_RESPONSE_BYTES,
            ) == Ok::<usize, SettingErrorView>(limits.response_body_bytes)
            &&& context is Ok && context->Ok_0 <= MAX_LEG_DEADLINE_MS
            &&& generation is Ok && generation->Ok_0 <= MAX_LEG_DEADLINE_MS
            &&& duration_nanos(limits.context_deadline) == context->Ok_0 * 1_000_000
            &&& duration_nanos(limits.generation_deadline) == generation->Ok_0 * 1_000_000
        }),
{
    let request: usize = bytes_setting(
        &settings.request_bytes,
        CONTEXT_FIRST_REQUEST_BYTES_ENV,
        DEFAULT_CONTEXT_FIRST_REQUEST_BYTES,
    )?;
    let handoff: usize = bytes_setting(
        &settings.handoff_bytes,
        CONTEXT_FIRST_HANDOFF_BYTES_ENV,
        DEFAULT_CONTEXT_FIRST_HANDOFF_BYTES,
    )?;
    let response: usize = bytes_setting(
        &settings.response_bytes,
        CONTEXT_FIRST_RESPONSE_BYTES_ENV,
        DEFAULT_CONTEXT_FIRST_RESPONSE_BYTES,
    )?;
    let context: Duration = duration_setting(
        &settings.context_deadline_ms,
        CONTEXT_FIRST_CONTEXT_DEADLINE_MS_ENV,
        DEFAULT_CONTEXT_FIRST_CONTEXT_DEADLINE_MS,
    )?;
    let generation: Duration = duration_setting(
        &settings.generation_deadline_ms,
        CONTEXT_FIRST_GENERATION_DEADLINE_MS_ENV,
        DEFAULT_CONTEXT_FIRST_GENERATION_DEADLINE_MS,
    )?;
    let limits = match ContextFirstLimits::new(request, handoff, response, context, generation) {
        Ok(limits) => limits,
        Err(source) => {
            return Err(SettingError::Limits { source });
        },
    };
    if limits.context_deadline.as_millis() > MAX_LEG_DEADLINE_MS as u128
        || limits.generation_deadline.as_millis() > MAX_LEG_DEADLINE_MS as u128 {
        return Err(SettingError::DeadlineTooLong);
    }
    Ok(limits)
}

/// Reads the settings of the adapter that a mode asks for. A mode without one has
/// none, and its settings are not looked at.
pub fn context_first_from_settings(adapter_mode: AdapterMode, settings: &Settings) -> (outcome:
    Result<Option<ContextFirstConfig>, SettingError>)
    ensures
        adapter_outcome(outcome) == adapter_in(adapter_mode, *settings),
{
    match adapter_mode {
        AdapterMode::Disabled => {
            return Ok(None);
        },
        AdapterMode::TrtllmContextFirst => {},
    }
    let context_engine_url = url_setting(&settings.context_engine_url, CONTEXT_ENGINE_URL_ENV)?;
    let limits = read_limits(settings)?;
    let node_id: u64 = u64_setting(&settings.node_id, CONTEXT_FIRST_NODE_ID_ENV, 0)?;
    let process_id: u64 = u64_setting(&settings.process_id, CONTEXT_FIRST_PROCESS_ID_ENV, 0)?;
    match DisaggIdNamespace::new(node_id, process_id) {
        Ok(namespace) => Ok(Some(ContextFirstConfig { context_engine_url, limits, namespace })),
        Err(source) => Err(SettingError::Namespace { source }),
    }
}

/// What a [`Config`] holds, its times in nanoseconds.
#[verifier::ext_equal]
pub struct ConfigView {
    pub listen_host: Seq<u8>,
    pub listen_port: u16,
    pub decode_engine_url: Seq<char>,
    pub connect_timeout: nat,
    pub read_timeout: nat,
    pub drain_timeout: nat,
    pub adapter_mode: AdapterMode,
    pub context_first: Option<ContextFirstView>,
}

impl View for Config {
    type V = ConfigView;

    open spec fn view(&self) -> ConfigView {
        ConfigView {
            listen_host: self.listen_addr.host@,
            listen_port: self.listen_addr.port,
            decode_engine_url: url_text(self.decode_engine_url),
            connect_timeout: duration_nanos(self.connect_timeout),
            read_timeout: duration_nanos(self.read_timeout),
            drain_timeout: duration_nanos(self.drain_timeout),
            adapter_mode: self.adapter_mode,
            context_first: adapter_of(self.context_first),
        }
    }
}

impl Clone for Config {
    fn clone(&self) -> (copy: Self)
        ensures
            copy@ == self@,
    {
        let context_first = match &self.context_first {
            Some(adapter) => Some(adapter.clone()),
            None => None,
        };
        Config {
            listen_addr: self.listen_addr,
            decode_engine_url: self.decode_engine_url.clone(),
            connect_timeout: self.connect_timeout,
            read_timeout: self.read_timeout,
            drain_timeout: self.drain_timeout,
            adapter_mode: self.adapter_mode,
            context_first,
        }
    }
}

/// The text of the URL of the decode engine.
pub open spec fn decode_engine_text(port: u16) -> Seq<char> {
    "http://localhost:"@ + decimal(port as nat)
}

/// The configuration in the settings, where they are right. Errors come in the
/// order of the reads: both ports, the mode, the adapter, and the timeouts.
pub open spec fn config_in(settings: Settings) -> Result<ConfigView, SettingErrorView> {
    let sidecar_port = port_in(
        raw_of(settings.sidecar_port),
        SIDECAR_PORT_ENV@,
        DEFAULT_SIDECAR_PORT,
    );
    let decode_port = port_in(
        raw_of(settings.decode_engine_port),
        DECODE_ENGINE_PORT_ENV@,
        DEFAULT_DECODE_ENGINE_PORT,
    );
    let mode = mode_in(raw_of(settings.adapter_mode));
    let adapter = adapter_in(mode->Ok_0, settings);
    let url = url_parse(decode_engine_text(decode_port->Ok_0));
    let connect = millis_in(
        raw_of(settings.connect_timeout_ms),
        CONNECT_TIMEOUT_MS_ENV@,
        DEFAULT_CONNECT_TIMEOUT_MS,
    );
    let read = millis_in(
        raw_of(settings.read_timeout_ms),
        READ_TIMEOUT_MS_ENV@,
        DEFAULT_READ_TIMEOUT_MS,
    );
    let drain = millis_in(
        raw_of(settings.drain_timeout_ms),
        DRAIN_TIMEOUT_MS_ENV@,
        DEFAULT_DRAIN_TIMEOUT_MS,
    );
    if sidecar_port is Err {
        Err(sidecar_port->Err_0)
    } else if decode_port is Err {
        Err(decode_port->Err_0)
    } else if mode is Err {
        Err(mode->Err_0)
    } else if adapter is Err {
        Err(adapter->Err_0)
    } else if url is None {
        Err(SettingErrorView::DecodeEngineUrl)
    } else if connect is Err {
        Err(connect->Err_0)
    } else if read is Err {
        Err(read->Err_0)
    } else if drain is Err {
        Err(drain->Err_0)
    } else {
        Ok(
            ConfigView {
                listen_host: seq![0u8, 0u8, 0u8, 0u8],
                listen_port: sidecar_port->Ok_0,
                decode_engine_url: url->Some_0,
                connect_timeout: (connect->Ok_0 * 1_000_000) as nat,
                read_timeout: (read->Ok_0 * 1_000_000) as nat,
                drain_timeout: (drain->Ok_0 * 1_000_000) as nat,
                adapter_mode: mode->Ok_0,
                context_first: adapter->Ok_0,
            },
        )
    }
}

/// What a read of the configuration holds.
pub open spec fn config_outcome(outcome: Result<Config, SettingError>) -> Result<
    ConfigView,
    SettingErrorView,
> {
    match outcome {
        Ok(config) => Ok(config@),
        Err(error) => Err(error@),
    }
}

impl Config {
    /// Reads the configuration from the settings.
    pub fn from_settings(settings: &Settings) -> (outcome: Result<Self, SettingError>)
        ensures
            config_outcome(outcome) == config_in(*settings),
            outcome is Ok ==> (outcome->Ok_0.context_first is Some <==> outcome->Ok_0.adapter_mode
                == AdapterMode::TrtllmContextFirst),
    {
        let sidecar_port: u16 = port_setting(
            &settings.sidecar_port,
            SIDECAR_PORT_ENV,
            DEFAULT_SIDECAR_PORT,
        )?;
        let decode_engine_port: u16 = port_setting(
            &settings.decode_engine_port,
            DECODE_ENGINE_PORT_ENV,
            DEFAULT_DECODE_ENGINE_PORT,
        )?;
        let adapter_mode = mode_setting(&settings.adapter_mode)?;
        let context_first = context_first_from_settings(adapter_mode, settings)?;
        let text = join_two("http://localhost:", decimal_text(decode_engine_port as u64).as_str());
        let decode_engine_url = match parse_url(text.as_str()) {
            Some(url) => url,
            None => {
                return Err(SettingError::DecodeEngineUrl);
            },
        };
        let connect_timeout: Duration = duration_setting(
            &settings.connect_timeout_ms,
            CONNECT_TIMEOUT_MS_ENV,
            DEFAULT_CONNECT_TIMEOUT_MS,
        )?;
        let read_timeout: Duration = duration_setting(
            &settings.read_timeout_ms,
            READ_TIMEOUT_MS_ENV,
            DEFAULT_READ_TIMEOUT_MS,
        )?;
        let drain_timeout: Duration = duration_setting(
            &settings.drain_timeout_ms,
            DRAIN_TIMEOUT_MS_ENV,
            DEFAULT_DRAIN_TIMEOUT_MS,
        )?;
        let listen_addr = ListenAddr { host: [0, 0, 0, 0], port: sidecar_port };
        assert(listen_addr.host@ =~= seq![0u8, 0u8, 0u8, 0u8]);
        Ok(
            Config {
                listen_addr,
                decode_engine_url,
                connect_timeout,
                read_timeout,
                drain_timeout,
                adapter_mode,
                context_first,
            },
        )
    }
}

/// Whether a setting is missing or a text that is a number within bounds.
pub open spec fn unset_or_within(
    raw: Option<Option<Seq<char>>>,
    trims: bool,
    least: nat,
    most: nat,
) -> bool {
    match raw {
        None => true,
        Some(None) => false,
        Some(Some(text)) => unsigned_value(
            if trims {
                trimmed(text)
            } else {
                text
            },
        ) matches Some(number) && least <= number <= most,
    }
}

/// The number in a setting, or the default where the setting is missing.
pub open spec fn number_or(raw: Option<Option<Seq<char>>>, trims: bool, default: nat) -> nat {
    match raw {
        Some(Some(text)) => unsigned_value(
            if trims {
                trimmed(text)
            } else {
                text
            },
        )->Some_0,
        _ => default,
    }
}

/// A configuration says what the settings say. Each number is the whole number in
/// its own setting, or the default where that setting is missing: the ports, the
/// times in milliseconds, the limits in bytes and the namespace. The sidecar listens
/// on every interface. The decode engine is the one on this host. No port, time or
/// limit is zero, no deadline is longer than an hour, and the namespace fits.
pub proof fn law_configuration_is_what_the_settings_say(settings: Settings, config: ConfigView)
    requires
        config_in(settings) == Ok::<ConfigView, SettingErrorView>(config),
    ensures
        config.listen_host == seq![0u8, 0u8, 0u8, 0u8],
        config.listen_port == number_or(raw_of(settings.sidecar_port), false, 8000),
        config.listen_port > 0,
        url_parse(
            "http://localhost:"@ + decimal(
                number_or(raw_of(settings.decode_engine_port), false, 8001),
            ),
        ) == Some(config.decode_engine_url),
        config.connect_timeout == number_or(raw_of(settings.connect_timeout_ms), false, 10_000)
            * 1_000_000,
        config.read_timeout == number_or(raw_of(settings.read_timeout_ms), false, 300_000)
            * 1_000_000,
        config.drain_timeout == number_or(raw_of(settings.drain_timeout_ms), false, 30_000)
            * 1_000_000,
        config.connect_timeout > 0 && config.read_timeout > 0 && config.drain_timeout > 0,
        config.context_first is Some <==> config.adapter_mode == AdapterMode::TrtllmContextFirst,
        raw_of(settings.adapter_mode) is None ==> config.adapter_mode == AdapterMode::Disabled,
        config.context_first matches Some(adapter) ==> {
            &&& raw_of(settings.context_engine_url) matches Some(Some(text)) && url_parse(text)
                == Some(adapter.context_engine_url)
            &&& adapter.request_body_bytes == number_or(
                raw_of(settings.request_bytes),
                true,
                1024 * 1024,
            )
            &&& adapter.handoff_body_bytes == number_or(
                raw_of(settings.handoff_bytes),
                true,
                8 * 1024 * 1024,
            )
            &&& adapter.response_body_bytes == number_or(
                raw_of(settings.response_bytes),
                true,
                16 * 1024 * 1024,
            )
            &&& adapter.context_deadline == number_or(
                raw_of(settings.context_deadline_ms),
                false,
                60_000,
            ) * 1_000_000
            &&& adapter.generation_deadline == number_or(
                raw_of(settings.generation_deadline_ms),
                false,
                300_000,
            ) * 1_000_000
            &&& adapter.node_id == number_or(raw_of(settings.node_id), true, 0)
            &&& adapter.process_id == number_or(raw_of(settings.process_id), true, 0)
            &&& adapter.request_body_bytes > 0 && adapter.handoff_body_bytes > 0
                && adapter.response_body_bytes > 0
            &&& 0 < adapter.context_deadline <= 3_600_000_000_000
            &&& 0 < adapter.generation_deadline <= 3_600_000_000_000
            &&& adapter.node_id < 256 && adapter.process_id < 64
        },
{
}

/// Settings that are right are taken: each is missing or a number within its bounds,
/// the mode is one that there is, and where it asks for the adapter the URL of the
/// context worker is there and is one.
pub proof fn law_right_settings_are_taken(settings: Settings)
    requires
        unset_or_within(raw_of(settings.sidecar_port), false, 1, 65_535),
        unset_or_within(raw_of(settings.decode_engine_port), false, 1, 65_535),
        unset_or_within(raw_of(settings.connect_timeout_ms), false, 1, u64::MAX as nat),
        unset_or_within(raw_of(settings.read_timeout_ms), false, 1, u64::MAX as nat),
        unset_or_within(raw_of(settings.drain_timeout_ms), false, 1, u64::MAX as nat),
        url_parse(
            "http://localhost:"@ + decimal(
                number_or(raw_of(settings.decode_engine_port), false, 8001),
            ),
        ) is Some,
        raw_of(settings.adapter_mode) is None || (raw_of(settings.adapter_mode) matches Some(
            Some(text),
        ) && (trimmed(text) == "none"@ || trimmed(text) == "trtllm-context-first"@)),
        raw_of(settings.adapter_mode) is Some ==> {
            &&& raw_of(settings.context_engine_url) matches Some(Some(text)) && url_parse(
                text,
            ) is Some
            &&& unset_or_within(raw_of(settings.request_bytes), true, 1, u32::MAX as nat)
            &&& unset_or_within(raw_of(settings.handoff_bytes), true, 1, u32::MAX as nat)
            &&& unset_or_within(raw_of(settings.response_bytes), true, 1, u32::MAX as nat)
            &&& unset_or_within(raw_of(settings.context_deadline_ms), false, 1, 3_600_000)
            &&& unset_or_within(raw_of(settings.generation_deadline_ms), false, 1, 3_600_000)
            &&& unset_or_within(raw_of(settings.node_id), true, 0, 255)
            &&& unset_or_within(raw_of(settings.process_id), true, 0, 63)
        },
    ensures
        config_in(settings) is Ok,
        raw_of(settings.adapter_mode) matches Some(Some(text)) ==> (config_in(
            settings,
        )->Ok_0.adapter_mode == AdapterMode::TrtllmContextFirst <==> trimmed(text)
            == "trtllm-context-first"@),
{
    lemma_spellings_are_lower();
}

/// Both spellings are in lower case and differ.
proof fn lemma_spellings_are_lower()
    ensures
        lowered("none"@) == "none"@,
        lowered("trtllm-context-first"@) == "trtllm-context-first"@,
        "none"@ != "trtllm-context-first"@,
        ""@ != "trtllm-context-first"@,
{
    reveal_strlit("");
    reveal_strlit("none");
    reveal_strlit("trtllm-context-first");
    assert(lowered("none"@) =~= "none"@);
    assert(lowered("trtllm-context-first"@) =~= "trtllm-context-first"@);
}

/// A number that is written in decimal is read as that number, wherever it is within
/// the bounds of its setting.
pub proof fn law_written_numbers_are_read(number: u64, name: Seq<char>, port: u16, count: usize)
    ensures
        0 < number <= 65_535 ==> port_in(Some(Some(decimal(number as nat))), name, port) == Ok::<
            u16,
            SettingErrorView,
        >(number as u16),
        number > 65_535 ==> port_in(Some(Some(decimal(number as nat))), name, port) == Err::<
            u16,
            SettingErrorView,
        >(SettingErrorView::NotAPort { name }),
        number > 0 ==> millis_in(Some(Some(decimal(number as nat))), name, 1) == Ok::<
            u64,
            SettingErrorView,
        >(number),
        0 < number <= usize::MAX ==> byte_count_in(Some(Some(decimal(number as nat))), name, count)
            == Ok::<usize, SettingErrorView>(number as usize),
        number_in(Some(Some(decimal(number as nat))), name, 1) == Ok::<u64, SettingErrorView>(
            number,
        ),
        number == 0 ==> {
            let text = Some(Some(decimal(number as nat)));
            &&& port_in(text, name, port)->Err_0 == (SettingErrorView::Zero { name })
            &&& millis_in(text, name, 1)->Err_0 == (SettingErrorView::Zero { name })
            &&& byte_count_in(text, name, count)->Err_0 == (SettingErrorView::Zero { name })
        },
{
    let text = decimal(number as nat);
    law_decimal_reads_back(number as nat);
    law_decimal_is_digits(number as nat);
    law_trimmed_is_whole(text);
    assert(!white_space(text.first()) && !white_space(text.last()));
}

/// A mode is on only where its spelling says so, whatever the case of its letters
/// and the white space around it. Everything else but an empty text and the spelling
/// of no adapter is refused, and what was found is named.
pub proof fn law_modes_are_spelled_out(raw: Seq<char>)
    ensures
        mode_of(raw) is Ok <==> trimmed(raw).len() == 0 || exists|mode: AdapterMode|
            lowered(trimmed(raw)) == #[trigger] mode.spelling(),
        mode_of(raw) == Ok::<AdapterMode, SettingErrorView>(AdapterMode::TrtllmContextFirst)
            <==> lowered(trimmed(raw)) == "trtllm-context-first"@,
        mode_of(raw) matches Err(error) ==> error == (SettingErrorView::UnknownMode {
            found: lowered(trimmed(raw)),
        }),
{
    lemma_spellings_are_lower();
    reveal_strlit("");
    let spelled = lowered(trimmed(raw));
    assert(spelled.len() == trimmed(raw).len());
    assert(spelled.len() == 0 <==> spelled =~= ""@);
    assert(AdapterMode::Disabled.spelling() == "none"@);
    assert(AdapterMode::TrtllmContextFirst.spelling() == "trtllm-context-first"@);
}

/// The text of an error starts with the name of the setting that is wrong.
pub proof fn law_setting_errors_name_the_setting(error: SettingErrorView)
    ensures
        ({
            let named = match error {
                SettingErrorView::NotUtf8 { name } => Some(name),
                SettingErrorView::Required { name } => Some(name),
                SettingErrorView::NotAPort { name } => Some(name),
                SettingErrorView::NotADuration { name } => Some(name),
                SettingErrorView::NotAByteCount { name } => Some(name),
                SettingErrorView::NotAnInteger { name } => Some(name),
                SettingErrorView::NotAUrl { name } => Some(name),
                SettingErrorView::Zero { name } => Some(name),
                _ => None,
            };
            named matches Some(name) ==> error.text().len() >= name.len() && error.text().take(
                name.len() as int,
            ) == name
        }),
{
    match error {
        SettingErrorView::NotUtf8 { name } => assert(error.text().take(name.len() as int) =~= name),
        SettingErrorView::Required { name } => assert(error.text().take(name.len() as int) =~= name),
        SettingErrorView::NotAPort { name } => assert(error.text().take(name.len() as int) =~= name),
        SettingErrorView::NotADuration { name } => assert(error.text().take(name.len() as int)
            =~= name),
        SettingErrorView::NotAByteCount { name } => assert(error.text().take(name.len() as int)
            =~= name),
        SettingErrorView::NotAnInteger { name } => assert(error.text().take(name.len() as int)
            =~= name),
        SettingErrorView::NotAUrl { name } => assert(error.text().take(name.len() as int) =~= name),
        SettingErrorView::Zero { name } => assert(error.text().take(name.len() as int) =~= name),
        _ => {},
    }
}

/// Each setting has its own name in the environment.
pub proof fn law_settings_have_their_names()
    ensures
        SIDECAR_PORT_ENV@ == "DYN_SIDECAR_PORT"@,
        DECODE_ENGINE_PORT_ENV@ == "DYN_DECODE_ENGINE_PORT"@,
        ADAPTER_MODE_ENV@ == "DYN_ADAPTER_MODE"@,
        CONTEXT_ENGINE_URL_ENV@ == "DYN_CONTEXT_ENGINE_URL"@,
        CONTEXT_FIRST_REQUEST_BYTES_ENV@ == "DYN_CONTEXT_FIRST_REQUEST_BYTES"@,
        CONTEXT_FIRST_HANDOFF_BYTES_ENV@ == "DYN_CONTEXT_FIRST_HANDOFF_BYTES"@,
        CONTEXT_FIRST_RESPONSE_BYTES_ENV@ == "DYN_CONTEXT_FIRST_RESPONSE_BYTES"@,
        CONTEXT_FIRST_CONTEXT_DEADLINE_MS_ENV@ == "DYN_CONTEXT_FIRST_CONTEXT_DEADLINE_MS"@,
        CONTEXT_FIRST_GENERATION_DEADLINE_MS_ENV@ == "DYN_CONTEXT_FIRST_GENERATION_DEADLINE_MS"@,
        CONTEXT_FIRST_NODE_ID_ENV@ == "DYN_CONTEXT_FIRST_NODE_ID"@,
        CONTEXT_FIRST_PROCESS_ID_ENV@ == "DYN_CONTEXT_FIRST_PROCESS_ID"@,
        CONNECT_TIMEOUT_MS_ENV@ == "DYN_SIDECAR_CONNECT_TIMEOUT_MS"@,
        READ_TIMEOUT_MS_ENV@ == "DYN_SIDECAR_READ_TIMEOUT_MS"@,
        DRAIN_TIMEOUT_MS_ENV@ == "DYN_SIDECAR_DRAIN_TIMEOUT_MS"@,
{
}

/// The view of a configuration keeps every part of it.
pub proof fn law_configuration_views_keep_every_part(config: Config, adapter: ContextFirstConfig)
    ensures
        config@.listen_host == config.listen_addr.host@,
        config@.listen_port == config.listen_addr.port,
        config@.decode_engine_url == url_text(config.decode_engine_url),
        config@.connect_timeout == duration_nanos(config.connect_timeout),
        config@.read_timeout == duration_nanos(config.read_timeout),
        config@.drain_timeout == duration_nanos(config.drain_timeout),
        config@.adapter_mode == config.adapter_mode,
        config@.context_first is Some <==> config.context_first is Some,
        config.context_first matches Some(settings) ==> config@.context_first == Some(settings@),
        adapter@.context_engine_url == url_text(adapter.context_engine_url),
        adapter@.request_body_bytes == adapter.limits.request_body_bytes,
        adapter@.handoff_body_bytes == adapter.limits.handoff_body_bytes,
        adapter@.response_body_bytes == adapter.limits.response_body_bytes,
        adapter@.context_deadline == duration_nanos(adapter.limits.context_deadline),
        adapter@.generation_deadline == duration_nanos(adapter.limits.generation_deadline),
        adapter@.node_id == adapter.namespace.node(),
        adapter@.process_id == adapter.namespace.process(),
{
}

} // verus!
