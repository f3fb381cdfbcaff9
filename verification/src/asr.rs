//! Transcription engine abstraction: error taxonomy, engine capability
//! traits, transcription results, and the retry policy value object.

use vstd::prelude::*;
use vstd::string::StringExecFns;

use crate::audio::AudioData;

verus! {

/// Errors raised by transcription engines and by the failover selector.
#[derive(Debug, Clone, PartialEq)]
pub enum ASRError {
    /// A network-level failure, with a description.
    NetworkError(String),
    /// The provider rejected the credentials.
    AuthFailed { engine: String, message: String },
    /// The provider reported an exhausted quota.
    QuotaExceeded { engine: String },
    /// The audio payload was rejected as malformed.
    InvalidAudio(String),
    /// An attempt exceeded its deadline.
    Timeout { timeout_ms: u64 },
    /// A streaming-session transport failure.
    WebSocketError(String),
    /// Primary retries and the fallback (if any) were all exhausted.
    AllEnginesFailed { primary_error: String, fallback_error: Option<String> },
    /// No engine has been configured yet.
    NotInitialized,
    /// The engine does not support the requested capability.
    UnsupportedOperation(String),
}

/// Mathematical model of an engine error.
pub enum ASRErrorV {
    NetworkError(Seq<char>),
    AuthFailed { engine: Seq<char>, message: Seq<char> },
    QuotaExceeded { engine: Seq<char> },
    InvalidAudio(Seq<char>),
    Timeout { timeout_ms: u64 },
    WebSocketError(Seq<char>),
    AllEnginesFailed { primary_error: Seq<char>, fallback_error: Option<Seq<char>> },
    NotInitialized,
    UnsupportedOperation(Seq<char>),
}

impl View for ASRError {
    type V = ASRErrorV;

    open spec fn view(&self) -> ASRErrorV {
        match self {
            ASRError::NetworkError(m) => ASRErrorV::NetworkError(m@),
            ASRError::AuthFailed { engine, message } => ASRErrorV::AuthFailed {
                engine: engine@,
                message: message@,
            },
            ASRError::QuotaExceeded { engine } => ASRErrorV::QuotaExceeded { engine: engine@ },
            ASRError::InvalidAudio(m) => ASRErrorV::InvalidAudio(m@),
            ASRError::Timeout { timeout_ms } => ASRErrorV::Timeout { timeout_ms: *timeout_ms },
            ASRError::WebSocketError(m) => ASRErrorV::WebSocketError(m@),
            ASRError::AllEnginesFailed { primary_error, fallback_error } => {
                ASRErrorV::AllEnginesFailed {
                    primary_error: primary_error@,
                    fallback_error: fallback_error.deep_view(),
                }
            },
            ASRError::NotInitialized => ASRErrorV::NotInitialized,
            ASRError::UnsupportedOperation(m) => ASRErrorV::UnsupportedOperation(m@),
        }
    }
}

impl DeepView for ASRError {
    type V = ASRErrorV;

    open spec fn deep_view(&self) -> ASRErrorV {
        self.view()
    }
}

/// Whether the selector may retry the primary after this error.
/// Authentication failures and malformed audio are terminal: retrying
/// cannot change the outcome.
pub open spec fn spec_retryable(e: ASRErrorV) -> bool {
    !(e is AuthFailed || e is InvalidAudio)
}

/// The one-line human-readable description of an engine error, as carried
/// in aggregated failures and in outbound error events.
pub open spec fn spec_describe(e: ASRErrorV) -> Seq<char> {
    match e {
        ASRErrorV::NetworkError(m) => "network error: "@ + m,
        ASRErrorV::AuthFailed { engine, message } => "auth failed ("@ + engine + "): "@ + message,
        ASRErrorV::QuotaExceeded { engine } => "quota exceeded ("@ + engine + ")"@,
        ASRErrorV::InvalidAudio(m) => "invalid audio: "@ + m,
        ASRErrorV::Timeout { timeout_ms } => "timeout after "@ + crate::text::spec_u64_chars(
            timeout_ms as nat,
        ) + " ms"@,
        ASRErrorV::WebSocketError(m) => "websocket error: "@ + m,
        ASRErrorV::AllEnginesFailed { primary_error, fallback_error } => {
            let tail = match fallback_error {
                Some(f) => ", fallback="@ + f,
                None => ", no fallback configured"@,
            };
            "all engines failed: primary="@ + primary_error + tail
        },
        ASRErrorV::NotInitialized => "engine not initialized"@,
        ASRErrorV::UnsupportedOperation(m) => "unsupported operation: "@ + m,
    }
}

impl ASRError {
    /// Classifies this error for the retry policy.
    pub fn is_retryable(&self) -> (r: bool)
        ensures
            r == spec_retryable(self@),
    {
        match self {
            ASRError::AuthFailed { .. } => false,
            ASRError::InvalidAudio(_) => false,
            _ => true,
        }
    }

    /// The one-line description of this error, for aggregated failures and
    /// outbound error events.
    pub fn describe(&self) -> (r: String)
        ensures
            r@ == spec_describe(self@),
    {
        match self {
            ASRError::NetworkError(m) => {
                let mut s = "network error: ".to_owned();
                s.append(m.as_str());
                s
            },
            ASRError::AuthFailed { engine, message } => {
                let mut s = "auth failed (".to_owned();
                s.append(engine.as_str());
                s.append("): ");
                s.append(message.as_str());
                proof {
                    assert(s@ =~= spec_describe(self@));
                }
                s
            },
            ASRError::QuotaExceeded { engine } => {
                let mut s = "quota exceeded (".to_owned();
                s.append(engine.as_str());
                s.append(")");
                proof {
                    assert(s@ =~= spec_describe(self@));
                }
                s
            },
            ASRError::InvalidAudio(m) => {
                let mut s = "invalid audio: ".to_owned();
                s.append(m.as_str());
                s
            },
            ASRError::Timeout { timeout_ms } => {
                let mut s = "timeout after ".to_owned();
                let num = crate::text::u64_to_string(*timeout_ms);
                s.append(num.as_str());
                s.append(" ms");
                proof {
                    assert(s@ =~= spec_describe(self@));
                }
                s
            },
            ASRError::WebSocketError(m) => {
                let mut s = "websocket error: ".to_owned();
                s.append(m.as_str());
                s
            },
            ASRError::AllEnginesFailed { primary_error, fallback_error } => {
                let mut s = "all engines failed: primary=".to_owned();
                s.append(primary_error.as_str());
                match fallback_error {
                    Some(f) => {
                        s.append(", fallback=");
                        s.append(f.as_str());
                    },
                    None => {
                        s.append(", no fallback configured");
                    },
                }
                proof {
                    assert(s@ =~= spec_describe(self@));
                }
                s
            },
            ASRError::NotInitialized => "engine not initialized".to_owned(),
            ASRError::UnsupportedOperation(m) => {
                let mut s = "unsupported operation: ".to_owned();
                s.append(m.as_str());
                s
            },
        }
    }
}

/// Transcription mode an engine can serve.
#[derive(Debug, Clone, Copy, PartialEq, Eq, Structural)]
pub enum ASRMode {
    /// Streaming recognition over a full-duplex session.
    Realtime,
    /// Batch recognition of a complete utterance.
    Http,
}

/// The result of a successful transcription, as delivered to the client.
#[derive(Debug, Clone, PartialEq)]
pub struct TranscriptionResult {
    /// The recognized text.
    pub text: String,
    /// Name of the engine that produced the text.
    pub engine: String,
    /// Whether the fallback engine produced the text.
    pub used_fallback: bool,
    /// Wall-clock duration of the successful attempt, in milliseconds.
    pub duration_ms: u64,
}

impl TranscriptionResult {
    /// Bundles the fields of a transcription result.
    pub fn new(text: String, engine: String, used_fallback: bool, duration_ms: u64) -> (r: Self)
        ensures
            r.text == text,
            r.engine == engine,
            r.used_fallback == used_fallback,
            r.duration_ms == duration_ms,
    {
        Self { text, engine, used_fallback, duration_ms }
    }
}

/// Mathematical model of a transcription result.
pub struct TranscriptionResultV {
    pub text: Seq<char>,
    pub engine: Seq<char>,
    pub used_fallback: bool,
    pub duration_ms: u64,
}

impl View for TranscriptionResult {
    type V = TranscriptionResultV;

    open spec fn view(&self) -> TranscriptionResultV {
        TranscriptionResultV {
            text: self.text@,
            engine: self.engine@,
            used_fallback: self.used_fallback,
            duration_ms: self.duration_ms,
        }
    }
}

impl DeepView for TranscriptionResult {
    type V = TranscriptionResultV;

    open spec fn deep_view(&self) -> TranscriptionResultV {
        self.view()
    }
}

/// An intermediate, non-final streaming recognition result.
#[derive(Debug, Clone, PartialEq)]
pub struct PartialTranscription {
    /// The partial text recognized so far.
    pub text: String,
    /// Whether this partial is the engine's final hypothesis.
    pub is_final: bool,
}

/// The retry policy for the failover selector: the primary is attempted
/// `max_retries + 1` times, each attempt bounded by `timeout_ms`, with an
/// exponential backoff of `base_delay_ms * 2^attempt` between attempts.
#[derive(Debug, Clone, PartialEq)]
pub struct RetryConfig {
    /// Number of retries after the first primary attempt.
    pub max_retries: u32,
    /// Base backoff delay in milliseconds.
    pub base_delay_ms: u64,
    /// Deadline for each single attempt, in milliseconds.
    pub timeout_ms: u64,
}

/// A retry policy is meaningful only with a positive attempt deadline.
pub open spec fn retry_config_wf(c: RetryConfig) -> bool {
    c.timeout_ms > 0
}

impl Default for RetryConfig {
    /// Two retries, half a second of base backoff, six-second deadlines.
    fn default() -> (r: Self)
        ensures
            r.max_retries == 2,
            r.base_delay_ms == 500,
            r.timeout_ms == 6000,
            retry_config_wf(r),
    {
        Self { max_retries: 2, base_delay_ms: 500, timeout_ms: 6000 }
    }
}

/// A provider-specific transcription backend. One implementing type exists
/// per provider; implementations hold no per-call state and may be shared.
/// The methods carry no contracts: what an engine returns is the provider's
/// business, and the selector states what holds of every outcome.
pub trait ASREngine {
    /// Stable identifier used in outcomes and errors.
    fn name(&self) -> String;

    /// The transcription modes this engine can serve.
    fn supported_modes(&self) -> Vec<ASRMode>;

    /// Batch transcription of a complete utterance. The implementation must
    /// honor the supplied deadline, returning `Timeout` when it passes.
    fn transcribe(&mut self, audio: &AudioData, timeout_ms: u64) -> Result<String, ASRError>;
}

/// An open streaming recognition session.
pub trait RealtimeSession {
    /// Sends one chunk of encoded audio.
    fn send_chunk(&mut self, chunk: &[u8]) -> Result<(), ASRError>;

    /// Drains the next pending partial result, if any arrived since the
    /// last call; partials arrive strictly before `close` resolves.
    fn poll_partial(&mut self) -> Option<PartialTranscription>;

    /// Closes the session and returns the final transcript.
    fn close(&mut self) -> Result<String, ASRError>;
}

} // verus!
