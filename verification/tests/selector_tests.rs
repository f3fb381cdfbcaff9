//! Failover-policy tests with scripted engines: bounded retry with
//! exponential backoff, single fallback attempt after primary exhaustion,
//! error aggregation, and non-retryable short-circuiting.

use voice_relay::asr::{ASREngine, ASRError, ASRMode, RetryConfig};
use voice_relay::audio::AudioData;
use voice_relay::selector::{Clock, run_transcription};

/// An engine that fails a scripted number of times, then succeeds.
struct ScriptedEngine {
    name: String,
    failures_left: u32,
    failure: fn(&str) -> ASRError,
    success_text: String,
    calls: u32,
}

impl ScriptedEngine {
    fn new(name: &str, failures: u32, failure: fn(&str) -> ASRError, text: &str) -> Self {
        Self {
            name: name.to_string(),
            failures_left: failures,
            failure,
            success_text: text.to_string(),
            calls: 0,
        }
    }
}

fn network_error(engine: &str) -> ASRError {
    ASRError::NetworkError(format!("{engine} unreachable"))
}

fn auth_error(engine: &str) -> ASRError {
    ASRError::AuthFailed { engine: engine.to_string(), message: "bad key".to_string() }
}

impl ASREngine for ScriptedEngine {
    fn name(&self) -> String {
        self.name.clone()
    }

    fn supported_modes(&self) -> Vec<ASRMode> {
        vec![ASRMode::Http]
    }

    fn transcribe(&mut self, _audio: &AudioData, _timeout_ms: u64) -> Result<String, ASRError> {
        self.calls += 1;
        if self.failures_left > 0 {
            self.failures_left -= 1;
            Err((self.failure)(&self.name))
        } else {
            Ok(self.success_text.clone())
        }
    }
}

/// A clock that advances a fixed step per reading and records waits.
struct FakeClock {
    now: u64,
    step: u64,
    waits: Vec<u64>,
}

impl FakeClock {
    fn new(step: u64) -> Self {
        Self { now: 0, step, waits: Vec::new() }
    }
}

impl Clock for FakeClock {
    fn now_ms(&mut self) -> u64 {
        self.now += self.step;
        self.now
    }

    fn wait_ms(&mut self, ms: u64) {
        self.waits.push(ms);
    }
}

fn audio() -> AudioData {
    AudioData::new(vec![0i16; 1600], 16000, 1)
}

fn config() -> RetryConfig {
    RetryConfig { max_retries: 2, base_delay_ms: 500, timeout_ms: 6000 }
}

#[test]
fn retries_then_succeeds_without_fallback_flag() {
    // Two deterministic failures, then success, within a budget of two
    // retries: success, no fallback use, exactly three primary calls.
    let mut primary = ScriptedEngine::new("primary", 2, network_error, "hello world");
    let mut fallback = ScriptedEngine::new("fallback", 0, network_error, "never used");
    let mut clock = FakeClock::new(60);
    let r = run_transcription(&mut primary, Some(&mut fallback), &audio(), &config(), &mut clock);
    let t = r.expect("selector must succeed");
    assert_eq!(t.text, "hello world");
    assert_eq!(t.engine, "primary");
    assert!(!t.used_fallback);
    assert_eq!(t.duration_ms, 60);
    assert_eq!(primary.calls, 3);
    assert_eq!(fallback.calls, 0);
    // Exponential backoff before each retry: base * 2^attempt.
    assert_eq!(clock.waits, vec![500, 1000]);
}

#[test]
fn fallback_used_once_after_exhaustion() {
    let mut primary = ScriptedEngine::new("primary", 10, network_error, "unused");
    let mut fallback = ScriptedEngine::new("fallback", 0, network_error, "saved by fallback");
    let mut clock = FakeClock::new(10);
    let r = run_transcription(&mut primary, Some(&mut fallback), &audio(), &config(), &mut clock);
    let t = r.expect("fallback must succeed");
    assert_eq!(t.text, "saved by fallback");
    assert_eq!(t.engine, "fallback");
    assert!(t.used_fallback);
    // Primary is exhausted first: max_retries + 1 invocations, then the
    // fallback exactly once.
    assert_eq!(primary.calls, 3);
    assert_eq!(fallback.calls, 1);
}

#[test]
fn both_engines_failing_aggregates_errors() {
    let mut primary = ScriptedEngine::new("primary", 10, network_error, "unused");
    let mut fallback = ScriptedEngine::new("fallback", 10, network_error, "unused");
    let mut clock = FakeClock::new(10);
    let r = run_transcription(&mut primary, Some(&mut fallback), &audio(), &config(), &mut clock);
    match r {
        Err(ASRError::AllEnginesFailed { primary_error, fallback_error }) => {
            assert_eq!(primary_error, "network error: primary unreachable");
            assert_eq!(fallback_error, Some("network error: fallback unreachable".to_string()));
        },
        other => panic!("expected AllEnginesFailed, got {other:?}"),
    }
    assert_eq!(primary.calls, 3);
    assert_eq!(fallback.calls, 1);
}

#[test]
fn no_fallback_failure_reports_primary_only() {
    let mut primary = ScriptedEngine::new("primary", 10, network_error, "unused");
    let mut clock = FakeClock::new(10);
    let r = run_transcription::<ScriptedEngine, ScriptedEngine, FakeClock>(
        &mut primary,
        None,
        &audio(),
        &config(),
        &mut clock,
    );
    match r {
        Err(ASRError::AllEnginesFailed { primary_error, fallback_error }) => {
            assert_eq!(primary_error, "network error: primary unreachable");
            assert_eq!(fallback_error, None);
        },
        other => panic!("expected AllEnginesFailed, got {other:?}"),
    }
    assert_eq!(primary.calls, 3);
}

#[test]
fn auth_failure_never_retries() {
    let mut primary = ScriptedEngine::new("primary", 10, auth_error, "unused");
    let mut fallback = ScriptedEngine::new("fallback", 0, network_error, "rescued");
    let mut clock = FakeClock::new(10);
    let r = run_transcription(&mut primary, Some(&mut fallback), &audio(), &config(), &mut clock);
    let t = r.expect("fallback must succeed");
    assert!(t.used_fallback);
    // Non-retryable: the primary is invoked exactly once before fallback.
    assert_eq!(primary.calls, 1);
    assert_eq!(fallback.calls, 1);
    assert_eq!(clock.waits, Vec::<u64>::new());
}

#[test]
fn invalid_audio_never_retries() {
    fn invalid_audio(_engine: &str) -> ASRError {
        ASRError::InvalidAudio("empty buffer".to_string())
    }
    let mut primary = ScriptedEngine::new("primary", 10, invalid_audio, "unused");
    let mut clock = FakeClock::new(10);
    let r = run_transcription::<ScriptedEngine, ScriptedEngine, FakeClock>(
        &mut primary,
        None,
        &audio(),
        &config(),
        &mut clock,
    );
    assert!(matches!(r, Err(ASRError::AllEnginesFailed { .. })));
    assert_eq!(primary.calls, 1);
}

#[test]
fn retry_config_default_values() {
    let c = RetryConfig::default();
    assert_eq!(c.max_retries, 2);
    assert_eq!(c.base_delay_ms, 500);
    assert_eq!(c.timeout_ms, 6000);
}

#[test]
fn error_descriptions() {
    assert_eq!(
        ASRError::Timeout { timeout_ms: 6000 }.describe(),
        "timeout after 6000 ms"
    );
    assert_eq!(
        ASRError::QuotaExceeded { engine: "primary".to_string() }.describe(),
        "quota exceeded (primary)"
    );
    assert_eq!(ASRError::NotInitialized.describe(), "engine not initialized");
    assert_eq!(
        ASRError::AuthFailed { engine: "p".to_string(), message: "bad key".to_string() }.describe(),
        "auth failed (p): bad key"
    );
}
