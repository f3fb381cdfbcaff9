//! Session state machine and protocol handler tests: legal and illegal
//! transitions, the full toggle-recording scenario, implicit cancellation
//! on connection close, and the invalid-frame path.

use voice_relay::asr::{ASRError, TranscriptionResult};
use voice_relay::codec::encode_server_message;
use voice_relay::config::ASRConfig;
use voice_relay::protocol::{ClientMessage, RecordingState, ServerMessage};
use voice_relay::server::{apply_command, deliver_outcome, handle_close, process_frame};
use voice_relay::session::{ConnectionState, RecordingMode, SessionError, SessionState};

fn sample_config() -> ASRConfig {
    ASRConfig {
        provider: "whisper".to_string(),
        api_key: "test-key-123".to_string(),
        language: "en".to_string(),
    }
}

#[test]
fn start_stop_cycle() {
    let mut s = ConnectionState::new();
    assert_eq!(s.state, SessionState::Idle);
    assert!(s.start_recording(RecordingMode::Press, sample_config()).is_ok());
    assert_eq!(s.state, SessionState::Recording);
    assert!(s.push_audio(&vec![1, 2, 3], 16000, 1));
    assert!(s.push_audio(&vec![4, 5], 16000, 1));
    let audio = s.stop_recording().expect("stop while recording must succeed");
    assert_eq!(audio, vec![1, 2, 3, 4, 5]);
    assert_eq!(s.state, SessionState::Finalizing);
    s.complete_finalization();
    assert_eq!(s.state, SessionState::Idle);
}

#[test]
fn double_start_fails_and_leaves_state() {
    let mut s = ConnectionState::new();
    s.start_recording(RecordingMode::Toggle, sample_config()).unwrap();
    s.push_audio(&vec![7, 7], 8000, 2);
    let r = s.start_recording(RecordingMode::Press, sample_config());
    assert_eq!(r, Err(SessionError::AlreadyRecording));
    assert_eq!(s.state, SessionState::Recording);
    assert_eq!(s.recording_mode, Some(RecordingMode::Toggle));
    assert_eq!(s.audio_buffer, vec![7, 7]);
}

#[test]
fn stop_and_cancel_require_recording() {
    let mut s = ConnectionState::new();
    assert_eq!(s.stop_recording().unwrap_err(), SessionError::NotRecording);
    assert_eq!(s.cancel_recording().unwrap_err(), SessionError::NotRecording);
    assert_eq!(s.state, SessionState::Idle);
}

#[test]
fn cancel_discards_audio_without_transcription() {
    let mut s = ConnectionState::new();
    s.start_recording(RecordingMode::Press, sample_config()).unwrap();
    s.push_audio(&vec![1; 100], 16000, 1);
    let effect = apply_command(&mut s, ClientMessage::CancelRecording);
    assert!(effect.transcribe.is_none());
    assert_eq!(
        effect.events,
        vec![ServerMessage::RecordingState { state: RecordingState::Cancelled }]
    );
    assert_eq!(s.state, SessionState::Idle);
    assert!(s.audio_buffer.is_empty());
}

#[test]
fn audio_refused_outside_recording() {
    let mut s = ConnectionState::new();
    assert!(!s.push_audio(&vec![1, 2], 16000, 1));
    assert!(s.audio_buffer.is_empty());
}

#[test]
fn update_config_in_any_state() {
    let mut s = ConnectionState::new();
    let effect = apply_command(
        &mut s,
        ClientMessage::UpdateConfig { asr_config: sample_config() },
    );
    assert!(effect.events.is_empty());
    assert!(effect.transcribe.is_none());
    assert_eq!(s.asr_config, Some(sample_config()));
    s.start_recording(RecordingMode::Press, sample_config()).unwrap();
    s.push_audio(&vec![9], 16000, 1);
    let mut other = sample_config();
    other.provider = "other".to_string();
    s.update_config(other.clone());
    assert_eq!(s.asr_config, Some(other));
    // The in-flight recording's captured audio is unaffected.
    assert_eq!(s.audio_buffer, vec![9]);
}

#[test]
fn toggle_scenario_emits_documented_events() {
    // The documented scenario: start_recording{mode:"toggle"} then
    // stop_recording, with a stub engine outcome of "hello world" from
    // "primary" in 120 ms.
    let mut s = ConnectionState::new();
    let start = "{\"type\":\"start_recording\",\"mode\":\"toggle\",\"asr_config\":{\"provider\":\"whisper\",\"api_key\":\"test-key-123\",\"language\":\"en\"}}";
    let effect = process_frame(&mut s, start);
    assert_eq!(effect.events.len(), 1);
    assert_eq!(
        encode_server_message(&effect.events[0]),
        "{\"type\":\"recording_state\",\"state\":\"started\"}"
    );
    assert!(effect.transcribe.is_none());

    s.push_audio(&vec![0; 320], 16000, 1);
    let effect = process_frame(&mut s, "{\"type\":\"stop_recording\"}");
    assert_eq!(effect.events.len(), 1);
    assert_eq!(
        encode_server_message(&effect.events[0]),
        "{\"type\":\"recording_state\",\"state\":\"stopped\"}"
    );
    let request = effect.transcribe.expect("a stop hands the audio off");
    assert_eq!(request.audio.sample_count(), 320);
    assert_eq!(request.config.provider, "whisper");

    let outcome = Ok(TranscriptionResult::new(
        "hello world".to_string(),
        "primary".to_string(),
        false,
        120,
    ));
    let events = deliver_outcome(&mut s, outcome);
    assert_eq!(events.len(), 1);
    assert_eq!(
        encode_server_message(&events[0]),
        "{\"type\":\"transcription_complete\",\"text\":\"hello world\",\"engine\":\"primary\",\"used_fallback\":false,\"duration_ms\":120}"
    );
    assert_eq!(s.state, SessionState::Idle);
}

#[test]
fn failed_transcription_becomes_error_event() {
    let mut s = ConnectionState::new();
    s.start_recording(RecordingMode::Press, sample_config()).unwrap();
    let effect = apply_command(&mut s, ClientMessage::StopRecording);
    assert!(effect.transcribe.is_some());
    let outcome = Err(ASRError::AllEnginesFailed {
        primary_error: "network error: down".to_string(),
        fallback_error: None,
    });
    let events = deliver_outcome(&mut s, outcome);
    assert_eq!(events.len(), 1);
    match &events[0] {
        ServerMessage::Error { code, message } => {
            assert_eq!(code, "TRANSCRIPTION_ERROR");
            assert_eq!(
                message,
                "all engines failed: primary=network error: down, no fallback configured"
            );
        },
        other => panic!("expected an error event, got {other:?}"),
    }
}

#[test]
fn command_errors_keep_connection_alive() {
    let mut s = ConnectionState::new();
    let effect = apply_command(&mut s, ClientMessage::StopRecording);
    assert_eq!(
        encode_server_message(&effect.events[0]),
        "{\"type\":\"error\",\"code\":\"COMMAND_ERROR\",\"message\":\"not recording\"}"
    );
    s.start_recording(RecordingMode::Press, sample_config()).unwrap();
    let effect = apply_command(
        &mut s,
        ClientMessage::StartRecording { mode: RecordingMode::Press, asr_config: sample_config() },
    );
    assert_eq!(
        encode_server_message(&effect.events[0]),
        "{\"type\":\"error\",\"code\":\"COMMAND_ERROR\",\"message\":\"already recording\"}"
    );
    assert_eq!(s.state, SessionState::Recording);
}

#[test]
fn invalid_frame_reports_and_continues() {
    let mut s = ConnectionState::new();
    let effect = process_frame(&mut s, "this is not a command");
    assert!(effect.transcribe.is_none());
    assert_eq!(
        encode_server_message(&effect.events[0]),
        "{\"type\":\"error\",\"code\":\"INVALID_MESSAGE\",\"message\":\"malformed message\"}"
    );
    assert_eq!(s.state, SessionState::Idle);
}

#[test]
fn close_during_recording_emits_nothing() {
    let mut s = ConnectionState::new();
    s.start_recording(RecordingMode::Toggle, sample_config()).unwrap();
    s.push_audio(&vec![5; 64], 16000, 1);
    let events = handle_close(&mut s);
    assert!(events.is_empty());
    assert_eq!(s.state, SessionState::Idle);
    assert!(s.audio_buffer.is_empty());
}
