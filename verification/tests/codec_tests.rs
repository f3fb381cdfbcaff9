//! Wire-codec tests: exact canonical JSON shapes, round trips for every
//! outbound message type, escaping, and rejection of malformed frames.

use voice_relay::codec::{decode_client_message, decode_server_message, encode_client_message,
    encode_server_message};
use voice_relay::config::ASRConfig;
use voice_relay::protocol::{ClientMessage, RecordingState, ServerMessage};
use voice_relay::server::status_line;
use voice_relay::session::RecordingMode;

fn sample_config() -> ASRConfig {
    ASRConfig {
        provider: "whisper".to_string(),
        api_key: "test-key-123".to_string(),
        language: "en".to_string(),
    }
}

#[test]
fn recording_state_shapes() {
    let m = ServerMessage::RecordingState { state: RecordingState::Started };
    assert_eq!(encode_server_message(&m), "{\"type\":\"recording_state\",\"state\":\"started\"}");
    let m = ServerMessage::RecordingState { state: RecordingState::Stopped };
    assert_eq!(encode_server_message(&m), "{\"type\":\"recording_state\",\"state\":\"stopped\"}");
    let m = ServerMessage::RecordingState { state: RecordingState::Cancelled };
    assert_eq!(
        encode_server_message(&m),
        "{\"type\":\"recording_state\",\"state\":\"cancelled\"}"
    );
}

#[test]
fn transcription_complete_shape() {
    let m = ServerMessage::TranscriptionComplete {
        text: "hello world".to_string(),
        engine: "primary".to_string(),
        used_fallback: false,
        duration_ms: 120,
    };
    assert_eq!(
        encode_server_message(&m),
        "{\"type\":\"transcription_complete\",\"text\":\"hello world\",\"engine\":\"primary\",\"used_fallback\":false,\"duration_ms\":120}"
    );
}

#[test]
fn audio_level_shape() {
    let m = ServerMessage::AudioLevel { level: 500, waveform: vec![0, 1000, 123] };
    assert_eq!(
        encode_server_message(&m),
        "{\"type\":\"audio_level\",\"level\":0.500,\"waveform\":[0.000,1.000,0.123]}"
    );
    let m = ServerMessage::AudioLevel { level: 0, waveform: vec![] };
    assert_eq!(encode_server_message(&m), "{\"type\":\"audio_level\",\"level\":0.000,\"waveform\":[]}");
}

#[test]
fn server_roundtrip_every_variant() {
    let messages = vec![
        ServerMessage::RecordingState { state: RecordingState::Started },
        ServerMessage::RecordingState { state: RecordingState::Stopped },
        ServerMessage::RecordingState { state: RecordingState::Cancelled },
        ServerMessage::AudioLevel { level: 742, waveform: vec![1, 2, 3, 1000, 0] },
        ServerMessage::TranscriptionProgress { partial_text: "partial words".to_string() },
        ServerMessage::TranscriptionComplete {
            text: "the final transcript".to_string(),
            engine: "fallback-engine".to_string(),
            used_fallback: true,
            duration_ms: 18446744073709551615,
        },
        ServerMessage::Error {
            code: "COMMAND_ERROR".to_string(),
            message: "not recording".to_string(),
        },
    ];
    for m in messages {
        let wire = encode_server_message(&m);
        let back = decode_server_message(&wire).expect("canonical form must decode");
        assert_eq!(back, m);
    }
}

#[test]
fn roundtrip_with_escapes_and_unicode() {
    let m = ServerMessage::TranscriptionProgress {
        partial_text: "he said \"hi\"\\\n\tand 你好".to_string(),
    };
    let wire = encode_server_message(&m);
    assert_eq!(
        wire,
        "{\"type\":\"transcription_progress\",\"partial_text\":\"he said \\\"hi\\\"\\\\\\n\\tand 你好\"}"
    );
    assert_eq!(decode_server_message(&wire), Some(m));
}

#[test]
fn client_roundtrip_every_variant() {
    let messages = vec![
        ClientMessage::StartRecording { mode: RecordingMode::Toggle, asr_config: sample_config() },
        ClientMessage::StartRecording { mode: RecordingMode::Press, asr_config: sample_config() },
        ClientMessage::StopRecording,
        ClientMessage::CancelRecording,
        ClientMessage::UpdateConfig { asr_config: sample_config() },
    ];
    for m in messages {
        let wire = encode_client_message(&m);
        let back = decode_client_message(&wire).expect("canonical form must decode");
        assert_eq!(back, m);
    }
}

#[test]
fn client_decode_documented_shape() {
    let wire = "{\"type\":\"start_recording\",\"mode\":\"toggle\",\"asr_config\":{\"provider\":\"whisper\",\"api_key\":\"test-key-123\",\"language\":\"en\"}}";
    let m = decode_client_message(wire).expect("documented shape must decode");
    assert_eq!(
        m,
        ClientMessage::StartRecording { mode: RecordingMode::Toggle, asr_config: sample_config() }
    );
    assert_eq!(decode_client_message("{\"type\":\"stop_recording\"}"), Some(ClientMessage::StopRecording));
    assert_eq!(
        decode_client_message("{\"type\":\"cancel_recording\"}"),
        Some(ClientMessage::CancelRecording)
    );
}

#[test]
fn malformed_frames_are_rejected() {
    assert_eq!(decode_client_message(""), None);
    assert_eq!(decode_client_message("not json at all"), None);
    assert_eq!(decode_client_message("{\"type\":\"unknown_thing\"}"), None);
    assert_eq!(decode_client_message("{\"type\":\"stop_recording\"} trailing"), None);
    assert_eq!(decode_server_message("{\"type\":\"audio_level\",\"level\":1.500,\"waveform\":[]}"), None);
    assert_eq!(decode_server_message("{\"type\":\"transcription_complete\",\"text\":\"x\"}"), None);
}

#[test]
fn encoded_messages_are_valid_json() {
    let m = ServerMessage::TranscriptionComplete {
        text: "a \"quoted\" word\n".to_string(),
        engine: "primary".to_string(),
        used_fallback: false,
        duration_ms: 7,
    };
    let wire = encode_server_message(&m);
    let value: serde_json::Value = serde_json::from_str(&wire).expect("output must be JSON");
    assert_eq!(value["type"], "transcription_complete");
    assert_eq!(value["text"], "a \"quoted\" word\n");
    assert_eq!(value["engine"], "primary");
    assert_eq!(value["used_fallback"], false);
    assert_eq!(value["duration_ms"], 7);

    let m = ServerMessage::AudioLevel { level: 250, waveform: vec![1000, 42] };
    let wire = encode_server_message(&m);
    let value: serde_json::Value = serde_json::from_str(&wire).expect("output must be JSON");
    assert_eq!(value["level"], 0.25);
    assert_eq!(value["waveform"][0], 1.0);
    assert_eq!(value["waveform"][1], 0.042);
}

#[test]
fn status_line_shape() {
    assert_eq!(status_line(8765, 4242), "{\"port\": 8765, \"pid\": 4242}");
    let value: serde_json::Value = serde_json::from_str(&status_line(0, 1)).unwrap();
    assert_eq!(value["port"], 0);
    assert_eq!(value["pid"], 1);
}
