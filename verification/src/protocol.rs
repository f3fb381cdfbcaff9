//! The message protocol: inbound client commands and outbound server
//! events, with their mathematical models. The canonical JSON wire form of
//! these messages lives in `codec`.

use vstd::prelude::*;

use crate::config::{ASRConfig, ASRConfigV};
use crate::session::RecordingMode;

verus! {

/// The recording-state change announced to the client.
#[derive(Debug, Clone, Copy, PartialEq, Eq, Structural)]
pub enum RecordingState {
    /// A recording cycle began.
    Started,
    /// Capture ended; finalization is under way.
    Stopped,
    /// The cycle was discarded without transcription.
    Cancelled,
}

/// An inbound client command.
#[derive(Debug, Clone, PartialEq)]
pub enum ClientMessage {
    /// Begin a recording cycle with the given mode and configuration.
    StartRecording { mode: RecordingMode, asr_config: ASRConfig },
    /// End capture and transcribe the recording.
    StopRecording,
    /// Discard the recording without transcription.
    CancelRecording,
    /// Replace the stored engine configuration.
    UpdateConfig { asr_config: ASRConfig },
}

/// Mathematical model of an inbound command.
pub enum ClientMessageV {
    StartRecording { mode: RecordingMode, asr_config: ASRConfigV },
    StopRecording,
    CancelRecording,
    UpdateConfig { asr_config: ASRConfigV },
}

impl View for ClientMessage {
    type V = ClientMessageV;

    open spec fn view(&self) -> ClientMessageV {
        match self {
            ClientMessage::StartRecording { mode, asr_config } => ClientMessageV::StartRecording {
                mode: *mode,
                asr_config: asr_config@,
            },
            ClientMessage::StopRecording => ClientMessageV::StopRecording,
            ClientMessage::CancelRecording => ClientMessageV::CancelRecording,
            ClientMessage::UpdateConfig { asr_config } => ClientMessageV::UpdateConfig {
                asr_config: asr_config@,
            },
        }
    }
}

impl DeepView for ClientMessage {
    type V = ClientMessageV;

    open spec fn deep_view(&self) -> ClientMessageV {
        self.view()
    }
}

/// An outbound server event. Levels and waveform entries are carried in
/// thousandths of the 0..1 range and rendered as decimals on the wire.
#[derive(Debug, Clone, PartialEq)]
pub enum ServerMessage {
    /// A recording-state change.
    RecordingState { state: RecordingState },
    /// A live audio level and waveform summary for display.
    AudioLevel { level: u32, waveform: Vec<u32> },
    /// A streaming partial transcript.
    TranscriptionProgress { partial_text: String },
    /// The final transcription outcome.
    TranscriptionComplete { text: String, engine: String, used_fallback: bool, duration_ms: u64 },
    /// An error surfaced to the client; never fatal to the connection.
    Error { code: String, message: String },
}

/// Mathematical model of an outbound event.
pub enum ServerMessageV {
    RecordingState { state: RecordingState },
    AudioLevel { level: u32, waveform: Seq<u32> },
    TranscriptionProgress { partial_text: Seq<char> },
    TranscriptionComplete {
        text: Seq<char>,
        engine: Seq<char>,
        used_fallback: bool,
        duration_ms: u64,
    },
    Error { code: Seq<char>, message: Seq<char> },
}

impl View for ServerMessage {
    type V = ServerMessageV;

    open spec fn view(&self) -> ServerMessageV {
        match self {
            ServerMessage::RecordingState { state } => ServerMessageV::RecordingState {
                state: *state,
            },
            ServerMessage::AudioLevel { level, waveform } => ServerMessageV::AudioLevel {
                level: *level,
                waveform: waveform@,
            },
            ServerMessage::TranscriptionProgress { partial_text } => {
                ServerMessageV::TranscriptionProgress { partial_text: partial_text@ }
            },
            ServerMessage::TranscriptionComplete { text, engine, used_fallback, duration_ms } => {
                ServerMessageV::TranscriptionComplete {
                    text: text@,
                    engine: engine@,
                    used_fallback: *used_fallback,
                    duration_ms: *duration_ms,
                }
            },
            ServerMessage::Error { code, message } => ServerMessageV::Error {
                code: code@,
                message: message@,
            },
        }
    }
}

impl DeepView for ServerMessage {
    type V = ServerMessageV;

    open spec fn deep_view(&self) -> ServerMessageV {
        self.view()
    }
}

/// A character the codec can carry in a JSON string: anything but the
/// control characters that would need a numeric escape. Newline, carriage
/// return and tab are carried through their short escapes.
pub open spec fn json_char_wf(c: char) -> bool {
    c as u32 >= 32 || c == '\n' || c == '\r' || c == '\t'
}

/// Text the codec can carry.
pub open spec fn json_text_wf(t: Seq<char>) -> bool {
    forall|i: int| 0 <= i < t.len() ==> json_char_wf(t[i])
}

/// Well-formedness of a configuration for the wire.
pub open spec fn config_wf(c: ASRConfigV) -> bool {
    &&& json_text_wf(c.provider)
    &&& json_text_wf(c.api_key)
    &&& json_text_wf(c.language)
}

/// Well-formedness of an inbound command for the wire.
pub open spec fn client_msg_wf(m: ClientMessageV) -> bool {
    match m {
        ClientMessageV::StartRecording { mode, asr_config } => config_wf(asr_config),
        ClientMessageV::StopRecording => true,
        ClientMessageV::CancelRecording => true,
        ClientMessageV::UpdateConfig { asr_config } => config_wf(asr_config),
    }
}

/// Well-formedness of an outbound event for the wire: carried text is
/// representable and levels lie in the documented 0..1 range.
pub open spec fn server_msg_wf(m: ServerMessageV) -> bool {
    match m {
        ServerMessageV::RecordingState { state } => true,
        ServerMessageV::AudioLevel { level, waveform } => {
            &&& level <= 1000
            &&& crate::audio::waveform_levels_wf(waveform)
        },
        ServerMessageV::TranscriptionProgress { partial_text } => json_text_wf(partial_text),
        ServerMessageV::TranscriptionComplete { text, engine, used_fallback, duration_ms } => {
            &&& json_text_wf(text)
            &&& json_text_wf(engine)
        },
        ServerMessageV::Error { code, message } => {
            &&& json_text_wf(code)
            &&& json_text_wf(message)
        },
    }
}

} // verus!
