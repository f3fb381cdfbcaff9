//! The connection protocol handler: applies inbound commands to the
//! session state machine and produces the outbound events and the
//! transcription hand-off each command calls for. Errors never terminate
//! the connection: every failure becomes an `error` event.
//!
//! The proofs at the end state the session laws: the emitted
//! `recording_state` trace never closes a cycle that was not opened, and
//! cancellation never triggers a transcription attempt.

use vstd::prelude::*;

use crate::asr::{ASRError, ASRErrorV, TranscriptionResult, TranscriptionResultV, spec_describe};
use crate::audio::{AudioData, spec_duration_ms};
use crate::config::{ASRConfig, ASRConfigV};
use crate::protocol::{ClientMessage, ClientMessageV, RecordingState, ServerMessage, ServerMessageV};
use crate::session::{
    ConnectionState, ConnectionStateV, SessionState, session_wf, spec_session_error_message,
};
use crate::text::{chars_to_string, push_str_chars, push_u64_chars, spec_u64_chars};

verus! {

/// Server configuration: the requested listening port (zero for an
/// ephemeral one).
pub struct ServerConfig {
    /// The port to bind; zero asks the system for an ephemeral port.
    pub port: u16,
}

/// The relay server value: its configuration. Binding the socket and
/// accepting connections are the embedding application's work.
pub struct Server {
    /// The configuration the server was built with.
    pub config: ServerConfig,
}

impl Server {
    /// A server value for the given configuration.
    pub fn new(config: ServerConfig) -> (r: Self)
        ensures
            r.config.port == config.port,
    {
        Self { config }
    }
}

/// The single machine-readable status line announced on startup: the bound
/// port and the process id, as a JSON object.
pub open spec fn spec_status_line(port: u16, pid: u32) -> Seq<char> {
    "{\"port\": "@ + spec_u64_chars(port as nat) + ", \"pid\": "@ + spec_u64_chars(pid as nat)
        + "}"@
}

/// Renders the startup status line for the given port and process id.
pub fn status_line(port: u16, pid: u32) -> (s: String)
    ensures
        s@ == spec_status_line(port, pid),
{
    let mut out: Vec<char> = Vec::new();
    push_str_chars(&mut out, "{\"port\": ");
    push_u64_chars(&mut out, port as u64);
    push_str_chars(&mut out, ", \"pid\": ");
    push_u64_chars(&mut out, pid as u64);
    push_str_chars(&mut out, "}");
    proof {
        assert(out@ =~= spec_status_line(port, pid));
    }
    chars_to_string(&out)
}

/// Mathematical model of a transcription hand-off.
pub struct TranscriptionRequestV {
    pub samples: Seq<i16>,
    pub sample_rate: u32,
    pub channels: u16,
    pub duration_ms: u64,
    pub config: ASRConfigV,
}

/// The immutable value handed to the engine selector when a recording is
/// stopped: the accumulated audio and the configuration in force.
#[derive(Debug)]
pub struct TranscriptionRequest {
    /// The captured utterance.
    pub audio: AudioData,
    /// The engine configuration to transcribe it with.
    pub config: ASRConfig,
}

impl View for TranscriptionRequest {
    type V = TranscriptionRequestV;

    open spec fn view(&self) -> TranscriptionRequestV {
        TranscriptionRequestV {
            samples: self.audio.samples@,
            sample_rate: self.audio.sample_rate,
            channels: self.audio.channels,
            duration_ms: self.audio.duration_ms,
            config: self.config@,
        }
    }
}

impl DeepView for TranscriptionRequest {
    type V = TranscriptionRequestV;

    open spec fn deep_view(&self) -> TranscriptionRequestV {
        self.view()
    }
}

/// Mathematical model of a command's effect.
pub struct CommandEffectV {
    pub session: ConnectionStateV,
    pub events: Seq<ServerMessageV>,
    pub transcribe: Option<TranscriptionRequestV>,
}

/// What one inbound command produced: events to emit, in order, and the
/// transcription hand-off when the command stopped a recording.
#[derive(Debug)]
pub struct CommandEffect {
    /// Outbound events, in emission order.
    pub events: Vec<ServerMessage>,
    /// The transcription to run, when the command was a successful stop.
    pub transcribe: Option<TranscriptionRequest>,
}

/// The error event for a failed session transition.
pub open spec fn spec_command_error_event(e: crate::session::SessionError) -> ServerMessageV {
    ServerMessageV::Error { code: "COMMAND_ERROR"@, message: spec_session_error_message(e) }
}

/// What one inbound command does to a session, which events it emits, and
/// whether it hands audio off for transcription — the protocol handler's
/// decision function.
pub open spec fn spec_apply_command(s: ConnectionStateV, cmd: ClientMessageV) -> CommandEffectV {
    match cmd {
        ClientMessageV::StartRecording { mode, asr_config } => {
            if s.state is Idle {
                CommandEffectV {
                    session: ConnectionStateV {
                        state: SessionState::Recording,
                        recording_mode: Some(mode),
                        asr_config: Some(asr_config),
                        audio_buffer: Seq::<i16>::empty(),
                        ..s
                    },
                    events: seq![
                        ServerMessageV::RecordingState { state: RecordingState::Started },
                    ],
                    transcribe: None,
                }
            } else {
                CommandEffectV {
                    session: s,
                    events: seq![
                        spec_command_error_event(crate::session::SessionError::AlreadyRecording),
                    ],
                    transcribe: None,
                }
            }
        },
        ClientMessageV::StopRecording => {
            if s.state is Recording {
                CommandEffectV {
                    session: ConnectionStateV {
                        state: SessionState::Finalizing,
                        recording_mode: None,
                        audio_buffer: Seq::<i16>::empty(),
                        ..s
                    },
                    events: seq![
                        ServerMessageV::RecordingState { state: RecordingState::Stopped },
                    ],
                    transcribe: Some(
                        TranscriptionRequestV {
                            samples: s.audio_buffer,
                            sample_rate: s.sample_rate,
                            channels: s.channels,
                            duration_ms: spec_duration_ms(
                                s.audio_buffer.len(),
                                s.sample_rate,
                                s.channels,
                            ) as u64,
                            config: s.asr_config->0,
                        },
                    ),
                }
            } else {
                CommandEffectV {
                    session: s,
                    events: seq![
                        spec_command_error_event(crate::session::SessionError::NotRecording),
                    ],
                    transcribe: None,
                }
            }
        },
        ClientMessageV::CancelRecording => {
            if s.state is Recording {
                CommandEffectV {
                    session: ConnectionStateV {
                        state: SessionState::Idle,
                        recording_mode: None,
                        audio_buffer: Seq::<i16>::empty(),
                        ..s
                    },
                    events: seq![
                        ServerMessageV::RecordingState { state: RecordingState::Cancelled },
                    ],
                    transcribe: None,
                }
            } else {
                CommandEffectV {
                    session: s,
                    events: seq![
                        spec_command_error_event(crate::session::SessionError::NotRecording),
                    ],
                    transcribe: None,
                }
            }
        },
        ClientMessageV::UpdateConfig { asr_config } => CommandEffectV {
            session: ConnectionStateV { asr_config: Some(asr_config), ..s },
            events: Seq::<ServerMessageV>::empty(),
            transcribe: None,
        },
    }
}

/// Applies one decoded command to the session, per `spec_apply_command`:
/// a failed transition becomes a `COMMAND_ERROR` event and leaves the
/// session unchanged; a successful stop hands the audio off.
pub fn apply_command(state: &mut ConnectionState, cmd: ClientMessage) -> (effect: CommandEffect)
    requires
        session_wf(old(state)@),
    ensures
        session_wf(final(state)@),
        final(state)@ == spec_apply_command(old(state)@, cmd@).session,
        effect.events.deep_view() == spec_apply_command(old(state)@, cmd@).events,
        effect.transcribe.deep_view() == spec_apply_command(old(state)@, cmd@).transcribe,
        cmd@ is CancelRecording ==> effect.transcribe is None,
{
    match cmd {
        ClientMessage::StartRecording { mode, asr_config } => {
            match state.start_recording(mode, asr_config) {
                Ok(()) => {
                    let mut events: Vec<ServerMessage> = Vec::new();
                    events.push(ServerMessage::RecordingState { state: RecordingState::Started });
                    proof {
                        assert(events.deep_view() =~= spec_apply_command(
                            old(state)@,
                            cmd@,
                        ).events);
                    }
                    CommandEffect { events, transcribe: None }
                },
                Err(e) => command_error_effect(e),
            }
        },
        ClientMessage::StopRecording => {
            match state.stop_recording() {
                Ok(audio) => {
                    let config = match &state.asr_config {
                        Some(c) => c.duplicate(),
                        None => {
                            proof {
                                assert(false);
                            }
                            ASRConfig {
                                provider: String::new(),
                                api_key: String::new(),
                                language: String::new(),
                            }
                        },
                    };
                    let mut events: Vec<ServerMessage> = Vec::new();
                    events.push(ServerMessage::RecordingState { state: RecordingState::Stopped });
                    let request = TranscriptionRequest {
                        audio: AudioData::new(audio, state.sample_rate, state.channels),
                        config,
                    };
                    proof {
                        assert(events.deep_view() =~= spec_apply_command(
                            old(state)@,
                            cmd@,
                        ).events);
                    }
                    CommandEffect { events, transcribe: Some(request) }
                },
                Err(e) => command_error_effect(e),
            }
        },
        ClientMessage::CancelRecording => {
            match state.cancel_recording() {
                Ok(()) => {
                    let mut events: Vec<ServerMessage> = Vec::new();
                    events.push(
                        ServerMessage::RecordingState { state: RecordingState::Cancelled },
                    );
                    proof {
                        assert(events.deep_view() =~= spec_apply_command(
                            old(state)@,
                            cmd@,
                        ).events);
                    }
                    CommandEffect { events, transcribe: None }
                },
                Err(e) => command_error_effect(e),
            }
        },
        ClientMessage::UpdateConfig { asr_config } => {
            state.update_config(asr_config);
            let events: Vec<ServerMessage> = Vec::new();
            proof {
                assert(events.deep_view() =~= Seq::<ServerMessageV>::empty());
            }
            CommandEffect { events, transcribe: None }
        },
    }
}

/// The effect of a failed transition: one `COMMAND_ERROR` event.
fn command_error_effect(e: crate::session::SessionError) -> (effect: CommandEffect)
    ensures
        effect.events.deep_view() == seq![spec_command_error_event(e)],
        effect.transcribe is None,
{
    let mut events: Vec<ServerMessage> = Vec::new();
    events.push(
        ServerMessage::Error { code: "COMMAND_ERROR".to_owned(), message: e.message().to_owned() },
    );
    proof {
        assert(events.deep_view() =~= seq![spec_command_error_event(e)]);
    }
    CommandEffect { events, transcribe: None }
}

/// The event delivering a transcription outcome: the completed transcript,
/// or a `TRANSCRIPTION_ERROR` event carrying the aggregated description.
pub open spec fn spec_outcome_event(o: Result<TranscriptionResultV, ASRErrorV>) -> ServerMessageV {
    match o {
        Ok(t) => ServerMessageV::TranscriptionComplete {
            text: t.text,
            engine: t.engine,
            used_fallback: t.used_fallback,
            duration_ms: t.duration_ms,
        },
        Err(e) => ServerMessageV::Error {
            code: "TRANSCRIPTION_ERROR"@,
            message: spec_describe(e),
        },
    }
}

/// Delivers the engine selector's outcome for a stopped recording and
/// returns the session to `Idle`, completing the cycle.
pub fn deliver_outcome(state: &mut ConnectionState, outcome: Result<TranscriptionResult, ASRError>)
    -> (events: Vec<ServerMessage>)
    requires
        session_wf(old(state)@),
        old(state)@.state is Finalizing,
    ensures
        session_wf(final(state)@),
        final(state)@ == (ConnectionStateV { state: SessionState::Idle, ..old(state)@ }),
        events.deep_view() == seq![
            spec_outcome_event(crate::selector::outcome_view(Some(outcome))->0),
        ],
{
    state.complete_finalization();
    let mut events: Vec<ServerMessage> = Vec::new();
    match outcome {
        Ok(t) => {
            events.push(
                ServerMessage::TranscriptionComplete {
                    text: t.text,
                    engine: t.engine,
                    used_fallback: t.used_fallback,
                    duration_ms: t.duration_ms,
                },
            );
        },
        Err(e) => {
            let message = e.describe();
            events.push(
                ServerMessage::Error { code: "TRANSCRIPTION_ERROR".to_owned(), message },
            );
        },
    }
    proof {
        assert(events.deep_view() =~= seq![
            spec_outcome_event(crate::selector::outcome_view(Some(outcome))->0),
        ]);
    }
    events
}

/// The error event for a frame that is not a canonical command.
pub open spec fn spec_invalid_message_event() -> ServerMessageV {
    ServerMessageV::Error { code: "INVALID_MESSAGE"@, message: "malformed message"@ }
}

/// Handles one inbound text frame: decodes it and applies the command. A
/// frame that is not a canonical command yields one `INVALID_MESSAGE` error
/// event and leaves the session unchanged — the connection stays open.
pub fn process_frame(state: &mut ConnectionState, text: &str) -> (effect: CommandEffect)
    requires
        session_wf(old(state)@),
    ensures
        session_wf(final(state)@),
        (match crate::codec::spec_decode_client(text@) {
            Some(cmd) => {
                &&& final(state)@ == spec_apply_command(old(state)@, cmd).session
                &&& effect.events.deep_view() == spec_apply_command(old(state)@, cmd).events
                &&& effect.transcribe.deep_view() == spec_apply_command(old(state)@, cmd).transcribe
            },
            None => {
                &&& final(state)@ == old(state)@
                &&& effect.events.deep_view() == seq![spec_invalid_message_event()]
                &&& effect.transcribe is None
            },
        }),
{
    match crate::codec::decode_client_message(text) {
        Some(cmd) => apply_command(state, cmd),
        None => {
            let mut events: Vec<ServerMessage> = Vec::new();
            events.push(
                ServerMessage::Error {
                    code: "INVALID_MESSAGE".to_owned(),
                    message: "malformed message".to_owned(),
                },
            );
            proof {
                assert(events.deep_view() =~= seq![spec_invalid_message_event()]);
            }
            CommandEffect { events, transcribe: None }
        },
    }
}

/// Connection close: any recording in progress is implicitly cancelled,
/// with no transcription attempt and no outbound event — the connection is
/// gone, so nothing is ever emitted on it after close.
pub fn handle_close(state: &mut ConnectionState) -> (events: Vec<ServerMessage>)
    requires
        session_wf(old(state)@),
    ensures
        session_wf(final(state)@),
        events@.len() == 0,
        final(state)@.state is Idle,
        final(state)@.audio_buffer.len() == 0,
{
    state.on_connection_close();
    Vec::new()
}

/// How one outbound event moves the count of open recording cycles.
pub open spec fn spec_event_delta(e: ServerMessageV) -> int {
    match e {
        ServerMessageV::RecordingState { state } => match state {
            RecordingState::Started => 1,
            RecordingState::Stopped => -1,
            RecordingState::Cancelled => -1,
        },
        _ => 0,
    }
}

/// Whether a trace keeps the count of open recording cycles within [0, 1]
/// from the given starting count: no `Stopped` or `Cancelled` without an
/// unmatched `Started` before it, and no nested `Started`.
pub open spec fn spec_trace_balanced(t: Seq<ServerMessageV>, open_cycles: int) -> bool
    decreases t.len(),
{
    if t.len() == 0 {
        true
    } else {
        let after = open_cycles + spec_event_delta(t[0]);
        &&& 0 <= after <= 1
        &&& spec_trace_balanced(t.drop_first(), after)
    }
}

/// Runs a command sequence against a session, collecting every emitted
/// event in order.
pub open spec fn spec_run_commands(s: ConnectionStateV, cmds: Seq<ClientMessageV>) -> (
    ConnectionStateV,
    Seq<ServerMessageV>,
)
    decreases cmds.len(),
{
    if cmds.len() == 0 {
        (s, Seq::<ServerMessageV>::empty())
    } else {
        let eff = spec_apply_command(s, cmds[0]);
        let rest = spec_run_commands(eff.session, cmds.drop_first());
        (rest.0, eff.events + rest.1)
    }
}

/// One open recording cycle while `Recording`, none otherwise.
pub open spec fn spec_open_cycles(s: ConnectionStateV) -> int {
    if s.state is Recording {
        1
    } else {
        0
    }
}

/// The session trace law, generalized over the starting session: from any
/// well-formed session, the events emitted by any command sequence keep
/// the count of open cycles within [0, 1] — `Stopped` and `Cancelled` are
/// emitted only under an unmatched `Started`, and `Started` only when no
/// cycle is open.
pub proof fn lemma_trace_balanced_from(s: ConnectionStateV, cmds: Seq<ClientMessageV>)
    requires
        session_wf(s),
    ensures
        spec_trace_balanced(spec_run_commands(s, cmds).1, spec_open_cycles(s)),
    decreases cmds.len(),
{
    if cmds.len() == 0 {
    } else {
        let eff = spec_apply_command(s, cmds[0]);
        let rest = spec_run_commands(eff.session, cmds.drop_first());
        assert(session_wf(eff.session));
        lemma_trace_balanced_from(eff.session, cmds.drop_first());
        if eff.events.len() == 0 {
            assert(eff.events + rest.1 =~= rest.1);
            assert(spec_open_cycles(eff.session) == spec_open_cycles(s));
        } else {
            assert(eff.events.len() == 1);
            let t = eff.events + rest.1;
            assert(t[0] == eff.events[0]);
            assert(t.drop_first() =~= rest.1);
            assert(spec_open_cycles(s) + spec_event_delta(t[0]) == spec_open_cycles(eff.session));
        }
    }
}

/// The session never emits `Stopped` or `Cancelled` without a preceding
/// unmatched `Started`: from a fresh session, every command sequence's
/// event trace is balanced.
pub proof fn lemma_trace_never_unmatched(init: ConnectionStateV, cmds: Seq<ClientMessageV>)
    requires
        session_wf(init),
        init.state is Idle,
    ensures
        spec_trace_balanced(spec_run_commands(init, cmds).1, 0),
{
    lemma_trace_balanced_from(init, cmds);
}

/// A double start always fails with `AlreadyRecording` and leaves the
/// session unchanged.
pub proof fn lemma_double_start_rejected(s: ConnectionStateV, mode: crate::session::RecordingMode, config: ASRConfigV)
    requires
        !(s.state is Idle),
    ensures
        ({
            let eff = spec_apply_command(s, ClientMessageV::StartRecording { mode, asr_config: config });
            &&& eff.session == s
            &&& eff.events == seq![
                spec_command_error_event(crate::session::SessionError::AlreadyRecording),
            ]
            &&& eff.transcribe is None
        }),
{
}

/// A stop (or a second stop) outside `Recording` always fails with
/// `NotRecording` and leaves the session unchanged.
pub proof fn lemma_double_stop_rejected(s: ConnectionStateV)
    requires
        !(s.state is Recording),
    ensures
        ({
            let eff = spec_apply_command(s, ClientMessageV::StopRecording);
            &&& eff.session == s
            &&& eff.events == seq![
                spec_command_error_event(crate::session::SessionError::NotRecording),
            ]
            &&& eff.transcribe is None
        }),
{
}

/// Cancellation never triggers a transcription attempt: for every session,
/// the effect of `CancelRecording` carries no transcription hand-off.
pub proof fn lemma_cancel_never_transcribes(s: ConnectionStateV)
    ensures
        spec_apply_command(s, ClientMessageV::CancelRecording).transcribe is None,
{
}

} // verus!
