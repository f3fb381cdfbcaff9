//! The per-connection recording-session state machine: `Idle` →
//! `Recording` → `Finalizing` → `Idle`, with cancellation returning from
//! `Recording` to `Idle` without finalization. One session exists per
//! connection and owns its audio buffer exclusively.

use vstd::prelude::*;

use crate::config::{ASRConfig, ASRConfigV};

verus! {

/// The recording mode requested by the client.
#[derive(Debug, Clone, Copy, PartialEq, Eq, Structural)]
pub enum RecordingMode {
    /// Record while a key is held.
    Press,
    /// Record until toggled off.
    Toggle,
}

/// The phase of a recording cycle.
#[derive(Debug, Clone, Copy, PartialEq, Eq, Structural)]
pub enum SessionState {
    /// No recording in progress.
    Idle,
    /// Audio is being captured.
    Recording,
    /// Captured audio was handed off; the outcome is pending.
    Finalizing,
}

/// A session-level transition error, surfaced verbatim to the protocol
/// handler.
#[derive(Debug, Clone, Copy, PartialEq, Eq, Structural)]
pub enum SessionError {
    /// A start was requested while a cycle is already under way.
    AlreadyRecording,
    /// A stop or cancel was requested outside `Recording`.
    NotRecording,
}

/// The user-visible message of a session-level transition error.
pub open spec fn spec_session_error_message(e: SessionError) -> Seq<char> {
    match e {
        SessionError::AlreadyRecording => "already recording"@,
        SessionError::NotRecording => "not recording"@,
    }
}

impl SessionError {
    /// The user-visible message of this error.
    pub fn message(&self) -> (r: &'static str)
        ensures
            r@ == spec_session_error_message(*self),
    {
        match self {
            SessionError::AlreadyRecording => "already recording",
            SessionError::NotRecording => "not recording",
        }
    }
}

/// Mathematical model of a session.
pub struct ConnectionStateV {
    pub state: SessionState,
    pub asr_config: Option<ASRConfigV>,
    pub recording_mode: Option<RecordingMode>,
    pub audio_buffer: Seq<i16>,
    pub sample_rate: u32,
    pub channels: u16,
}

/// Per-connection session state: the current phase, the active recording
/// mode and engine configuration, and the accumulated audio.
#[derive(Debug)]
pub struct ConnectionState {
    /// The phase of the current cycle.
    pub state: SessionState,
    /// The engine configuration in force, if any was supplied yet.
    pub asr_config: Option<ASRConfig>,
    /// The mode of the recording in progress, while one is.
    pub recording_mode: Option<RecordingMode>,
    /// Samples accumulated while `Recording`.
    pub audio_buffer: Vec<i16>,
    /// Sample rate of the accumulated audio.
    pub sample_rate: u32,
    /// Channel count of the accumulated audio.
    pub channels: u16,
}

impl View for ConnectionState {
    type V = ConnectionStateV;

    open spec fn view(&self) -> ConnectionStateV {
        ConnectionStateV {
            state: self.state,
            asr_config: self.asr_config.deep_view(),
            recording_mode: self.recording_mode,
            audio_buffer: self.audio_buffer@,
            sample_rate: self.sample_rate,
            channels: self.channels,
        }
    }
}

impl DeepView for ConnectionState {
    type V = ConnectionStateV;

    open spec fn deep_view(&self) -> ConnectionStateV {
        self.view()
    }
}

/// The most samples a session will buffer in one recording cycle: a
/// machine limit keeping duration arithmetic inside 64 bits.
pub const MAX_BUFFERED_SAMPLES: usize = 0xffff_ffff;

/// The session invariant: a recording mode is held exactly while recording,
/// a recording always has a configuration, the audio buffer is empty
/// outside `Recording`, and buffering stays within the machine limit.
pub open spec fn session_wf(s: ConnectionStateV) -> bool {
    &&& (s.recording_mode is Some <==> s.state is Recording)
    &&& (s.state is Recording ==> s.asr_config is Some)
    &&& (!(s.state is Recording) ==> s.audio_buffer.len() == 0)
    &&& s.audio_buffer.len() <= MAX_BUFFERED_SAMPLES
}

impl ConnectionState {
    /// A fresh session: idle, with no configuration and no audio.
    pub fn new() -> (r: Self)
        ensures
            r@.state is Idle,
            r@.asr_config is None,
            r@.recording_mode is None,
            r@.audio_buffer.len() == 0,
            session_wf(r@),
    {
        Self {
            state: SessionState::Idle,
            asr_config: None,
            recording_mode: None,
            audio_buffer: Vec::new(),
            sample_rate: 0,
            channels: 0,
        }
    }

    /// Begins a recording cycle. Legal only from `Idle`: otherwise the
    /// session is left unchanged and `AlreadyRecording` is returned.
    pub fn start_recording(&mut self, mode: RecordingMode, config: ASRConfig) -> (r: Result<
        (),
        SessionError,
    >)
        requires
            session_wf(old(self)@),
        ensures
            session_wf(final(self)@),
            old(self)@.state is Idle ==> {
                &&& r is Ok
                &&& final(self)@ == (ConnectionStateV {
                    state: SessionState::Recording,
                    recording_mode: Some(mode),
                    asr_config: Some(config@),
                    audio_buffer: Seq::<i16>::empty(),
                    ..old(self)@
                })
            },
            !(old(self)@.state is Idle) ==> {
                &&& r == Err::<(), SessionError>(SessionError::AlreadyRecording)
                &&& final(self)@ == old(self)@
            },
    {
        match self.state {
            SessionState::Idle => {
                self.state = SessionState::Recording;
                self.recording_mode = Some(mode);
                self.asr_config = Some(config);
                self.audio_buffer = Vec::new();
                proof {
                    assert(self.audio_buffer@ =~= Seq::<i16>::empty());
                }
                Ok(())
            },
            _ => Err(SessionError::AlreadyRecording),
        }
    }

    /// Accumulates captured samples. Accepted only while `Recording`; in any
    /// other state the session is unchanged and the samples are refused.
    pub fn push_audio(&mut self, samples: &Vec<i16>, sample_rate: u32, channels: u16) -> (accepted:
        bool)
        requires
            session_wf(old(self)@),
        ensures
            session_wf(final(self)@),
            accepted == (old(self)@.state is Recording && old(self)@.audio_buffer.len()
                + samples@.len() <= MAX_BUFFERED_SAMPLES),
            accepted ==> final(self)@ == (ConnectionStateV {
                audio_buffer: old(self)@.audio_buffer + samples@,
                sample_rate: sample_rate,
                channels: channels,
                ..old(self)@
            }),
            !accepted ==> final(self)@ == old(self)@,
    {
        match self.state {
            SessionState::Recording => {
                if samples.len() > MAX_BUFFERED_SAMPLES - self.audio_buffer.len() {
                    return false;
                }
                let mut i: usize = 0;
                let n = samples.len();
                while i < n
                    invariant
                        n == samples@.len(),
                        i <= n,
                        self.audio_buffer@ == old(self)@.audio_buffer + samples@.take(i as int),
                        self.state == old(self)@.state,
                        self.recording_mode == old(self)@.recording_mode,
                        self.asr_config.deep_view() == old(self)@.asr_config,
                        self.sample_rate == old(self)@.sample_rate,
                        self.channels == old(self)@.channels,
                    decreases n - i,
                {
                    self.audio_buffer.push(samples[i]);
                    i = i + 1;
                    proof {
                        assert(self.audio_buffer@ =~= old(self)@.audio_buffer + samples@.take(
                            i as int,
                        ));
                    }
                }
                self.sample_rate = sample_rate;
                self.channels = channels;
                proof {
                    assert(samples@.take(n as int) =~= samples@);
                }
                true
            },
            _ => false,
        }
    }

    /// Ends capture and hands the accumulated audio off for finalization.
    /// Legal only from `Recording`: otherwise the session is unchanged and
    /// `NotRecording` is returned. On success the session is `Finalizing`
    /// and the returned samples are exactly the accumulated buffer.
    pub fn stop_recording(&mut self) -> (r: Result<Vec<i16>, SessionError>)
        requires
            session_wf(old(self)@),
        ensures
            session_wf(final(self)@),
            old(self)@.state is Recording ==> {
                &&& r is Ok
                &&& r->Ok_0@ == old(self)@.audio_buffer
                &&& final(self)@ == (ConnectionStateV {
                    state: SessionState::Finalizing,
                    recording_mode: None,
                    audio_buffer: Seq::<i16>::empty(),
                    ..old(self)@
                })
            },
            !(old(self)@.state is Recording) ==> {
                &&& r == Err::<Vec<i16>, SessionError>(SessionError::NotRecording)
                &&& final(self)@ == old(self)@
            },
    {
        match self.state {
            SessionState::Recording => {
                self.state = SessionState::Finalizing;
                self.recording_mode = None;
                let mut audio: Vec<i16> = Vec::new();
                core::mem::swap(&mut audio, &mut self.audio_buffer);
                proof {
                    assert(self.audio_buffer@ =~= Seq::<i16>::empty());
                }
                Ok(audio)
            },
            _ => Err(SessionError::NotRecording),
        }
    }

    /// Discards the recording in progress without any transcription.
    /// Legal only from `Recording`: otherwise the session is unchanged and
    /// `NotRecording` is returned.
    pub fn cancel_recording(&mut self) -> (r: Result<(), SessionError>)
        requires
            session_wf(old(self)@),
        ensures
            session_wf(final(self)@),
            old(self)@.state is Recording ==> {
                &&& r is Ok
                &&& final(self)@ == (ConnectionStateV {
                    state: SessionState::Idle,
                    recording_mode: None,
                    audio_buffer: Seq::<i16>::empty(),
                    ..old(self)@
                })
            },
            !(old(self)@.state is Recording) ==> {
                &&& r == Err::<(), SessionError>(SessionError::NotRecording)
                &&& final(self)@ == old(self)@
            },
    {
        match self.state {
            SessionState::Recording => {
                self.state = SessionState::Idle;
                self.recording_mode = None;
                self.audio_buffer = Vec::new();
                proof {
                    assert(self.audio_buffer@ =~= Seq::<i16>::empty());
                }
                Ok(())
            },
            _ => Err(SessionError::NotRecording),
        }
    }

    /// Replaces the stored configuration wholesale. Legal in any state; an
    /// in-flight recording's already-captured audio is unaffected.
    pub fn update_config(&mut self, config: ASRConfig)
        requires
            session_wf(old(self)@),
        ensures
            session_wf(final(self)@),
            final(self)@ == (ConnectionStateV { asr_config: Some(config@), ..old(self)@ }),
    {
        self.asr_config = Some(config);
    }

    /// Completes a finalization cycle, returning the session to `Idle`.
    /// Called after the transcription outcome has been delivered.
    pub fn complete_finalization(&mut self)
        requires
            session_wf(old(self)@),
            old(self)@.state is Finalizing,
        ensures
            session_wf(final(self)@),
            final(self)@ == (ConnectionStateV { state: SessionState::Idle, ..old(self)@ }),
    {
        self.state = SessionState::Idle;
    }

    /// The implicit cancellation performed when the connection closes:
    /// any recording in progress is discarded without a transcription
    /// attempt, and no outbound event is produced (the connection is gone).
    pub fn on_connection_close(&mut self)
        requires
            session_wf(old(self)@),
        ensures
            session_wf(final(self)@),
            final(self)@ == (ConnectionStateV {
                state: SessionState::Idle,
                recording_mode: None,
                audio_buffer: Seq::<i16>::empty(),
                ..old(self)@
            }),
    {
        self.state = SessionState::Idle;
        self.recording_mode = None;
        self.audio_buffer = Vec::new();
        proof {
            assert(self.audio_buffer@ =~= Seq::<i16>::empty());
        }
    }
}

} // verus!
