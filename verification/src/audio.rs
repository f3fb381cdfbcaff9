//! Captured audio values: a complete utterance, a streaming chunk, and the
//! waveform summary shown by the client. Samples are 16-bit PCM; waveform
//! levels are in thousandths of the full 0..1 range.

use vstd::prelude::*;

verus! {

/// The duration in milliseconds of `samples` interleaved samples at the
/// given rate and channel count; zero when either is zero.
pub open spec fn spec_duration_ms(samples: nat, sample_rate: u32, channels: u16) -> nat {
    if sample_rate > 0 && channels > 0 {
        ((samples * 1000) / ((sample_rate * channels) as nat)) as nat
    } else {
        0
    }
}

/// A complete captured utterance.
#[derive(Debug, Clone, PartialEq)]
pub struct AudioData {
    /// Interleaved 16-bit PCM samples.
    pub samples: Vec<i16>,
    /// Samples per second per channel.
    pub sample_rate: u32,
    /// Number of interleaved channels.
    pub channels: u16,
    /// Duration in milliseconds, derived from the three fields above.
    pub duration_ms: u64,
}

impl AudioData {
    /// Bundles captured samples with their format, deriving the duration.
    pub fn new(samples: Vec<i16>, sample_rate: u32, channels: u16) -> (r: Self)
        requires
            samples@.len() * 1000 <= u64::MAX,
        ensures
            r.samples == samples,
            r.sample_rate == sample_rate,
            r.channels == channels,
            r.duration_ms == spec_duration_ms(samples@.len(), sample_rate, channels),
    {
        let n = samples.len();
        let duration_ms: u64 = if sample_rate > 0 && channels > 0 {
            proof {
                assert((sample_rate as int) * (channels as int) < 0x1000000000000int
                    && (sample_rate as int) * (channels as int) > 0) by (nonlinear_arith)
                    requires
                        0 < sample_rate as int <= 0xffffffffint,
                        0 < channels as int <= 0xffffint,
                ;
            }
            let denom: u64 = (sample_rate as u64) * (channels as u64);
            (n as u64 * 1000) / denom
        } else {
            0
        };
        Self { samples, sample_rate, channels, duration_ms }
    }

    /// Whether no samples were captured.
    pub fn is_empty(&self) -> (r: bool)
        ensures
            r == (self.samples@.len() == 0),
    {
        self.samples.len() == 0
    }

    /// The number of captured samples.
    pub fn sample_count(&self) -> (r: usize)
        ensures
            r == self.samples@.len(),
    {
        self.samples.len()
    }
}

/// One streamed audio chunk, as sent to a realtime session.
#[derive(Debug, Clone, PartialEq)]
pub struct AudioChunk {
    /// Encoded PCM bytes.
    pub data: Vec<u8>,
    /// Capture timestamp in milliseconds.
    pub timestamp: u64,
    /// Samples per second per channel.
    pub sample_rate: u32,
}

/// Levels are reported in thousandths of the 0..1 range.
pub open spec fn waveform_levels_wf(levels: Seq<u32>) -> bool {
    forall|i: int| 0 <= i < levels.len() ==> levels[i] <= 1000
}

/// A waveform summary for client-side display.
#[derive(Debug, Clone, PartialEq)]
pub struct WaveformData {
    /// Volume levels in thousandths of the 0..1 range.
    pub levels: Vec<u32>,
    /// Capture timestamp in milliseconds.
    pub timestamp: u64,
}

impl WaveformData {
    /// Bundles waveform levels with their timestamp.
    pub fn new(levels: Vec<u32>, timestamp: u64) -> (r: Self)
        ensures
            r.levels == levels,
            r.timestamp == timestamp,
    {
        Self { levels, timestamp }
    }

    /// A silent waveform: nine zero-level bars at timestamp zero.
    pub fn empty() -> (r: Self)
        ensures
            r.levels@.len() == 9,
            forall|i: int| 0 <= i < 9 ==> r.levels@[i] == 0,
            r.timestamp == 0,
            waveform_levels_wf(r.levels@),
    {
        let mut levels: Vec<u32> = Vec::new();
        let mut i: usize = 0;
        while i < 9
            invariant
                i <= 9,
                levels@.len() == i,
                forall|j: int| 0 <= j < i ==> levels@[j] == 0,
            decreases 9 - i,
        {
            levels.push(0);
            i = i + 1;
        }
        Self { levels, timestamp: 0 }
    }
}

} // verus!
