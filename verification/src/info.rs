//! Descriptions of an audio stream's shape: sample rate and channel count,
//! as queried from the host's audio-output handle.

use vstd::prelude::*;

verus! {

/// An immutable snapshot of an audio stream's shape.
#[derive(Debug, Clone, PartialEq, Eq, Structural)]
pub struct AudioInfo {
    /// Samples per second, in Hz.
    pub sample_rate: usize,
    /// Number of audio channels.
    pub channels: usize,
}

/// The shape of a host audio output, captured as the two plain values the
/// host reports for it: sample rate and channel count.
///
/// The host's handle itself never enters this crate; whoever holds it queries
/// the two values and builds an `AudioRef` from them. As long as the host
/// side does not change, the same `AudioRef` value answers every query the
/// same way.
pub struct AudioRef {
    sample_rate: usize,
    channels: usize,
}

impl AudioRef {
    /// The sample rate this reference was built from.
    pub closed spec fn spec_sample_rate(&self) -> usize {
        self.sample_rate
    }

    /// The channel count this reference was built from.
    pub closed spec fn spec_channels(&self) -> usize {
        self.channels
    }

    /// The snapshot that `info` returns.
    pub open spec fn spec_info(&self) -> AudioInfo {
        AudioInfo { sample_rate: self.spec_sample_rate(), channels: self.spec_channels() }
    }

    /// Wraps the raw values queried from a host audio output.
    pub fn from_raw(sample_rate: usize, channels: usize) -> (r: Self)
        ensures
            r.spec_sample_rate() == sample_rate,
            r.spec_channels() == channels,
    {
        Self { sample_rate, channels }
    }

    /// Returns both shape values as one immutable snapshot. Every call on
    /// the same reference returns the same snapshot.
    pub fn info(&self) -> (r: AudioInfo)
        ensures
            r == self.spec_info(),
    {
        AudioInfo { sample_rate: self.sample_rate(), channels: self.channels() }
    }

    /// Returns the sample rate. Every call on the same reference returns
    /// the same value.
    pub fn sample_rate(&self) -> (r: usize)
        ensures
            r == self.spec_sample_rate(),
    {
        self.sample_rate
    }

    /// Returns the channel count. Every call on the same reference returns
    /// the same value.
    pub fn channels(&self) -> (r: usize)
        ensures
            r == self.spec_channels(),
    {
        self.channels
    }
}

/// Repeated queries of one reference answer alike: any two results of
/// `info` on the same `AudioRef` are equal, and each carries exactly the
/// values that `sample_rate` and `channels` return.
///
/// The premises are what `info` ensures of each of its results.
pub proof fn lemma_queries_idempotent(a: AudioRef, i1: AudioInfo, i2: AudioInfo)
    requires
        i1 == a.spec_info(),
        i2 == a.spec_info(),
    ensures
        i1 == i2,
        i1.sample_rate == a.spec_sample_rate(),
        i1.channels == a.spec_channels(),
{
}

} // verus!
