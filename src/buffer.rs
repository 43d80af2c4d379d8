//! The audio buffer builder: a signal packaged with its sample rate and
//! channel count.
use vstd::prelude::*;

verus! {

/// An exact non-negative ratio `num / den`.
#[derive(Clone, Copy, Debug, PartialEq, Eq, Structural)]
pub struct Ratio {
    pub num: u128,
    pub den: u128,
}

/// Why a signal could not be made into a playable buffer.
#[derive(Clone, Copy, Debug, PartialEq, Eq, Structural)]
pub enum BuildError {
    /// The signal holds no sample.
    EmptySignal,
    /// The sample rate is zero.
    ZeroSampleRate,
    /// The channel count is neither 1 nor 2.
    UnsupportedChannels,
}

/// An immutable, replayable buffer of interleaved samples.
pub struct AudioBuffer {
    channels: u16,
    sample_rate: u32,
    samples: Vec<i32>,
}

/// The error, if any, that building from these arguments gives; the checks
/// are made in this order.
pub open spec fn build_error(len: nat, channels: u16, sample_rate: u32) -> Option<BuildError> {
    if len == 0 {
        Some(BuildError::EmptySignal)
    } else if sample_rate == 0 {
        Some(BuildError::ZeroSampleRate)
    } else if channels != 1 && channels != 2 {
        Some(BuildError::UnsupportedChannels)
    } else {
        None
    }
}

impl AudioBuffer {
    pub closed spec fn spec_channels(&self) -> u16 {
        self.channels
    }

    pub closed spec fn spec_sample_rate(&self) -> u32 {
        self.sample_rate
    }

    pub closed spec fn spec_samples(&self) -> Seq<i32> {
        self.samples@
    }

    /// Samples consumed per second of playback: `sample_rate * channels`.
    pub open spec fn spec_samples_per_sec(&self) -> nat {
        (self.spec_sample_rate() as int * self.spec_channels() as int) as nat
    }

    pub open spec fn wf(&self) -> bool {
        &&& 0 < self.spec_samples().len() <= usize::MAX
        &&& self.spec_sample_rate() > 0
        &&& (self.spec_channels() == 1 || self.spec_channels() == 2)
    }

    /// The play time in seconds, `len / (sample_rate * channels)`.
    pub open spec fn spec_total_duration(&self) -> Ratio {
        Ratio {
            num: self.spec_samples().len() as u128,
            den: self.spec_samples_per_sec() as u128,
        }
    }

    /// Takes ownership of `signal`; fails on an empty signal, a zero sample
    /// rate, or a channel count other than 1 or 2.
    pub fn build(signal: Vec<i32>, channels: u16, sample_rate: u32) -> (r: Result<
        AudioBuffer,
        BuildError,
    >)
        ensures
            match build_error(signal@.len(), channels, sample_rate) {
                Some(e) => r == Err::<AudioBuffer, BuildError>(e),
                None => r matches Ok(b) && b.wf() && b.spec_samples() == signal@
                    && b.spec_channels() == channels && b.spec_sample_rate() == sample_rate,
            },
    {
        if signal.len() == 0 {
            Err(BuildError::EmptySignal)
        } else if sample_rate == 0 {
            Err(BuildError::ZeroSampleRate)
        } else if channels != 1 && channels != 2 {
            Err(BuildError::UnsupportedChannels)
        } else {
            Ok(AudioBuffer { channels, sample_rate, samples: signal })
        }
    }

    pub fn channels(&self) -> (r: u16)
        ensures
            r == self.spec_channels(),
    {
        self.channels
    }

    pub fn sample_rate(&self) -> (r: u32)
        ensures
            r == self.spec_sample_rate(),
    {
        self.sample_rate
    }

    pub fn samples(&self) -> (r: &[i32])
        ensures
            r@ == self.spec_samples(),
    {
        self.samples.as_slice()
    }

    /// Samples consumed per second, `sample_rate * channels`.
    pub fn samples_per_sec(&self) -> (r: u64)
        ensures
            r == self.spec_samples_per_sec(),
    {
        assert(self.sample_rate as u64 * self.channels as u64 <= u32::MAX as u64 * u16::MAX as u64)
            by (nonlinear_arith);
        self.sample_rate as u64 * self.channels as u64
    }

    /// The exact play time in seconds, `len / (sample_rate * channels)`.
    pub fn total_duration(&self) -> (r: Ratio)
        requires
            self.wf(),
        ensures
            r == self.spec_total_duration(),
            r.den > 0,
    {
        Ratio { num: self.samples.len() as u128, den: self.samples_per_sec() as u128 }
    }

    /// Pixels per second at which a playhead crosses `width` pixels in exactly
    /// the buffer's play time: `width / total_duration`.
    pub fn px_per_sec(&self, width: u32) -> (r: Ratio)
        requires
            self.wf(),
        ensures
            r.num == width as int * self.spec_samples_per_sec(),
            r.den == self.spec_samples().len(),
            r.den > 0,
    {
        let sps = self.samples_per_sec();
        assert(width as u128 * sps as u128 <= u32::MAX as u128 * u64::MAX as u128)
            by (nonlinear_arith);
        Ratio { num: width as u128 * sps as u128, den: self.samples.len() as u128 }
    }
}

/// The duration of a built buffer is exactly its length divided by
/// `sample_rate * channels`, for any non-zero rate and channel count.
pub proof fn lemma_duration_exact(signal: Seq<i32>, channels: u16, sample_rate: u32, b: AudioBuffer)
    requires
        build_error(signal.len(), channels, sample_rate) is None,
        b.wf(),
        b.spec_samples() == signal,
        b.spec_channels() == channels,
        b.spec_sample_rate() == sample_rate,
    ensures
        b.spec_total_duration().den > 0,
        b.spec_total_duration().num * (sample_rate as int * channels as int) == signal.len()
            * b.spec_total_duration().den,
{
    assert(sample_rate as int * channels as int <= u32::MAX as int * u16::MAX as int)
        by (nonlinear_arith);
}

} // verus!
