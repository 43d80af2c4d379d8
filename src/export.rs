//! The PCM exporter: quantizes a buffer to signed 16-bit samples and encodes
//! it as a WAVE file in memory.
use vstd::prelude::*;
use crate::buffer::AudioBuffer;
use crate::signal::SAMPLE_SCALE;

verus! {

#[verifier::external_type_specification]
#[verifier::external_body]
pub struct ExHoundError(hound::Error);

/// Largest magnitude of a 16-bit PCM sample, which full scale maps to.
pub const PCM_FULL_SCALE: i32 = 32767;

/// Bytes before the sample data in a PCM WAVE file with a plain `fmt ` chunk.
pub const WAV_HEADER_LEN: usize = 44;

/// `n` clamped to `[-SAMPLE_SCALE, SAMPLE_SCALE]`, the amplitudes `[-1, 1]`.
pub open spec fn clamped(n: int) -> int {
    if n > SAMPLE_SCALE {
        SAMPLE_SCALE as int
    } else if n < -SAMPLE_SCALE {
        -SAMPLE_SCALE
    } else {
        n
    }
}

/// `round(s * 32767)` of the clamped amplitude `s = clamped(n) / SAMPLE_SCALE`,
/// with halves rounded away from zero.
pub open spec fn quantized(n: int) -> int {
    let c = clamped(n);
    if c >= 0 {
        (2 * c * PCM_FULL_SCALE + SAMPLE_SCALE) / (2 * SAMPLE_SCALE)
    } else {
        -((-2 * c * PCM_FULL_SCALE + SAMPLE_SCALE) / (2 * SAMPLE_SCALE))
    }
}

pub open spec fn quantized_seq(s: Seq<i32>) -> Seq<i16> {
    Seq::new(s.len(), |i: int| quantized(s[i] as int) as i16)
}

/// The little-endian unsigned 16-bit value at `off`.
pub open spec fn le_u16_at(b: Seq<u8>, off: int) -> int {
    b[off] as int + 256 * b[off + 1] as int
}

/// The little-endian unsigned 32-bit value at `off`.
pub open spec fn le_u32_at(b: Seq<u8>, off: int) -> int {
    le_u16_at(b, off) + 65536 * le_u16_at(b, off + 2)
}

/// The little-endian two's-complement 16-bit value at `off`.
pub open spec fn le_i16_at(b: Seq<u8>, off: int) -> int {
    let v = le_u16_at(b, off);
    if v >= 32768 {
        v - 65536
    } else {
        v
    }
}

/// The `i`-th sample of the data chunk of a 16-bit PCM WAVE file.
pub open spec fn pcm_sample_at(b: Seq<u8>, i: int) -> int {
    le_i16_at(b, WAV_HEADER_LEN + 2 * i)
}

/// `b` is a RIFF WAVE file with a 16-byte `fmt ` chunk declaring integer PCM
/// of 16 bits per sample, `channels` channels at `sample_rate` Hz, followed by
/// a `data` chunk holding `samples` in order.
pub open spec fn is_pcm16_wav(b: Seq<u8>, channels: u16, sample_rate: u32, samples: Seq<i16>) -> bool {
    &&& b.len() == WAV_HEADER_LEN + 2 * samples.len()
    &&& b.subrange(0, 4) == seq![0x52u8, 0x49, 0x46, 0x46]
    &&& le_u32_at(b, 4) == 36 + 2 * samples.len()
    &&& b.subrange(8, 16) == seq![0x57u8, 0x41, 0x56, 0x45, 0x66, 0x6d, 0x74, 0x20]
    &&& le_u32_at(b, 16) == 16
    &&& le_u16_at(b, 20) == 1
    &&& le_u16_at(b, 22) == channels
    &&& le_u32_at(b, 24) == sample_rate
    &&& le_u32_at(b, 28) == sample_rate as int * 2 * channels as int
    &&& le_u16_at(b, 32) == 2 * channels as int
    &&& le_u16_at(b, 34) == 16
    &&& b.subrange(36, 40) == seq![0x64u8, 0x61, 0x74, 0x61]
    &&& le_u32_at(b, 40) == 2 * samples.len()
    &&& forall|i: int| 0 <= i < samples.len() ==> #[trigger] pcm_sample_at(b, i) == samples[i]
}

/// Relies on hound's `WavWriter` (`new`, then `write_sample` for each sample
/// in order, then `finalize`) writing into an in-memory cursor: for one or two
/// channels and 16-bit integer samples it writes the 44-byte PCMWAVEFORMAT
/// header and then each sample as two little-endian bytes, and patches the
/// RIFF and data chunk sizes on finalize.
/// The limits keep its `u32` size arithmetic and its division by the sample
/// rate and channel count from panicking. With 16-bit integer samples and
/// whole frames its only remaining failures are I/O errors, which writing to
/// a growable in-memory cursor does not raise.
#[verifier::external_body]
fn encode_pcm16_wav(channels: u16, sample_rate: u32, samples: &Vec<i16>) -> (r: Result<
    Vec<u8>,
    hound::Error,
>)
    requires
        channels == 1 || channels == 2,
        sample_rate > 0,
        sample_rate as int * 2 * channels as int <= u32::MAX,
        36 + 2 * samples@.len() <= u32::MAX,
        samples@.len() % (channels as nat) == 0,
    ensures
        r is Ok,
        r matches Ok(b) ==> is_pcm16_wav(b@, channels, sample_rate, samples@),
{
    let spec = hound::WavSpec {
        channels,
        sample_rate,
        bits_per_sample: 16,
        sample_format: hound::SampleFormat::Int,
    };
    let mut cursor = std::io::Cursor::new(Vec::new());
    let mut writer = hound::WavWriter::new(&mut cursor, spec)?;
    for s in samples.iter() {
        writer.write_sample(*s)?;
    }
    writer.finalize()?;
    Ok(cursor.into_inner())
}

/// Why a buffer could not be exported.
#[derive(Clone, Copy, Debug, PartialEq, Eq, Structural)]
pub enum ExportError {
    /// The sample count is not a whole number of frames.
    PartialFrame,
    /// The data would not fit the 32-bit chunk sizes of the format.
    TooLong,
    /// `sample_rate * 2 * channels` bytes per second would not fit 32 bits.
    RateTooHigh,
    /// The encoder reported a failure; the shape checks made before encoding
    /// rule this out.
    Encoder,
}

/// The error that exporting a buffer of this shape gives before any
/// encoding; the checks are made in this order.
pub open spec fn export_error(len: nat, channels: u16, sample_rate: u32) -> Option<ExportError> {
    if len % (channels as nat) != 0 {
        Some(ExportError::PartialFrame)
    } else if 36 + 2 * len > u32::MAX {
        Some(ExportError::TooLong)
    } else if sample_rate as int * 2 * channels as int > u32::MAX {
        Some(ExportError::RateTooHigh)
    } else {
        None
    }
}

/// The 16-bit PCM sample of one signal sample: clamped to `[-1, 1]`, then
/// scaled by 32767 and rounded.
pub fn quantize(n: i32) -> (r: i16)
    ensures
        r == quantized(n as int),
{
    let c: i64 = if n > SAMPLE_SCALE {
        SAMPLE_SCALE as i64
    } else if n < -SAMPLE_SCALE {
        -(SAMPLE_SCALE as i64)
    } else {
        n as i64
    };
    assert(-765 <= c <= 765 && c == clamped(n as int));
    // round half away from zero of c * 32767 / 765, on the magnitude
    if c >= 0 {
        let q: i64 = (2 * c * 32767 + 765) / 1530;
        assert(0 <= q <= 32767);
        q as i16
    } else {
        let q: i64 = (-2 * c * 32767 + 765) / 1530;
        assert(0 <= q <= 32767);
        -(q as i16)
    }
}

/// Quantizes every sample, keeping order.
pub fn quantize_all(samples: &[i32]) -> (r: Vec<i16>)
    ensures
        r@ == quantized_seq(samples@),
{
    let mut out: Vec<i16> = Vec::with_capacity(samples.len());
    let mut i: usize = 0;
    while i < samples.len()
        invariant
            i <= samples@.len(),
            out@ == quantized_seq(samples@).take(i as int),
        decreases samples@.len() - i,
    {
        let q = quantize(samples[i]);
        out.push(q);
        i += 1;
        assert(out@ =~= quantized_seq(samples@).take(i as int));
    }
    assert(out@ =~= quantized_seq(samples@));
    out
}

/// Encodes the buffer as a 16-bit PCM WAVE file whose header declares the
/// buffer's own channel count and sample rate. All or nothing: either the
/// complete file is returned, or an error and no bytes; the file is returned
/// whenever the buffer's shape fits the format.
pub fn export_wav(buffer: &AudioBuffer) -> (r: Result<Vec<u8>, ExportError>)
    requires
        buffer.wf(),
    ensures
        match export_error(
            buffer.spec_samples().len(),
            buffer.spec_channels(),
            buffer.spec_sample_rate(),
        ) {
            Some(e) => r == Err::<Vec<u8>, ExportError>(e),
            None => r matches Ok(b) && is_pcm16_wav(
                b@,
                buffer.spec_channels(),
                buffer.spec_sample_rate(),
                quantized_seq(buffer.spec_samples()),
            ),
        },
{
    let samples = buffer.samples();
    let channels = buffer.channels();
    let rate = buffer.sample_rate();
    if samples.len() % channels as usize != 0 {
        return Err(ExportError::PartialFrame);
    }
    if samples.len() > (u32::MAX as usize - 36) / 2 {
        return Err(ExportError::TooLong);
    }
    if rate as u64 * 2 * channels as u64 > u32::MAX as u64 {
        return Err(ExportError::RateTooHigh);
    }
    let pcm = quantize_all(samples);
    match encode_pcm16_wav(channels, rate, &pcm) {
        Ok(bytes) => Ok(bytes),
        Err(_) => Err(ExportError::Encoder),
    }
}

/// Quantizing an amplitude in `[-1, 1]` and rescaling by `1 / 32767` misses
/// it by at most half a step: `|q / 32767 - n / SAMPLE_SCALE| <= 1 / (2 * 32767)`.
pub proof fn lemma_quantize_error(n: int)
    requires
        -SAMPLE_SCALE <= n <= SAMPLE_SCALE,
    ensures
        -SAMPLE_SCALE <= 2 * (quantized(n) * SAMPLE_SCALE - n * PCM_FULL_SCALE) <= SAMPLE_SCALE,
{
}

/// Exporting a buffer and reading its PCM samples back, rescaled to `[-1, 1]`,
/// reproduces every sample of `[-1, 1]` within `1 / 32767`:
/// `|pcm_i / 32767 - s_i / SAMPLE_SCALE| <= 1 / 32767`.
pub proof fn lemma_export_round_trip(buffer: AudioBuffer, bytes: Seq<u8>)
    requires
        buffer.wf(),
        forall|i: int|
            0 <= i < buffer.spec_samples().len() ==> -SAMPLE_SCALE <= #[trigger] buffer.spec_samples()[i]
                <= SAMPLE_SCALE,
        is_pcm16_wav(
            bytes,
            buffer.spec_channels(),
            buffer.spec_sample_rate(),
            quantized_seq(buffer.spec_samples()),
        ),
    ensures
        forall|i: int|
            0 <= i < buffer.spec_samples().len() ==> -SAMPLE_SCALE <= #[trigger] pcm_sample_at(bytes, i)
                * SAMPLE_SCALE - buffer.spec_samples()[i] * PCM_FULL_SCALE <= SAMPLE_SCALE,
{
    let s = buffer.spec_samples();
    assert forall|i: int| 0 <= i < s.len() implies -SAMPLE_SCALE <= #[trigger] pcm_sample_at(bytes, i)
        * SAMPLE_SCALE - s[i] * PCM_FULL_SCALE <= SAMPLE_SCALE by {
        lemma_quantize_error(s[i] as int);
        assert(pcm_sample_at(bytes, i) == quantized_seq(s)[i]);
    }
}

} // verus!
