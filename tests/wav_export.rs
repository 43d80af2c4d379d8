use img2audio::buffer::AudioBuffer;
use img2audio::export::{export_wav, quantize, quantize_all, ExportError, PCM_FULL_SCALE, WAV_HEADER_LEN};
use img2audio::signal::SAMPLE_SCALE;

fn read_back(bytes: &[u8]) -> (hound::WavSpec, Vec<i16>) {
    let reader = hound::WavReader::new(std::io::Cursor::new(bytes.to_vec())).unwrap();
    let spec = reader.spec();
    let samples = reader.into_samples::<i16>().map(|s| s.unwrap()).collect();
    (spec, samples)
}

#[test]
fn export_quantizes_full_scale() {
    // the signal [0.0, 1.0, -1.0]
    let b = AudioBuffer::build(vec![0, SAMPLE_SCALE, -SAMPLE_SCALE], 1, 44100).unwrap();
    let bytes = export_wav(&b).unwrap();
    assert_eq!(bytes.len(), WAV_HEADER_LEN + 6);
    assert_eq!(&bytes[0..4], b"RIFF");
    assert_eq!(&bytes[36..40], b"data");
    let (spec, samples) = read_back(&bytes);
    assert_eq!(spec.channels, 1);
    assert_eq!(spec.sample_rate, 44100);
    assert_eq!(spec.bits_per_sample, 16);
    assert_eq!(spec.sample_format, hound::SampleFormat::Int);
    assert_eq!(samples, vec![0, 32767, -32767]);
}

#[test]
fn out_of_range_samples_are_clamped() {
    assert_eq!(quantize(2 * SAMPLE_SCALE), 32767);
    assert_eq!(quantize(i32::MAX), 32767);
    assert_eq!(quantize(-2000), -32767);
    assert_eq!(quantize(i32::MIN), -32767);
    let b = AudioBuffer::build(vec![1530, -1530], 2, 22050).unwrap();
    let (spec, samples) = read_back(&export_wav(&b).unwrap());
    assert_eq!(spec.channels, 2);
    assert_eq!(spec.sample_rate, 22050);
    assert_eq!(samples, vec![32767, -32767]);
}

#[test]
fn quantize_rounds_to_nearest() {
    // 32767 / 765 = 42.83...
    assert_eq!(quantize(1), 43);
    assert_eq!(quantize(-1), -43);
    // 383 * 32767 / 765 = 16405.04...
    assert_eq!(quantize(383), 16405);
    assert_eq!(quantize(0), 0);
    assert_eq!(quantize_all(&[0, 1, -1, 765]), vec![0, 43, -43, 32767]);
}

#[test]
fn export_round_trip_within_one_step() {
    let signal: Vec<i32> = (-SAMPLE_SCALE..=SAMPLE_SCALE).collect();
    let b = AudioBuffer::build(signal.clone(), 1, 11025).unwrap();
    let (_, samples) = read_back(&export_wav(&b).unwrap());
    assert_eq!(samples.len(), signal.len());
    for (q, n) in samples.iter().zip(signal.iter()) {
        let back = *q as f64 / PCM_FULL_SCALE as f64;
        let orig = *n as f64 / SAMPLE_SCALE as f64;
        assert!((back - orig).abs() <= 1.0 / 32767.0);
    }
}

#[test]
fn stereo_export_needs_whole_frames() {
    let b = AudioBuffer::build(vec![0, 1, 2], 2, 44100).unwrap();
    assert_eq!(export_wav(&b), Err(ExportError::PartialFrame));
}

#[test]
fn export_refuses_unrepresentable_rate() {
    let b = AudioBuffer::build(vec![0, 1], 2, u32::MAX).unwrap();
    assert_eq!(export_wav(&b), Err(ExportError::RateTooHigh));
    let b = AudioBuffer::build(vec![0, 1], 1, 1 << 31).unwrap();
    assert_eq!(export_wav(&b), Err(ExportError::RateTooHigh));
}

#[test]
fn export_header_matches_buffer() {
    let b = AudioBuffer::build(vec![100; 4], 2, 88200).unwrap();
    let bytes = export_wav(&b).unwrap();
    assert_eq!(u16::from_le_bytes([bytes[22], bytes[23]]), 2);
    assert_eq!(u32::from_le_bytes([bytes[24], bytes[25], bytes[26], bytes[27]]), 88200);
    assert_eq!(u16::from_le_bytes([bytes[34], bytes[35]]), 16);
    assert_eq!(u32::from_le_bytes([bytes[40], bytes[41], bytes[42], bytes[43]]), 8);
    // 100 * 32767 / 765 = 4283.26...
    assert_eq!(i16::from_le_bytes([bytes[44], bytes[45]]), 4283);
}
