use voicepipe::sample::SAMPLE_UNIT;
use voicepipe::wav::{downmix, fp_from_f32_bits, normalize_wav, parse_wav_header, DecodeError};

fn wav_bytes(tag: u16, channels: u16, rate: u32, bits: u16, data: &[u8]) -> Vec<u8> {
    let mut v = Vec::new();
    v.extend_from_slice(b"RIFF");
    let riff_size = 4 + 8 + 16 + 8 + data.len() as u32;
    v.extend_from_slice(&riff_size.to_le_bytes());
    v.extend_from_slice(b"WAVE");
    v.extend_from_slice(b"fmt ");
    v.extend_from_slice(&16u32.to_le_bytes());
    v.extend_from_slice(&tag.to_le_bytes());
    v.extend_from_slice(&channels.to_le_bytes());
    v.extend_from_slice(&rate.to_le_bytes());
    let block_align = channels * (bits / 8);
    let byte_rate = rate * block_align as u32;
    v.extend_from_slice(&byte_rate.to_le_bytes());
    v.extend_from_slice(&block_align.to_le_bytes());
    v.extend_from_slice(&bits.to_le_bytes());
    v.extend_from_slice(b"data");
    v.extend_from_slice(&(data.len() as u32).to_le_bytes());
    v.extend_from_slice(data);
    v
}

#[test]
fn downmix_averages_stereo_pairs() {
    // stereo (1.0, -1.0), (0.5, 0.5) becomes mono 0.0, 0.5
    let samples = vec![SAMPLE_UNIT, -SAMPLE_UNIT, SAMPLE_UNIT / 2, SAMPLE_UNIT / 2];
    let mono = downmix(&samples, 2);
    assert_eq!(mono, vec![0, SAMPLE_UNIT / 2]);
}

#[test]
fn downmix_passes_mono_through() {
    let samples = vec![5i64, -9, 0];
    assert_eq!(downmix(&samples, 1), samples);
}

#[test]
fn downmix_keeps_first_channel_beyond_stereo() {
    let samples = vec![1i64, 2, 3, 4, 5, 6];
    assert_eq!(downmix(&samples, 3), vec![1, 4]);
}

#[test]
fn normalize_stereo_float_downmixes() {
    // stereo float at the target rate: (1.0, -1.0), (0.5, 0.5)
    let mut data = Vec::new();
    for s in [1.0f32, -1.0, 0.5, 0.5] {
        data.extend_from_slice(&s.to_le_bytes());
    }
    let bytes = wav_bytes(3, 2, 16000, 32, &data);
    let buf = normalize_wav(&bytes).unwrap();
    assert_eq!(buf.sample_rate, 16000);
    assert_eq!(buf.samples, vec![0, SAMPLE_UNIT / 2]);
}

#[test]
fn normalize_reads_sixteen_bit_pcm() {
    let mut data = Vec::new();
    for s in [16384i16, -16384, 0] {
        data.extend_from_slice(&s.to_le_bytes());
    }
    let bytes = wav_bytes(1, 1, 16000, 16, &data);
    let buf = normalize_wav(&bytes).unwrap();
    assert_eq!(buf.samples, vec![SAMPLE_UNIT / 2, -SAMPLE_UNIT / 2, 0]);
}

#[test]
fn normalize_reads_eight_bit_pcm() {
    // 8-bit samples are unsigned around 128: 255 is just under full
    // scale, 0 is negative full scale, 128 is silence
    let bytes = wav_bytes(1, 1, 16000, 8, &[255u8, 0, 128]);
    let buf = normalize_wav(&bytes).unwrap();
    assert_eq!(buf.samples, vec![127 * (1 << 24), -SAMPLE_UNIT, 0]);
}

#[test]
fn normalize_resamples_to_sixteen_khz() {
    // constant 8 kHz input doubles in length and stays constant
    let mut data = Vec::new();
    for _ in 0..4 {
        data.extend_from_slice(&16384i16.to_le_bytes());
    }
    let bytes = wav_bytes(1, 1, 8000, 16, &data);
    let buf = normalize_wav(&bytes).unwrap();
    assert_eq!(buf.sample_rate, 16000);
    assert_eq!(buf.samples.len(), 8);
    for s in buf.samples {
        assert_eq!(s, SAMPLE_UNIT / 2);
    }
}

#[test]
fn normalize_rejects_short_input() {
    assert_eq!(normalize_wav(&b"RIFF".to_vec()).err(), Some(DecodeError::TooShort));
}

#[test]
fn normalize_rejects_wrong_magic() {
    let mut bytes = wav_bytes(1, 1, 16000, 16, &[]);
    bytes[0] = b'X';
    assert_eq!(normalize_wav(&bytes).err(), Some(DecodeError::NotRiff));
    let mut bytes2 = wav_bytes(1, 1, 16000, 16, &[]);
    bytes2[8] = b'X';
    assert_eq!(normalize_wav(&bytes2).err(), Some(DecodeError::NotWave));
}

#[test]
fn normalize_rejects_unknown_format_tag() {
    let bytes = wav_bytes(2, 1, 16000, 16, &[0, 0]);
    assert_eq!(
        normalize_wav(&bytes).err(),
        Some(DecodeError::UnsupportedFormat { tag: 2 })
    );
}

#[test]
fn normalize_rejects_unknown_bit_depth() {
    let bytes = wav_bytes(1, 1, 16000, 12, &[0, 0]);
    assert_eq!(
        normalize_wav(&bytes).err(),
        Some(DecodeError::UnsupportedBits { bits: 12 })
    );
    // floats must be 32-bit
    let bytes2 = wav_bytes(3, 1, 16000, 16, &[0, 0]);
    assert_eq!(
        normalize_wav(&bytes2).err(),
        Some(DecodeError::UnsupportedBits { bits: 16 })
    );
}

#[test]
fn normalize_rejects_zero_channels_and_rate() {
    let bytes = wav_bytes(1, 0, 16000, 16, &[]);
    assert_eq!(normalize_wav(&bytes).err(), Some(DecodeError::NoChannels));
    let bytes2 = wav_bytes(1, 1, 0, 16, &[]);
    assert_eq!(normalize_wav(&bytes2).err(), Some(DecodeError::ZeroRate));
}

#[test]
fn normalize_rejects_truncated_chunk() {
    let mut bytes = wav_bytes(1, 1, 16000, 16, &[0, 0]);
    let n = bytes.len();
    bytes.truncate(n - 1);
    assert_eq!(normalize_wav(&bytes).err(), Some(DecodeError::TruncatedChunk));
}

#[test]
fn normalize_requires_fmt_before_data() {
    let mut v = Vec::new();
    v.extend_from_slice(b"RIFF");
    v.extend_from_slice(&20u32.to_le_bytes());
    v.extend_from_slice(b"WAVE");
    v.extend_from_slice(b"data");
    v.extend_from_slice(&2u32.to_le_bytes());
    v.extend_from_slice(&[0, 0]);
    assert_eq!(normalize_wav(&v).err(), Some(DecodeError::MissingFmt));
}

#[test]
fn normalize_reports_missing_data_chunk() {
    let mut v = Vec::new();
    v.extend_from_slice(b"RIFF");
    v.extend_from_slice(&28u32.to_le_bytes());
    v.extend_from_slice(b"WAVE");
    v.extend_from_slice(b"fmt ");
    v.extend_from_slice(&16u32.to_le_bytes());
    v.extend_from_slice(&1u16.to_le_bytes());
    v.extend_from_slice(&1u16.to_le_bytes());
    v.extend_from_slice(&16000u32.to_le_bytes());
    v.extend_from_slice(&32000u32.to_le_bytes());
    v.extend_from_slice(&2u16.to_le_bytes());
    v.extend_from_slice(&16u16.to_le_bytes());
    assert_eq!(normalize_wav(&v).err(), Some(DecodeError::MissingData));
}

#[test]
fn parse_header_skips_unknown_chunks() {
    let mut v = Vec::new();
    v.extend_from_slice(b"RIFF");
    v.extend_from_slice(&0u32.to_le_bytes());
    v.extend_from_slice(b"WAVE");
    // an unknown chunk with an odd size, so a pad byte follows
    v.extend_from_slice(b"LIST");
    v.extend_from_slice(&3u32.to_le_bytes());
    v.extend_from_slice(&[1, 2, 3, 0]);
    v.extend_from_slice(b"fmt ");
    v.extend_from_slice(&16u32.to_le_bytes());
    v.extend_from_slice(&1u16.to_le_bytes());
    v.extend_from_slice(&1u16.to_le_bytes());
    v.extend_from_slice(&44100u32.to_le_bytes());
    v.extend_from_slice(&88200u32.to_le_bytes());
    v.extend_from_slice(&2u16.to_le_bytes());
    v.extend_from_slice(&16u16.to_le_bytes());
    v.extend_from_slice(b"data");
    v.extend_from_slice(&2u32.to_le_bytes());
    v.extend_from_slice(&[0x34, 0x12]);
    let (fmt, off, size) = parse_wav_header(&v).unwrap();
    assert_eq!(fmt.channels, 1);
    assert_eq!(fmt.sample_rate, 44100);
    assert_eq!(fmt.bits_per_sample, 16);
    assert!(!fmt.is_float);
    assert_eq!(size, 2);
    assert_eq!(&v[off..off + size], &[0x34, 0x12]);
}

#[test]
fn float_bit_patterns_decode_exactly() {
    assert_eq!(fp_from_f32_bits(1.0f32.to_bits()), SAMPLE_UNIT);
    assert_eq!(fp_from_f32_bits((-1.0f32).to_bits()), -SAMPLE_UNIT);
    assert_eq!(fp_from_f32_bits(0.5f32.to_bits()), SAMPLE_UNIT / 2);
    assert_eq!(fp_from_f32_bits((-0.25f32).to_bits()), -SAMPLE_UNIT / 4);
    assert_eq!(fp_from_f32_bits(0.0f32.to_bits()), 0);
    assert_eq!(fp_from_f32_bits((-0.0f32).to_bits()), 0);
    // values past full scale clamp
    assert_eq!(fp_from_f32_bits(2.5f32.to_bits()), SAMPLE_UNIT);
    assert_eq!(fp_from_f32_bits((-7.0f32).to_bits()), -SAMPLE_UNIT);
    assert_eq!(fp_from_f32_bits(f32::INFINITY.to_bits()), SAMPLE_UNIT);
    // magnitudes below one fixed-point step vanish
    assert_eq!(fp_from_f32_bits(1.0e-12f32.to_bits()), 0);
}

#[test]
fn float_decode_agrees_with_float_arithmetic() {
    for s in [0.125f32, 0.75, -0.375, 0.999, -0.001, 0.3] {
        let got = fp_from_f32_bits(s.to_bits());
        let want = (s as f64 * SAMPLE_UNIT as f64) as i64;
        // the decoder truncates toward zero, as the cast does
        assert_eq!(got, want, "decoding {}", s);
    }
}
