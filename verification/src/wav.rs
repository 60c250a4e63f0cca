use vstd::prelude::*;
use vstd::arithmetic::div_mod::{
    lemma_div_nonincreasing, lemma_fundamental_div_mod, lemma_hoist_over_denominator,
    lemma_mod_bound,
};
use vstd::arithmetic::mul::{
    lemma_mul_inequality, lemma_mul_is_commutative, lemma_mul_is_distributive_add_other_way,
    lemma_mul_upper_bound,
};
use vstd::arithmetic::power2::{lemma2_to64, lemma_pow2_pos, lemma_pow2_strictly_increases, pow2};
use vstd::bits::{lemma_u64_pow2_no_overflow, lemma_u64_shl_is_mul};
use crate::resample::{
    lemma_resampled_len_is_ceil, resample_linear, resampled_len, resampled_seq,
};
use crate::sample::{sample_in_range, samples_in_range, AudioBuffer, SAMPLE_UNIT};

verus! {

/// The fixed rate the transcription engine expects.
pub const TARGET_SAMPLE_RATE: u32 = 16000;

/// The format a WAV file's `fmt ` chunk declares: channel count, sample
/// rate, bit depth, and whether samples are IEEE floating point rather than
/// integer PCM.
#[derive(Clone, Copy, PartialEq, Eq, Structural, Debug)]
pub struct WavFmt {
    pub channels: u16,
    pub sample_rate: u32,
    pub bits_per_sample: u16,
    pub is_float: bool,
}

/// Why a byte sequence was rejected as WAV audio.
#[derive(Clone, Copy, PartialEq, Eq, Structural, Debug)]
pub enum DecodeError {
    /// Shorter than a RIFF header.
    TooShort,
    /// The leading tag is not `RIFF`.
    NotRiff,
    /// The RIFF form is not `WAVE`.
    NotWave,
    /// A chunk declares more bytes than the file holds.
    TruncatedChunk,
    /// The chunks ended, or a `data` chunk came, before any `fmt ` chunk.
    MissingFmt,
    /// The chunks ended without a `data` chunk.
    MissingData,
    /// The `fmt ` chunk is too small to hold a format description.
    ShortFmt,
    /// The format tag is neither integer PCM nor IEEE float.
    UnsupportedFormat { tag: u16 },
    /// The bit depth does not fit the declared format.
    UnsupportedBits { bits: u16 },
    /// The format declares zero channels.
    NoChannels,
    /// The format declares a zero sample rate.
    ZeroRate,
}

/// The 16-bit little-endian value at offset `i`.
pub open spec fn le16(s: Seq<u8>, i: int) -> int
    recommends
        0 <= i,
        i + 2 <= s.len(),
{
    s[i] + 0x100 * s[i + 1]
}

/// The 32-bit little-endian value at offset `i`.
pub open spec fn le32(s: Seq<u8>, i: int) -> int
    recommends
        0 <= i,
        i + 4 <= s.len(),
{
    s[i] + 0x100 * s[i + 1] + 0x1_0000 * s[i + 2] + 0x100_0000 * s[i + 3]
}

/// Whether the chunk at `pos` is a `fmt ` chunk.
pub open spec fn is_fmt_id(s: Seq<u8>, pos: int) -> bool {
    s[pos] == 0x66u8 && s[pos + 1] == 0x6du8 && s[pos + 2] == 0x74u8 && s[pos + 3] == 0x20u8
}

/// Whether the chunk at `pos` is a `data` chunk.
pub open spec fn is_data_id(s: Seq<u8>, pos: int) -> bool {
    s[pos] == 0x64u8 && s[pos + 1] == 0x61u8 && s[pos + 2] == 0x74u8 && s[pos + 3] == 0x61u8
}

/// A well-formed format: at least one channel, a real rate, and a bit
/// depth the decoder knows (8, 16, 24 or 32-bit integers, or 32-bit
/// floats).
pub open spec fn fmt_wf(f: WavFmt) -> bool {
    &&& f.channels >= 1
    &&& f.sample_rate >= 1
    &&& if f.is_float {
        f.bits_per_sample == 32
    } else {
        f.bits_per_sample == 8 || f.bits_per_sample == 16 || f.bits_per_sample == 24
            || f.bits_per_sample == 32
    }
}

/// Reads the format description out of a `fmt ` chunk body.
pub open spec fn parse_fmt(s: Seq<u8>, body: int, size: int) -> Result<WavFmt, DecodeError> {
    if size < 16 {
        Err(DecodeError::ShortFmt)
    } else {
        let tag = le16(s, body);
        let channels = le16(s, body + 2);
        let rate = le32(s, body + 4);
        let bits = le16(s, body + 14);
        if tag != 1 && tag != 3 {
            Err(DecodeError::UnsupportedFormat { tag: tag as u16 })
        } else if channels == 0 {
            Err(DecodeError::NoChannels)
        } else if rate == 0 {
            Err(DecodeError::ZeroRate)
        } else if tag == 3 && bits != 32 {
            Err(DecodeError::UnsupportedBits { bits: bits as u16 })
        } else if tag == 1 && !(bits == 8 || bits == 16 || bits == 24 || bits == 32) {
            Err(DecodeError::UnsupportedBits { bits: bits as u16 })
        } else {
            Ok(
                WavFmt {
                    channels: channels as u16,
                    sample_rate: rate as u32,
                    bits_per_sample: bits as u16,
                    is_float: tag == 3,
                },
            )
        }
    }
}

/// Walks the RIFF chunks from `pos`, remembering the format once a `fmt `
/// chunk appears, and yields the format together with the offset and size
/// of the `data` chunk body.  The format must come before the data.  An odd
/// chunk size is followed by one pad byte.
pub open spec fn scan_chunks(s: Seq<u8>, pos: int, fmt: Option<WavFmt>) -> Result<
    (WavFmt, int, int),
    DecodeError,
>
    recommends
        0 <= pos <= s.len(),
    decreases s.len() - pos,
{
    if pos + 8 > s.len() {
        if fmt is Some {
            Err(DecodeError::MissingData)
        } else {
            Err(DecodeError::MissingFmt)
        }
    } else {
        let size = le32(s, pos + 4);
        let body = pos + 8;
        if body + size > s.len() {
            Err(DecodeError::TruncatedChunk)
        } else if is_fmt_id(s, pos) {
            match parse_fmt(s, body, size) {
                Err(e) => Err(e),
                Ok(f) => {
                    let next = body + size + if size % 2 == 1 {
                        1int
                    } else {
                        0int
                    };
                    if next > s.len() {
                        Err(DecodeError::MissingData)
                    } else {
                        scan_chunks(s, next, Some(f))
                    }
                },
            }
        } else if is_data_id(s, pos) {
            match fmt {
                Some(f) => Ok((f, body, size)),
                None => Err(DecodeError::MissingFmt),
            }
        } else {
            let next = body + size + if size % 2 == 1 {
                1int
            } else {
                0int
            };
            if next > s.len() {
                if fmt is Some {
                    Err(DecodeError::MissingData)
                } else {
                    Err(DecodeError::MissingFmt)
                }
            } else {
                scan_chunks(s, next, fmt)
            }
        }
    }
}

/// What decoding the container of a WAV byte sequence yields: the declared
/// format and the location of the raw sample data.
pub open spec fn parse_wav(s: Seq<u8>) -> Result<(WavFmt, int, int), DecodeError> {
    if s.len() < 12 {
        Err(DecodeError::TooShort)
    } else if !(s[0] == 0x52u8 && s[1] == 0x49u8 && s[2] == 0x46u8 && s[3] == 0x46u8) {
        Err(DecodeError::NotRiff)
    } else if !(s[8] == 0x57u8 && s[9] == 0x41u8 && s[10] == 0x56u8 && s[11] == 0x45u8) {
        Err(DecodeError::NotWave)
    } else {
        scan_chunks(s, 12, None)
    }
}

/// Bytes each stored sample occupies.
pub open spec fn bytes_per_sample(f: WavFmt) -> int {
    f.bits_per_sample as int / 8
}

/// The fixed-point amplitude a 32-bit IEEE float bit pattern stands for,
/// at scale `SAMPLE_UNIT`, truncated toward zero.  Values of magnitude one
/// or more — including infinities and NaN — clamp to full scale, and
/// magnitudes too small to reach one fixed-point step become zero.
pub open spec fn fp_of_f32_bits(b: int) -> int
    recommends
        0 <= b < 0x1_0000_0000,
{
    let mag_bits = b % 0x8000_0000;
    let e = mag_bits / 0x80_0000;
    let m = mag_bits % 0x80_0000;
    let mag = if e >= 127 {
        SAMPLE_UNIT as int
    } else if e == 0 {
        0int
    } else if e >= 119 {
        (0x80_0000 + m) * pow2((e - 119) as nat)
    } else if e >= 96 {
        (0x80_0000 + m) / pow2((119 - e) as nat) as int
    } else {
        0int
    };
    if b >= 0x8000_0000 {
        -mag
    } else {
        mag
    }
}

/// The fixed-point amplitude of stored sample `k`'s bytes at offset `off`:
/// integer samples are sign-extended (8-bit samples are unsigned with a
/// midpoint of 128) and brought to full scale `SAMPLE_UNIT`; float samples
/// are decoded from their bit pattern.
pub open spec fn sample_fp(s: Seq<u8>, off: int, f: WavFmt) -> int
    recommends
        0 <= off,
        off + bytes_per_sample(f) <= s.len(),
        fmt_wf(f),
{
    if f.is_float {
        fp_of_f32_bits(le32(s, off))
    } else if f.bits_per_sample == 8 {
        (s[off] - 128) * 0x100_0000
    } else if f.bits_per_sample == 16 {
        let v = le16(s, off);
        (if v >= 0x8000 {
            v - 0x1_0000
        } else {
            v
        }) * 0x1_0000
    } else if f.bits_per_sample == 24 {
        let v = s[off] + 0x100 * s[off + 1] + 0x1_0000 * s[off + 2];
        (if v >= 0x80_0000 {
            v - 0x100_0000
        } else {
            v
        }) * 0x100
    } else {
        let v = le32(s, off);
        if v >= 0x8000_0000 {
            v - 0x1_0000_0000
        } else {
            v
        }
    }
}

/// One mono sample out of an interleaved buffer: two channels average (the
/// mean rounded toward negative infinity at the fixed-point scale), any
/// other channel count passes channel zero through.
pub open spec fn mono_at(s: Seq<i64>, ch: int, k: int) -> int
    recommends
        ch >= 1,
        0 <= k < s.len() as int / ch,
{
    if ch == 2 {
        (s[2 * k] + s[2 * k + 1]) / 2
    } else {
        s[k * ch] as int
    }
}

/// The mono fixed-point sample sequence a parsed WAV file's data chunk
/// holds, before any rate conversion: samples decoded to full scale, then
/// downmixed to one channel.
pub open spec fn mono_of_wav(s: Seq<u8>, f: WavFmt, off: int, size: int) -> Seq<i64>
    recommends
        fmt_wf(f),
        0 <= off,
        off + size <= s.len(),
{
    let bps = bytes_per_sample(f);
    let decoded = Seq::new((size / bps) as nat, |k: int| sample_fp(s, off + k * bps, f) as i64);
    Seq::new(
        (decoded.len() as int / f.channels as int) as nat,
        |k: int| mono_at(decoded, f.channels as int, k) as i64,
    )
}

/// Reads the 16-bit little-endian value at `off`.
pub fn read_le16(bytes: &Vec<u8>, off: usize) -> (r: u16)
    requires
        off + 2 <= bytes@.len(),
    ensures
        r as int == le16(bytes@, off as int),
{
    proof {
        assert(bytes.len() == bytes@.len());
    }
    (bytes[off] as u16) + 0x100 * (bytes[off + 1] as u16)
}

/// Reads the 32-bit little-endian value at `off`.
pub fn read_le32(bytes: &Vec<u8>, off: usize) -> (r: u32)
    requires
        off + 4 <= bytes@.len(),
    ensures
        r as int == le32(bytes@, off as int),
{
    proof {
        assert(bytes.len() == bytes@.len());
    }
    (bytes[off] as u32) + 0x100 * (bytes[off + 1] as u32) + 0x1_0000 * (bytes[off + 2] as u32)
        + 0x100_0000 * (bytes[off + 3] as u32)
}

/// Two raised to `k`, for shifts that fit a machine word.
fn pow2_u64(k: u64) -> (r: u64)
    requires
        k < 64,
    ensures
        r as int == pow2(k as nat),
        r >= 1,
{
    proof {
        lemma_u64_pow2_no_overflow(k as nat);
        lemma_u64_shl_is_mul(1u64, k);
        lemma_pow2_pos(k as nat);
    }
    1u64 << k
}

/// Decodes a 32-bit IEEE float bit pattern into a fixed-point sample.
pub fn fp_from_f32_bits(b: u32) -> (r: i64)
    ensures
        r as int == fp_of_f32_bits(b as int),
        sample_in_range(r),
{
    let mag_bits: u32 = b % 0x8000_0000;
    let e: u32 = mag_bits / 0x80_0000;
    let m: u32 = mag_bits % 0x80_0000;
    let mag: i64 = if e >= 127 {
        SAMPLE_UNIT
    } else if e == 0 {
        0
    } else if e >= 119 {
        let sh = (e - 119) as u64;
        let p = pow2_u64(sh);
        proof {
            if sh < 7 {
                lemma_pow2_strictly_increases(sh as nat, 7);
            }
            lemma2_to64();
            lemma_mul_upper_bound(0x80_0000 + m as int, 0xff_ffff, p as int, 0x80);
        }
        ((0x80_0000u64 + m as u64) * p) as i64
    } else if e >= 96 {
        let sh = (119 - e) as u64;
        let p = pow2_u64(sh);
        let q = (0x80_0000u64 + m as u64) / p;
        proof {
            lemma_div_nonincreasing(0x80_0000 + m as int, p as int);
        }
        q as i64
    } else {
        0
    };
    if b >= 0x8000_0000 {
        -mag
    } else {
        mag
    }
}

/// Splits a WAV byte sequence into its declared format and the offset and
/// size of its raw sample data, rejecting anything outside the container
/// layout `parse_wav` describes.
pub fn parse_wav_header(bytes: &Vec<u8>) -> (r: Result<(WavFmt, usize, usize), DecodeError>)
    ensures
        match r {
            Ok(t) => parse_wav(bytes@) == Ok::<(WavFmt, int, int), DecodeError>(
                (t.0, t.1 as int, t.2 as int),
            ) && fmt_wf(t.0) && t.1 + t.2 <= bytes@.len(),
            Err(e) => parse_wav(bytes@) == Err::<(WavFmt, int, int), DecodeError>(e),
        },
{
    let n = bytes.len();
    if n < 12 {
        return Err(DecodeError::TooShort);
    }
    if !(bytes[0] == 0x52 && bytes[1] == 0x49 && bytes[2] == 0x46 && bytes[3] == 0x46) {
        return Err(DecodeError::NotRiff);
    }
    if !(bytes[8] == 0x57 && bytes[9] == 0x41 && bytes[10] == 0x56 && bytes[11] == 0x45) {
        return Err(DecodeError::NotWave);
    }
    let mut pos: usize = 12;
    let mut fmt: Option<WavFmt> = None;
    loop
        invariant
            n == bytes@.len(),
            12 <= pos <= n,
            parse_wav(bytes@) == scan_chunks(bytes@, pos as int, fmt),
            fmt matches Some(f) ==> fmt_wf(f),
        decreases n - pos,
    {
        if n - pos < 8 {
            return Err(
                if fmt.is_some() {
                    DecodeError::MissingData
                } else {
                    DecodeError::MissingFmt
                },
            );
        }
        let size32 = read_le32(bytes, pos + 4);
        let size = size32 as usize;
        let body = pos + 8;
        if size > n - body {
            return Err(DecodeError::TruncatedChunk);
        }
        let is_fmt = bytes[pos] == 0x66 && bytes[pos + 1] == 0x6d && bytes[pos + 2] == 0x74
            && bytes[pos + 3] == 0x20;
        let is_data = bytes[pos] == 0x64 && bytes[pos + 1] == 0x61 && bytes[pos + 2] == 0x74
            && bytes[pos + 3] == 0x61;
        if is_fmt {
            if size < 16 {
                return Err(DecodeError::ShortFmt);
            }
            let tag = read_le16(bytes, body);
            let ch = read_le16(bytes, body + 2);
            let rate = read_le32(bytes, body + 4);
            let bits = read_le16(bytes, body + 14);
            if tag != 1 && tag != 3 {
                return Err(DecodeError::UnsupportedFormat { tag });
            }
            if ch == 0 {
                return Err(DecodeError::NoChannels);
            }
            if rate == 0 {
                return Err(DecodeError::ZeroRate);
            }
            if tag == 3 && bits != 32 {
                return Err(DecodeError::UnsupportedBits { bits });
            }
            if tag == 1 && !(bits == 8 || bits == 16 || bits == 24 || bits == 32) {
                return Err(DecodeError::UnsupportedBits { bits });
            }
            fmt = Some(
                WavFmt { channels: ch, sample_rate: rate, bits_per_sample: bits, is_float: tag == 3 },
            );
        } else if is_data {
            match fmt {
                Some(f) => {
                    return Ok((f, body, size));
                },
                None => {
                    return Err(DecodeError::MissingFmt);
                },
            }
        }
        let next0 = body + size;
        if size % 2 == 1 {
            if next0 == n {
                return Err(
                    if fmt.is_some() {
                        DecodeError::MissingData
                    } else {
                        DecodeError::MissingFmt
                    },
                );
            }
            pos = next0 + 1;
        } else {
            pos = next0;
        }
    }
}

/// Decodes every stored sample of a data chunk into a full-scale
/// fixed-point value, in order.
pub fn decode_samples(bytes: &Vec<u8>, off: usize, size: usize, fmt: WavFmt) -> (out: Vec<i64>)
    requires
        fmt_wf(fmt),
        off + size <= bytes@.len(),
    ensures
        out@.len() == size as int / bytes_per_sample(fmt),
        forall|k: int|
            0 <= k < out@.len() ==> #[trigger] out@[k] as int == sample_fp(
                bytes@,
                off as int + k * bytes_per_sample(fmt),
                fmt,
            ),
        samples_in_range(out@),
{
    let ghost gbps = bytes_per_sample(fmt);
    proof {
        assert(bytes.len() == bytes@.len());
    }
    let bps: usize = (fmt.bits_per_sample / 8) as usize;
    let count = size / bps;
    let mut out: Vec<i64> = Vec::new();
    let mut k: usize = 0;
    let mut o: usize = off;
    while k < count
        invariant
            decode_ctx(bytes@, off as int, size as int, fmt),
            bytes@.len() <= usize::MAX as int,
            gbps == bytes_per_sample(fmt),
            bps as int == gbps,
            count as int == size as int / gbps,
            0 <= k <= count,
            o as int == off as int + k as int * gbps,
            out@.len() == k as int,
            forall|j: int|
                0 <= j < k as int ==> #[trigger] out@[j] as int == sample_fp(
                    bytes@,
                    off as int + j * gbps,
                    fmt,
                ),
            samples_in_range(out@),
        decreases count - k,
    {
        proof {
            lemma_mul_inequality(k as int + 1, count as int, gbps);
            lemma_fundamental_div_mod(size as int, gbps);
            lemma_mod_bound(size as int, gbps);
            lemma_mul_is_commutative(count as int, gbps);
            lemma_mul_is_distributive_add_other_way(gbps, k as int, 1);
        }
        let v: i64 = if fmt.is_float {
            fp_from_f32_bits(read_le32(bytes, o))
        } else if fmt.bits_per_sample == 8 {
            ((bytes[o] as i64) - 128) * 0x100_0000
        } else if fmt.bits_per_sample == 16 {
            let u = read_le16(bytes, o);
            let s = if u >= 0x8000 {
                (u as i64) - 0x1_0000
            } else {
                u as i64
            };
            s * 0x1_0000
        } else if fmt.bits_per_sample == 24 {
            let u: u32 = (bytes[o] as u32) + 0x100 * (bytes[o + 1] as u32) + 0x1_0000 * (bytes[o
                + 2] as u32);
            let s = if u >= 0x80_0000 {
                (u as i64) - 0x100_0000
            } else {
                u as i64
            };
            s * 0x100
        } else {
            let u = read_le32(bytes, o);
            if u >= 0x8000_0000 {
                (u as i64) - 0x1_0000_0000
            } else {
                u as i64
            }
        };
        out.push(v);
        k = k + 1;
        o = o + bps;
    }
    out
}

/// Context facts the decode loop carries unchanged.
spec fn decode_ctx(s: Seq<u8>, off: int, size: int, fmt: WavFmt) -> bool {
    &&& fmt_wf(fmt)
    &&& 0 <= off
    &&& off + size <= s.len()
}

/// Folds an interleaved buffer down to one channel: a stereo pair becomes
/// its mean, more than two channels keep channel zero only, and mono passes
/// through; a trailing incomplete frame is dropped.
pub fn downmix(samples: &Vec<i64>, channels: u16) -> (out: Vec<i64>)
    requires
        channels >= 1,
        samples_in_range(samples@),
    ensures
        out@.len() == samples@.len() as int / channels as int,
        forall|k: int|
            0 <= k < out@.len() ==> #[trigger] out@[k] as int == mono_at(
                samples@,
                channels as int,
                k,
            ),
        samples_in_range(out@),
{
    let ch = channels as usize;
    let frames = samples.len() / ch;
    let mut out: Vec<i64> = Vec::new();
    let mut k: usize = 0;
    let mut idx: usize = 0;
    while k < frames
        invariant
            channels >= 1,
            ch == channels as usize,
            samples@.len() <= usize::MAX as int,
            samples_in_range(samples@),
            frames as int == samples@.len() as int / ch as int,
            0 <= k <= frames,
            idx as int == k as int * ch as int,
            out@.len() == k as int,
            forall|j: int|
                0 <= j < k as int ==> #[trigger] out@[j] as int == mono_at(
                    samples@,
                    channels as int,
                    j,
                ),
            samples_in_range(out@),
        decreases frames - k,
    {
        proof {
            lemma_mul_inequality(k as int + 1, frames as int, ch as int);
            lemma_fundamental_div_mod(samples@.len() as int, ch as int);
            lemma_mod_bound(samples@.len() as int, ch as int);
            lemma_mul_is_commutative(frames as int, ch as int);
            lemma_mul_is_distributive_add_other_way(ch as int, k as int, 1);
        }
        let v: i64 = if ch == 2 {
            let a = samples[idx];
            let b = samples[idx + 1];
            let s = (((a + SAMPLE_UNIT) as u64) + ((b + SAMPLE_UNIT) as u64)) / 2;
            proof {
                lemma_hoist_over_denominator(a as int + b as int, SAMPLE_UNIT as int, 2);
            }
            (s as i64) - SAMPLE_UNIT
        } else {
            samples[idx]
        };
        out.push(v);
        k = k + 1;
        idx = idx + ch;
    }
    out
}

/// Decodes a WAV byte sequence into the mono, full-scale, fixed-rate
/// buffer the transcription engine consumes: the container is parsed,
/// every sample brought to fixed point, channels folded to one, and the
/// result converted to `TARGET_SAMPLE_RATE` by linear interpolation.  The
/// result is exactly the parsed container's mono sequence resampled; any
/// malformed input yields the container's decode error.
pub fn normalize_wav(bytes: &Vec<u8>) -> (r: Result<AudioBuffer, DecodeError>)
    requires
        bytes@.len() * 16000 <= usize::MAX as int,
    ensures
        match r {
            Ok(buf) => parse_wav(bytes@) matches Ok(t) && buf.sample_rate == TARGET_SAMPLE_RATE
                && buf.wf() && buf.samples@ =~= resampled_seq(
                mono_of_wav(bytes@, t.0, t.1, t.2),
                t.0.sample_rate as int,
                16000,
            ),
            Err(e) => parse_wav(bytes@) == Err::<(WavFmt, int, int), DecodeError>(e),
        },
{
    match parse_wav_header(bytes) {
        Err(e) => Err(e),
        Ok((fmt, off, size)) => {
            let decoded = decode_samples(bytes, off, size, fmt);
            let mono = downmix(&decoded, fmt.channels);
            proof {
                lemma_div_nonincreasing(size as int, bytes_per_sample(fmt));
                lemma_div_nonincreasing(decoded@.len() as int, fmt.channels as int);
                lemma_normalize_fits(bytes@.len() as int, decoded@.len() as int, mono@.len() as int,
                    fmt.sample_rate as int);
            }
            let resampled = resample_linear(&mono, fmt.sample_rate, 16000);
            proof {
                let bps = bytes_per_sample(fmt);
                let d_spec = Seq::new(
                    (size as int / bps) as nat,
                    |k: int| sample_fp(bytes@, off as int + k * bps, fmt) as i64,
                );
                assert(decoded@ =~= d_spec);
                let m_spec = mono_of_wav(bytes@, fmt, off as int, size as int);
                assert(mono@ =~= m_spec);
            }
            Ok(AudioBuffer { samples: resampled, sample_rate: 16000 })
        },
    }
}

/// The resampled output of a normalized buffer fits in a vector: the mono
/// sequence is no longer than the file, and the target-rate length grows
/// it at most 16000-fold.
proof fn lemma_normalize_fits(file_len: int, decoded_len: int, mono_len: int, sr: int)
    requires
        0 <= mono_len <= decoded_len <= file_len,
        sr >= 1,
        file_len * 16000 <= usize::MAX as int,
    ensures
        resampled_len(mono_len, sr, 16000) <= usize::MAX as int,
{
    let me = resampled_len(mono_len, sr, 16000);
    lemma_resampled_len_is_ceil(mono_len, sr, 16000);
    if me > 0 {
        assert(mono_len > 0) by {
            if mono_len == 0 {
                vstd::arithmetic::div_mod::lemma_basic_div(sr - 1, sr);
            }
        }
        assert((me - 1) * sr < mono_len * 16000);
        assert(me - 1 <= (me - 1) * sr) by {
            lemma_mul_inequality(1, sr, me - 1);
            lemma_mul_is_commutative(me - 1, sr);
        }
        assert(mono_len * 16000 <= file_len * 16000) by {
            lemma_mul_inequality(mono_len, file_len, 16000);
        }
    }
}

} // verus!
