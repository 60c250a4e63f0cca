use vstd::prelude::*;

verus! {

/// Fixed-point amplitude scale: `SAMPLE_UNIT` stands for an amplitude of
/// exactly one (full scale).  A normalized audio sample is an `i64` in
/// `[-SAMPLE_UNIT, SAMPLE_UNIT]`, standing for a real amplitude in
/// `[-1.0, 1.0]`.
pub const SAMPLE_UNIT: i64 = 0x8000_0000;

/// A sample value is valid when its amplitude is at most full scale.
pub open spec fn sample_in_range(s: i64) -> bool {
    -SAMPLE_UNIT <= s <= SAMPLE_UNIT
}

/// All samples of a buffer are within full scale.
pub open spec fn samples_in_range(s: Seq<i64>) -> bool {
    forall|k: int| 0 <= k < s.len() ==> sample_in_range(#[trigger] s[k])
}

/// A mono sample buffer with its declared sample rate.
pub struct AudioBuffer {
    pub samples: Vec<i64>,
    pub sample_rate: u32,
}

impl AudioBuffer {
    /// A buffer is well formed when its rate is a real rate and every
    /// sample is within full scale.
    pub open spec fn wf(&self) -> bool {
        self.sample_rate > 0 && samples_in_range(self.samples@)
    }
}

/// Capture devices that deliver unsigned 16-bit samples are written out as
/// signed 16-bit PCM; the midpoint of the unsigned range becomes zero.
pub fn sample_i16_from_u16(v: u16) -> (r: i16)
    ensures
        r as int == v as int - 32768,
{
    ((v as i32) - 32768) as i16
}

} // verus!
