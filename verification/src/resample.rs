use vstd::prelude::*;
use vstd::arithmetic::div_mod::{
    lemma_basic_div, lemma_div_is_ordered, lemma_div_multiples_vanish,
    lemma_fundamental_div_mod, lemma_hoist_over_denominator, lemma_mod_bound,
    lemma_mod_multiples_basic, lemma_multiply_divide_le, lemma_multiply_divide_lt,
};
use vstd::arithmetic::mul::{
    lemma_mul_inequality, lemma_mul_is_commutative, lemma_mul_is_distributive_add,
    lemma_mul_is_distributive_add_other_way, lemma_mul_is_distributive_sub,
    lemma_mul_upper_bound,
};
use crate::sample::{sample_in_range, samples_in_range, SAMPLE_UNIT};

verus! {

/// Number of samples a linear resampler produces from `n` input samples when
/// converting from rate `sr` to rate `tr`: the ceiling of `n * tr / sr`.
pub open spec fn resampled_len(n: int, sr: int, tr: int) -> int
    recommends
        sr > 0,
        tr > 0,
{
    (n * tr + sr - 1) / sr
}

/// Linear interpolation between `a` and `b` at fraction `r / d`, rounded
/// toward negative infinity.
pub open spec fn lerp(a: int, b: int, r: int, d: int) -> int
    recommends
        0 <= r < d,
{
    (a * (d - r) + b * r) / d
}

/// The sample a linear resampler produces at output index `i`: the exact
/// source position is `i * sr / tr`, which falls between source indices `q`
/// and `q + 1` (the upper bracket clamped to the last sample), and the two
/// bracketing samples are interpolated with the fractional part `r / tr`.
pub open spec fn resampled_at(s: Seq<i64>, sr: int, tr: int, i: int) -> int
    recommends
        sr > 0,
        tr > 0,
        0 <= i < resampled_len(s.len() as int, sr, tr),
{
    let q = (i * sr) / tr;
    let r = (i * sr) % tr;
    let j = if q + 1 < s.len() { q + 1 } else { s.len() - 1 };
    lerp(s[q] as int, s[j] as int, r, tr)
}

/// The whole output of the linear resampler, as a sequence.
pub open spec fn resampled_seq(s: Seq<i64>, sr: int, tr: int) -> Seq<i64>
    recommends
        sr > 0,
        tr > 0,
{
    Seq::new(
        resampled_len(s.len() as int, sr, tr) as nat,
        |i: int| resampled_at(s, sr, tr, i) as i64,
    )
}

/// `resampled_len` is the least count whose duration at the target rate
/// covers the input's duration at the source rate: it is exactly the
/// ceiling of `n * tr / sr`.
pub proof fn lemma_resampled_len_is_ceil(n: int, sr: int, tr: int)
    requires
        n >= 0,
        sr > 0,
        tr > 0,
    ensures
        resampled_len(n, sr, tr) * sr >= n * tr,
        n > 0 ==> (resampled_len(n, sr, tr) - 1) * sr < n * tr,
        resampled_len(n, sr, tr) >= 0,
{
    let x = n * tr + sr - 1;
    let m = resampled_len(n, sr, tr);
    lemma_mul_nonneg_general(n, tr);
    lemma_fundamental_div_mod(x, sr);
    lemma_mod_bound(x, sr);
    assert(sr * m == m * sr) by {
        lemma_mul_is_commutative(sr, m);
    }
    // x == sr * m + x % sr and x % sr < sr, so m * sr >= x - (sr - 1) == n * tr.
    assert(m * sr >= n * tr);
    if n > 0 {
        // m * sr <= x == n * tr + sr - 1, so (m - 1) * sr <= n * tr - 1.
        assert((m - 1) * sr == m * sr - sr) by {
            lemma_mul_is_distributive_sub(sr, m, 1);
            lemma_mul_is_commutative(sr, m - 1);
            lemma_mul_is_commutative(sr, m);
        }
        assert((m - 1) * sr < n * tr);
    }
    assert(m >= 0) by {
        lemma_div_is_ordered(0, x, sr);
        lemma_basic_div(0, sr);
    }
}

/// Every output index of the resampler brackets a valid source index: for
/// `i` below the output length, the floor position `i * sr / tr` is a valid
/// index of the input.
pub proof fn lemma_source_index_in_bounds(n: int, sr: int, tr: int, i: int)
    requires
        n >= 0,
        sr > 0,
        tr > 0,
        0 <= i < resampled_len(n, sr, tr),
    ensures
        n > 0,
        0 <= (i * sr) / tr < n,
        0 <= (i * sr) % tr < tr,
{
    let m = resampled_len(n, sr, tr);
    if n == 0 {
        assert(n * tr == 0) by (nonlinear_arith)
            requires n == 0;
        assert(m == (sr - 1) / sr);
        assert((sr - 1) / sr == 0) by {
            lemma_basic_div(sr - 1, sr);
        }
        assert(false);
    }
    lemma_resampled_len_is_ceil(n, sr, tr);
    // i <= m - 1, so i * sr <= (m - 1) * sr < n * tr.
    lemma_mul_inequality(i, m - 1, sr);
    assert(i * sr < n * tr);
    assert(i * sr < tr * n) by {
        lemma_mul_is_commutative(n, tr);
    }
    lemma_multiply_divide_lt(i * sr, tr, n);
    lemma_mul_nonneg_general(i, sr);
    assert((i * sr) / tr >= 0) by {
        lemma_div_is_ordered(0, i * sr, tr);
    }
    lemma_mod_bound(i * sr, tr);
}

/// Interpolation between two values within full scale stays within full
/// scale.
proof fn lemma_lerp_in_range(a: int, b: int, r: int, d: int, bound: int)
    requires
        0 <= r < d,
        bound > 0,
        -bound <= a <= bound,
        -bound <= b <= bound,
    ensures
        -bound <= lerp(a, b, r, d) <= bound,
{
    let num = a * (d - r) + b * r;
    lemma_mul_inequality(a, bound, d - r);
    lemma_mul_inequality(b, bound, r);
    lemma_mul_inequality(-bound, a, d - r);
    lemma_mul_inequality(-bound, b, r);
    assert(bound * (d - r) + bound * r == bound * d) by {
        lemma_mul_is_distributive_add(bound, d - r, r);
    }
    assert((-bound) * (d - r) + (-bound) * r == (-bound) * d) by {
        lemma_mul_is_distributive_add(-bound, d - r, r);
    }
    assert(num / d <= bound) by {
        lemma_div_is_ordered(num, bound * d, d);
        lemma_mul_is_commutative(bound, d);
        lemma_div_multiples_vanish(bound, d);
    }
    assert(num / d >= -bound) by {
        lemma_div_is_ordered((-bound) * d, num, d);
        lemma_mul_is_commutative(-bound, d);
        lemma_div_multiples_vanish(-bound, d);
    }
}

/// Interpolating between equal values gives that value back, whatever the
/// fraction.
proof fn lemma_lerp_constant(a: int, r: int, d: int)
    requires
        0 <= r < d,
    ensures
        lerp(a, a, r, d) == a,
{
    assert(a * (d - r) + a * r == a * d) by {
        lemma_mul_is_distributive_add(a, d - r, r);
    }
    lemma_mul_is_commutative(a, d);
    lemma_div_multiples_vanish(a, d);
}

/// Flat input resamples to flat output: when every input sample holds one
/// constant, every output sample holds that same constant, so linear
/// interpolation adds no artifact of its own on a flat signal.
pub proof fn lemma_resample_constant(s: Seq<i64>, sr: int, tr: int, c: i64, i: int)
    requires
        sr > 0,
        tr > 0,
        forall|k: int| 0 <= k < s.len() ==> s[k] == c,
        0 <= i < resampled_len(s.len() as int, sr, tr),
    ensures
        resampled_at(s, sr, tr, i) == c,
{
    lemma_source_index_in_bounds(s.len() as int, sr, tr, i);
    lemma_lerp_constant(c as int, (i * sr) % tr, tr);
}

/// When the source rate already equals the target rate, the resampler is
/// the identity: each output index maps exactly onto the same input index
/// with no fractional part.
pub proof fn lemma_resample_identity(s: Seq<i64>, d: int, i: int)
    requires
        d > 0,
        0 <= i < resampled_len(s.len() as int, d, d),
    ensures
        resampled_len(s.len() as int, d, d) == s.len(),
        resampled_at(s, d, d, i) == s[i],
{
    lemma_resample_same_rate_len(s.len() as int, d);
    lemma_source_index_in_bounds(s.len() as int, d, d, i);
    assert((i * d) / d == i) by {
        lemma_mul_is_commutative(i, d);
        lemma_div_multiples_vanish(i, d);
    }
    assert((i * d) % d == 0) by {
        lemma_mod_multiples_basic(i, d);
    }
    let j = if i + 1 < s.len() { i + 1 } else { s.len() - 1 };
    assert(lerp(s[i] as int, s[j] as int, 0, d) == s[i]) by {
        lemma_mul_is_commutative(s[i] as int, d);
        lemma_div_multiples_vanish(s[i] as int, d);
    }
}

/// Equal source and target rates keep the length unchanged.
pub proof fn lemma_resample_same_rate_len(n: int, d: int)
    requires
        n >= 0,
        d > 0,
    ensures
        resampled_len(n, d, d) == n,
{
    assert((d - 1) / d == 0) by {
        lemma_basic_div(d - 1, d);
    }
    assert((d - 1) / d + n == (d - 1 + n * d) / d) by {
        lemma_hoist_over_denominator(d - 1, n, d as nat);
    }
}

/// The product of two nonnegative integers is nonnegative.
proof fn lemma_mul_nonneg_general(x: int, y: int)
    requires
        x >= 0,
        y >= 0,
    ensures
        x * y >= 0,
    decreases x,
{
    if x > 0 {
        lemma_mul_inequality(0, x, y);
    }
}

/// Converts a mono sample sequence from `source_rate` to `target_rate` by
/// linear interpolation.  The output holds exactly the ceiling of
/// `len * target_rate / source_rate` samples; output index `i` reads the
/// exact source position `i * source_rate / target_rate` and interpolates
/// the two bracketing source samples, clamping the upper bracket at the
/// last sample.  An empty input gives an empty output, and equal rates give
/// the input back unchanged.
pub fn resample_linear(input: &Vec<i64>, source_rate: u32, target_rate: u32) -> (out: Vec<i64>)
    requires
        source_rate > 0,
        target_rate > 0,
        samples_in_range(input@),
        resampled_len(input@.len() as int, source_rate as int, target_rate as int)
            <= usize::MAX as int,
    ensures
        out@.len() == resampled_len(input@.len() as int, source_rate as int, target_rate as int),
        forall|i: int| 0 <= i < out@.len() ==> #[trigger] out@[i] as int
            == resampled_at(input@, source_rate as int, target_rate as int, i),
        samples_in_range(out@),
        out@ =~= resampled_seq(input@, source_rate as int, target_rate as int),
        source_rate == target_rate ==> out@ =~= input@,
{
    let ghost gn = input@.len() as int;
    let ghost gsr = source_rate as int;
    let ghost gtr = target_rate as int;
    let n = input.len();
    let sr128 = source_rate as u128;
    let tr128 = target_rate as u128;
    proof {
        lemma_mul_upper_bound(n as int, 0xffff_ffff_ffff_ffff, gtr, 0xffff_ffff);
    }
    let nt: u128 = (n as u128) * tr128;
    let len128: u128 = (nt + sr128 - 1) / sr128;
    proof {
        lemma_resampled_len_is_ceil(gn, gsr, gtr);
        assert(len128 as int == resampled_len(gn, gsr, gtr));
    }
    let out_len: usize = len128 as usize;
    let mut out: Vec<i64> = Vec::new();
    let mut i: usize = 0;
    while i < out_len
        invariant
            gn == input@.len() as int,
            gsr == source_rate as int,
            gtr == target_rate as int,
            n == input@.len(),
            source_rate > 0,
            target_rate > 0,
            sr128 == source_rate as u128,
            tr128 == target_rate as u128,
            samples_in_range(input@),
            out_len as int == resampled_len(gn, gsr, gtr),
            0 <= i <= out_len,
            out@.len() == i as int,
            forall|k: int| 0 <= k < i as int ==> #[trigger] out@[k] as int
                == resampled_at(input@, gsr, gtr, k),
            samples_in_range(out@),
        decreases out_len - i,
    {
        proof {
            lemma_source_index_in_bounds(gn, gsr, gtr, i as int);
            lemma_mul_upper_bound(i as int, 0xffff_ffff_ffff_ffff, gsr, 0xffff_ffff);
        }
        let num: u128 = (i as u128) * sr128;
        let q128 = num / tr128;
        let r128 = num % tr128;
        proof {
            assert(q128 as int == (i as int * gsr) / gtr);
            assert(r128 as int == (i as int * gsr) % gtr);
        }
        let q = q128 as usize;
        let j = if q + 1 < n {
            q + 1
        } else {
            n - 1
        };
        let a = input[q];
        let b = input[j];
        let d64 = target_rate as u64;
        let r64 = r128 as u64;
        let au = (a + SAMPLE_UNIT) as u64;
        let bu = (b + SAMPLE_UNIT) as u64;
        proof {
            let unit = SAMPLE_UNIT as int;
            let ad = au as int;
            let bd = bu as int;
            let dd = d64 as int;
            let rr = r64 as int;
            assert(ad * (dd - rr) + bd * rr <= (2 * unit) * dd) by {
                lemma_mul_inequality(ad, 2 * unit, dd - rr);
                lemma_mul_inequality(bd, 2 * unit, rr);
                lemma_mul_is_distributive_add(2 * unit, dd - rr, rr);
            }
            assert((2 * unit) * dd <= (2 * unit) * 0xffff_ffff) by {
                lemma_mul_inequality(dd, 0xffff_ffff, 2 * unit);
                lemma_mul_is_commutative(dd, 2 * unit);
                lemma_mul_is_commutative(0xffff_ffff, 2 * unit);
            }
            lemma_mul_nonneg_general(ad, dd - rr);
            lemma_mul_nonneg_general(bd, rr);
        }
        let num2: u64 = au * (d64 - r64) + bu * r64;
        let v = num2 / d64;
        proof {
            let unit = SAMPLE_UNIT as int;
            assert(num2 as int <= d64 as int * (2 * unit)) by {
                lemma_mul_inequality(au as int, 2 * unit, d64 as int - r64 as int);
                lemma_mul_inequality(bu as int, 2 * unit, r64 as int);
                lemma_mul_is_distributive_add(2 * unit, d64 as int - r64 as int, r64 as int);
                lemma_mul_is_commutative(2 * unit, d64 as int);
            }
            assert(v as int <= 2 * unit) by {
                lemma_multiply_divide_le(num2 as int, d64 as int, 2 * unit);
            }
        }
        let s_val = (v as i64) - SAMPLE_UNIT;
        proof {
            let unit = SAMPLE_UNIT as int;
            let aa = a as int;
            let bb = b as int;
            let dd = d64 as int;
            let rr = r64 as int;
            let num_spec = aa * (dd - rr) + bb * rr;
            assert(num2 as int == num_spec + unit * dd) by {
                lemma_mul_is_distributive_add_other_way(dd - rr, aa, unit);
                lemma_mul_is_distributive_add_other_way(rr, bb, unit);
                lemma_mul_is_distributive_add(unit, dd - rr, rr);
            }
            assert(num_spec / dd + unit == (num_spec + unit * dd) / dd) by {
                lemma_hoist_over_denominator(num_spec, unit, d64 as nat);
            }
            assert(s_val as int == lerp(aa, bb, rr, dd));
            lemma_lerp_in_range(aa, bb, rr, dd, unit);
            assert(s_val as int == resampled_at(input@, gsr, gtr, i as int));
        }
        out.push(s_val);
        i += 1;
    }
    proof {
        assert(out@ =~= resampled_seq(input@, gsr, gtr));
        if source_rate == target_rate {
            assert forall|k: int| 0 <= k < out@.len() implies out@[k] == input@[k] by {
                lemma_resample_identity(input@, gsr, k);
            }
            lemma_resample_same_rate_len(gn, gsr);
        }
    }
    out
}

} // verus!
