//! Software volume scaling.
//!
//! A sample is scaled by `volume / 100` in integer arithmetic with the
//! quotient rounded toward zero, so the scaled magnitude never exceeds the
//! original. At volume 100 the samples are copied unchanged — no rounding
//! is ever applied — and at volume 0 every sample becomes zero. The scale
//! is applied at write time only; already-enqueued sample data is never
//! altered retroactively.

use vstd::prelude::*;
use vstd::arithmetic::div_mod::lemma_div_is_ordered;
use vstd::arithmetic::div_mod::lemma_div_multiples_vanish;
use vstd::arithmetic::mul::lemma_mul_inequality;
use vstd::arithmetic::mul::lemma_mul_is_commutative;

verus! {

/// One sample scaled by `volume / 100`, rounded toward zero.
pub open spec fn spec_scaled_sample(s: int, volume: int) -> int {
    if s >= 0 {
        (s * volume) / 100
    } else {
        -(((-s) * volume) / 100)
    }
}

/// A whole sample sequence scaled by `volume / 100`, rounded toward zero.
pub open spec fn spec_scaled_samples(s: Seq<i32>, volume: int) -> Seq<i32> {
    Seq::new(s.len(), |i: int| spec_scaled_sample(s[i] as int, volume) as i32)
}

/// The scaled magnitude never exceeds the original magnitude, so a scaled
/// sample always fits back into `i32`.
proof fn lemma_scaled_sample_bounds(s: int, volume: int)
    requires
        i32::MIN <= s <= i32::MAX,
        0 <= volume <= 100,
    ensures
        s >= 0 ==> 0 <= spec_scaled_sample(s, volume) <= s,
        s < 0 ==> s <= spec_scaled_sample(s, volume) <= 0,
{
    let mag: int = if s >= 0 {
        s
    } else {
        -s
    };
    lemma_mul_inequality(volume, 100, mag);
    lemma_mul_is_commutative(volume, mag);
    lemma_mul_is_commutative(100, mag);
    lemma_div_is_ordered(mag * volume, mag * 100, 100);
    lemma_div_multiples_vanish(mag, 100);
    lemma_mul_is_commutative(100, mag);
    assert(mag * volume >= 0) by (nonlinear_arith)
        requires
            mag >= 0,
            volume >= 0,
    ;
}

/// Scaling by volume 100 reproduces the original sample exactly.
pub proof fn lemma_scale_full_volume_identity(s: Seq<i32>)
    ensures
        spec_scaled_samples(s, 100) == s,
{
    assert forall|i: int| 0 <= i < s.len() implies spec_scaled_samples(s, 100)[i] == s[i] by {
        let x = s[i] as int;
        let mag: int = if x >= 0 {
            x
        } else {
            -x
        };
        lemma_mul_is_commutative(mag, 100);
        lemma_div_multiples_vanish(mag, 100);
    }
    assert(spec_scaled_samples(s, 100) =~= s);
}

/// Scaling by volume 0 yields silence: every sample becomes zero.
pub proof fn lemma_scale_zero_volume_silence(s: Seq<i32>)
    ensures
        spec_scaled_samples(s, 0).len() == s.len(),
        forall|i: int| 0 <= i < s.len() ==> spec_scaled_samples(s, 0)[i] == 0,
{
    assert forall|i: int| 0 <= i < s.len() implies spec_scaled_samples(s, 0)[i] == 0 by {
        let x = s[i] as int;
        let mag: int = if x >= 0 {
            x
        } else {
            -x
        };
        assert(mag * 0 == 0);
        assert(0int / 100 == 0);
    }
}

/// Scale one sample by `volume / 100`, rounding toward zero.
pub fn scale_sample(s: i32, volume: u8) -> (r: i32)
    requires
        volume <= 100,
    ensures
        r == spec_scaled_sample(s as int, volume as int),
{
    proof {
        lemma_scaled_sample_bounds(s as int, volume as int);
    }
    if s >= 0 {
        let mag: u64 = s as u64;
        ((mag * (volume as u64)) / 100) as i32
    } else {
        let mag: u64 = (-(s as i64)) as u64;
        (-(((mag * (volume as u64)) / 100) as i64)) as i32
    }
}

/// Scale a sample sequence by `volume / 100`, rounding each sample toward
/// zero. At volume 100 the samples are copied unchanged; at volume 0 the
/// result is all-zero.
pub fn scale_samples(samples: &Vec<i32>, volume: u8) -> (r: Vec<i32>)
    requires
        volume <= 100,
    ensures
        r@ == spec_scaled_samples(samples@, volume as int),
        volume == 100 ==> r@ == samples@,
        volume == 0 ==> forall|i: int| 0 <= i < r@.len() ==> r@[i] == 0,
{
    let mut r: Vec<i32> = Vec::new();
    let mut i: usize = 0;
    if volume == 100 {
        while i < samples.len()
            invariant
                i <= samples@.len(),
                r@ == samples@.take(i as int),
            decreases samples@.len() - i,
        {
            r.push(samples[i]);
            proof {
                assert(r@ =~= samples@.take(i + 1));
            }
            i = i + 1;
        }
        proof {
            assert(samples@.take(samples@.len() as int) =~= samples@);
            lemma_scale_full_volume_identity(samples@);
        }
    } else {
        while i < samples.len()
            invariant
                volume <= 100,
                i <= samples@.len(),
                r@.len() == i,
                forall|j: int|
                    0 <= j < i ==> r@[j] == spec_scaled_sample(samples@[j] as int, volume as int),
            decreases samples@.len() - i,
        {
            let scaled = scale_sample(samples[i], volume);
            r.push(scaled);
            i = i + 1;
        }
        proof {
            if volume == 0 {
                lemma_scale_zero_volume_silence(samples@);
            }
            assert(r@ =~= spec_scaled_samples(samples@, volume as int));
        }
    }
    r
}

} // verus!
