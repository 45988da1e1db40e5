//! Exact rational scaling factors.
//!
//! Every gain and threshold of the controller (pacing gains, cwnd gains, the
//! loss threshold, the headroom fraction, the pacing margin) is an exact
//! rational number, kept as a numerator/denominator pair so that scaling a
//! byte count or a rate is deterministic integer arithmetic on every platform.

use vstd::prelude::*;

verus! {

use vstd::arithmetic::div_mod::{lemma_div_is_ordered, lemma_div_multiples_vanish};
use vstd::arithmetic::mul::{lemma_mul_inequality, lemma_mul_is_associative, lemma_mul_is_commutative};

/// Largest numerator or denominator a well-formed `Gain` may carry.
pub const MAX_GAIN_PART: u64 = 1000;

/// Largest operand `Gain::times` accepts; keeps the intermediate product
/// `numer * x` within `u64`.
pub const MAX_GAIN_OPERAND: u64 = 9_000_000_000_000_000;

/// A rational scaling factor `numer / denom`.
///
/// Scaling always rounds toward zero, as the rational arithmetic of the
/// underlying library does when truncating a ratio to an integer.
#[derive(Clone, Copy, Debug)]
pub struct Gain {
    pub numer: u64,
    pub denom: u64,
}

impl Gain {
    /// A gain is well formed when its denominator is positive and both parts
    /// are small enough that scaling cannot overflow.
    pub open spec fn wf(self) -> bool {
        &&& 1 <= self.denom <= MAX_GAIN_PART
        &&& self.numer <= MAX_GAIN_PART
    }

    /// The value of scaling `x` by this gain: the integer part of
    /// `numer * x / denom`.
    pub open spec fn spec_times(self, x: u64) -> int {
        (self.numer * x) / (self.denom as int)
    }

    /// The unit gain, which leaves every operand unchanged.
    pub fn one() -> (r: Gain)
        ensures
            r == (Gain { numer: 1u64, denom: 1u64 }),
    {
        Gain { numer: 1, denom: 1 }
    }

    /// Scales `x` by this gain, rounding toward zero.
    pub fn times(self, x: u64) -> (r: u64)
        requires
            self.wf(),
            x <= MAX_GAIN_OPERAND,
        ensures
            r == self.spec_times(x),
    {
        proof {
            lemma_mul_inequality(self.numer as int, MAX_GAIN_PART as int, x as int);
            lemma_mul_inequality(x as int, MAX_GAIN_OPERAND as int, MAX_GAIN_PART as int);
            lemma_mul_is_commutative(MAX_GAIN_PART as int, x as int);
            lemma_mul_is_commutative(MAX_GAIN_PART as int, MAX_GAIN_OPERAND as int);
        }
        ratio_mul_div(self.numer, self.denom, x)
    }
}

/// Relies on `num_rational::Ratio::<u64>`: `new_raw(numer, denom)` stores the
/// pair unreduced; multiplying by the scalar `x` divides `x` by
/// `gcd(denom, x)` first, so the product it forms never exceeds `numer * x`;
/// and `to_integer` truncates the ratio toward zero, yielding the integer
/// part of `numer * x / denom`.
#[verifier::external_body]
fn ratio_mul_div(numer: u64, denom: u64, x: u64) -> (r: u64)
    requires
        1 <= denom,
        numer * x <= u64::MAX,
    ensures
        r == (numer * x) / (denom as int),
{
    (num_rational::Ratio::new_raw(numer, denom) * x).to_integer()
}

/// If the gain is at most `k` (that is, `numer <= k * denom`), then scaling
/// `x` by it yields at most `k * x`.
pub proof fn lemma_times_bound(g: Gain, x: u64, k: u64)
    requires
        g.wf(),
        g.numer <= k * g.denom,
    ensures
        g.spec_times(x) <= k * x,
{
    lemma_mul_inequality(g.numer as int, (k * g.denom) as int, x as int);
    assert((k * g.denom) * x == g.denom as int * (k * x)) by {
        lemma_mul_is_commutative(k as int, g.denom as int);
        lemma_mul_is_associative(g.denom as int, k as int, x as int);
    }
    lemma_div_is_ordered(g.numer * x, g.denom as int * (k * x), g.denom as int);
    lemma_div_multiples_vanish(k * x, g.denom as int);
}

/// Scaling by a fixed gain is monotone in the operand.
pub proof fn lemma_times_monotonic(g: Gain, x1: u64, x2: u64)
    requires
        g.wf(),
        x1 <= x2,
    ensures
        g.spec_times(x1) <= g.spec_times(x2),
{
    lemma_mul_inequality(x1 as int, x2 as int, g.numer as int);
    lemma_mul_is_commutative(x1 as int, g.numer as int);
    lemma_mul_is_commutative(x2 as int, g.numer as int);
    lemma_div_is_ordered(g.numer * x1, g.numer * x2, g.denom as int);
}

} // verus!
