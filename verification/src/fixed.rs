//! Fixed-point helpers: micro-unit scaling, clamping, and exact division
//! helpers whose contracts use Euclidean division on mathematical integers.

use vstd::prelude::*;
use vstd::arithmetic::div_mod::{
    lemma_div_is_ordered, lemma_div_multiples_vanish, lemma_fundamental_div_mod,
    lemma_hoist_over_denominator,
};

verus! {

/// Number of fixed-point steps per unit (and per radian, for angles).
pub const MICRO: i64 = 1_000_000;

/// A vector of three fixed-point coordinates, in micro-units.
#[derive(Clone, Copy, Debug, PartialEq, Eq, Structural)]
pub struct Vec3Fx {
    pub x: i64,
    pub y: i64,
    pub z: i64,
}

impl Vec3Fx {
    /// The zero vector.
    pub fn zero() -> (r: Vec3Fx)
        ensures
            r == (Vec3Fx { x: 0, y: 0, z: 0 }),
    {
        Vec3Fx { x: 0, y: 0, z: 0 }
    }
}

/// `v` forced into `[lo, hi]`.
pub open spec fn clamp_spec(v: int, lo: int, hi: int) -> int {
    if v < lo {
        lo
    } else if v > hi {
        hi
    } else {
        v
    }
}

/// Clamp a fixed-point value to `[lo, hi]`.
pub fn clamp_fx(v: i64, lo: i64, hi: i64) -> (r: i64)
    requires
        lo <= hi,
    ensures
        r == clamp_spec(v as int, lo as int, hi as int),
{
    if v < lo {
        lo
    } else if v > hi {
        hi
    } else {
        v
    }
}

/// `a * b`, rescaled from squared micro-units back to micro-units.
pub open spec fn mul_micro_spec(a: int, b: int) -> int {
    (a * b) / (MICRO as int)
}

/// `a * b / MICRO` with Euclidean rounding, for products up to 10^16.
pub fn mul_micro(a: i64, b: i64) -> (r: i64)
    requires
        -0x2386f26fc10000 <= (a as int) * (b as int) <= 0x2386f26fc10000,
    ensures
        r == mul_micro_spec(a as int, b as int),
        -10_000_000_000 <= r <= 10_000_000_000,
{
    // 10^16 == 10^10 * MICRO, so shifting by it leaves the quotient shifted
    // by exactly 10^10 and makes the dividend nonnegative.
    let p: i128 = (a as i128) * (b as i128);
    let shifted: u64 = (p + 0x2386f26fc10000i128) as u64;
    let q: u64 = shifted / (MICRO as u64);
    let r: i64 = (q as i64) - 10_000_000_000;
    proof {
        let m = MICRO as int;
        lemma_hoist_over_denominator(a as int * b as int, 10_000_000_000, MICRO as nat);
        assert(shifted as int == a as int * b as int + 10_000_000_000 * m);
        assert(0 <= shifted as int / m <= 20_000_000_000) by {
            lemma_fundamental_div_mod(shifted as int, m);
        };
    }
    r
}

/// A value rescaled by `MICRO` keeps any bound its numerator had, divided
/// by `MICRO`.
pub proof fn lemma_div_micro_bound(p: int, bound: int)
    requires
        0 <= bound,
        -bound * (MICRO as int) <= p <= bound * (MICRO as int),
    ensures
        -bound <= p / (MICRO as int) <= bound,
{
    let m = MICRO as int;
    lemma_div_is_ordered(-bound * m, p, m);
    lemma_div_is_ordered(p, bound * m, m);
    lemma_div_multiples_vanish(bound, m);
    lemma_div_multiples_vanish(-bound, m);
    assert(m * bound == bound * m);
    assert(m * -bound == -bound * m);
}

/// The dot product of two fixed-point vectors, rescaled to micro-units.
pub open spec fn dot_micro_spec(a: Vec3Fx, b: Vec3Fx) -> int {
    (a.x * b.x + a.y * b.y + a.z * b.z) / (MICRO as int)
}

/// Dot product with Euclidean rescaling, for sums of products up to 10^17.
pub fn dot_micro(a: Vec3Fx, b: Vec3Fx) -> (r: i64)
    requires
        -0x16345785d8a0000 <= (a.x as int) * (b.x as int) + (a.y as int) * (b.y as int) + (a.z
            as int) * (b.z as int) <= 0x16345785d8a0000,
        -0x16345785d8a0000 <= (a.x as int) * (b.x as int) <= 0x16345785d8a0000,
        -0x16345785d8a0000 <= (a.y as int) * (b.y as int) <= 0x16345785d8a0000,
        -0x16345785d8a0000 <= (a.z as int) * (b.z as int) <= 0x16345785d8a0000,
    ensures
        r == dot_micro_spec(a, b),
        -100_000_000_000 <= r <= 100_000_000_000,
{
    // 10^17 == 10^11 * MICRO; the same shift-by-a-multiple trick as mul_micro.
    let px: i128 = (a.x as i128) * (b.x as i128);
    let py: i128 = (a.y as i128) * (b.y as i128);
    let pz: i128 = (a.z as i128) * (b.z as i128);
    let s: i128 = px + py + pz;
    let shifted: u64 = (s + 0x16345785d8a0000i128) as u64;
    let q: u64 = shifted / (MICRO as u64);
    let r: i64 = (q as i64) - 100_000_000_000;
    proof {
        let m = MICRO as int;
        let sum = a.x as int * b.x as int + a.y as int * b.y as int + a.z as int * b.z as int;
        lemma_hoist_over_denominator(sum, 100_000_000_000, MICRO as nat);
        assert(shifted as int == sum + 100_000_000_000 * m);
        assert(0 <= shifted as int / m <= 200_000_000_000) by {
            lemma_fundamental_div_mod(shifted as int, m);
        };
    }
    r
}

} // verus!
