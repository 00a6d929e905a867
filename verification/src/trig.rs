//! Fixed-point sine and cosine on microradian angles, and the local basis
//! vectors (forward, right, up) of an orientation.  The trigonometric model
//! is the classical rational approximation of sine on a half turn
//! (`16 x (pi - x) / (5 pi^2 - 4 x (pi - x))`), carried out exactly on
//! integers; its values in micro-units are what every contract speaks of.

use vstd::prelude::*;
use vstd::arithmetic::div_mod::{lemma_div_is_ordered, lemma_div_multiples_vanish};
use crate::angle::{HALF_TURN_URAD, QUARTER_TURN_URAD};

verus! {

/// The sine approximation on `[0, HALF_TURN_URAD]`, in micro-units.
pub open spec fn sin_half_spec(x: int) -> int {
    let h = HALF_TURN_URAD as int;
    let t = x * (h - x);
    (16 * t * 1_000_000) / (5 * h * h - 4 * t)
}

/// Sine of an angle in `[-HALF_TURN_URAD, HALF_TURN_URAD]`, in micro-units.
pub open spec fn sin_urad_spec(x: int) -> int {
    if x >= 0 {
        sin_half_spec(x)
    } else {
        -sin_half_spec(-x)
    }
}

/// Cosine of an angle in `[-HALF_TURN_URAD, HALF_TURN_URAD]`, in micro-units:
/// the sine of the complementary angle, using that cosine is even.
pub open spec fn cos_urad_spec(x: int) -> int {
    if x >= 0 {
        sin_urad_spec(QUARTER_TURN_URAD - x)
    } else {
        sin_urad_spec(QUARTER_TURN_URAD + x)
    }
}

proof fn lemma_sin_half_bounds(x: int)
    requires
        0 <= x <= HALF_TURN_URAD,
    ensures
        0 <= sin_half_spec(x) <= 1_000_000,
{
    let h = HALF_TURN_URAD as int;
    let t = x * (h - x);
    let num = 16 * t * 1_000_000;
    let den = 5 * h * h - 4 * t;
    assert(0 <= x * (h - x) && 4 * (x * (h - x)) <= h * h) by (nonlinear_arith)
        requires
            0 <= x <= h,
    ;
    assert(den >= 4 * h * h);
    assert(num >= 0);
    assert(num <= 1_000_000 * den);
    lemma_div_is_ordered(0, num, den);
    lemma_div_is_ordered(num, 1_000_000 * den, den);
    lemma_div_multiples_vanish(1_000_000, den);
}

/// Fixed-point sine on `[0, HALF_TURN_URAD]`.
fn sin_half(x: i64) -> (r: i64)
    requires
        0 <= x <= HALF_TURN_URAD,
    ensures
        r == sin_half_spec(x as int),
        0 <= r <= 1_000_000,
{
    proof {
        assert(0 <= x as int * (HALF_TURN_URAD as int - x as int) && 4 * (x as int
            * (HALF_TURN_URAD as int - x as int)) <= HALF_TURN_URAD as int * HALF_TURN_URAD as int)
            by (nonlinear_arith)
            requires
                0 <= x as int <= HALF_TURN_URAD as int,
        ;
        lemma_sin_half_bounds(x as int);
    }
    let t: i64 = x * (HALF_TURN_URAD - x);
    let num: u128 = 16 * (t as u128) * 1_000_000;
    let den: u128 = (5 * (HALF_TURN_URAD as u128) * (HALF_TURN_URAD as u128)) - 4 * (t as u128);
    (num / den) as i64
}

/// Fixed-point sine of a microradian angle, in micro-units.
pub fn sin_urad(x: i64) -> (r: i64)
    requires
        -HALF_TURN_URAD <= x <= HALF_TURN_URAD,
    ensures
        r == sin_urad_spec(x as int),
        -1_000_000 <= r <= 1_000_000,
{
    if x >= 0 {
        sin_half(x)
    } else {
        let s = sin_half(-x);
        -s
    }
}

/// Fixed-point cosine of a microradian angle, in micro-units.
pub fn cos_urad(x: i64) -> (r: i64)
    requires
        -HALF_TURN_URAD <= x <= HALF_TURN_URAD,
    ensures
        r == cos_urad_spec(x as int),
        -1_000_000 <= r <= 1_000_000,
{
    if x >= 0 {
        sin_urad(QUARTER_TURN_URAD - x)
    } else {
        sin_urad(QUARTER_TURN_URAD + x)
    }
}

} // verus!
