//! Angles in microradians: turn constants, wrapping into a single turn, and
//! the pitch clamp bound that keeps the camera away from the poles.

use vstd::prelude::*;
use vstd::arithmetic::div_mod::{lemma_mod_bound, lemma_mod_multiples_vanish};

verus! {

/// Half a turn (pi radians) in microradians.
pub const HALF_TURN_URAD: i64 = 3_141_593;

/// A full turn (two pi radians) in microradians; exactly `2 * HALF_TURN_URAD`.
pub const FULL_TURN_URAD: i64 = 6_283_186;

/// The pitch clamp bound, pi/2 - 0.01 radians, in microradians.
pub const PITCH_LIMIT_URAD: i64 = 1_560_796;

/// A quarter turn (pi/2 radians) in microradians.
pub const QUARTER_TURN_URAD: i64 = 1_570_796;

/// The angle congruent to `v` modulo a full turn that lies in
/// `(-HALF_TURN_URAD, HALF_TURN_URAD]`.
pub open spec fn wrap_urad_spec(v: int) -> int {
    let m = v % (FULL_TURN_URAD as int);
    if m > HALF_TURN_URAD as int {
        m - FULL_TURN_URAD as int
    } else {
        m
    }
}

/// Wrap an angle into `(-HALF_TURN_URAD, HALF_TURN_URAD]` by whole turns.
pub fn wrap_angle(v: i64) -> (r: i64)
    requires
        -1_100_000_000_000_000 <= v <= 1_100_000_000_000_000,
    ensures
        r == wrap_urad_spec(v as int),
        -HALF_TURN_URAD < r <= HALF_TURN_URAD,
{
    // 200_000_000 whole turns exceed any admitted input, so the shifted value
    // is nonnegative and keeps the angle's remainder modulo a full turn.
    let offset: i64 = FULL_TURN_URAD * 200_000_000;
    let shifted: u64 = (v + offset) as u64;
    let m: u64 = shifted % (FULL_TURN_URAD as u64);
    proof {
        let f = FULL_TURN_URAD as int;
        lemma_mod_multiples_vanish(200_000_000, v as int, f);
        assert(shifted as int == f * 200_000_000 + v as int);
        lemma_mod_bound(shifted as int, f);
    }
    if m > HALF_TURN_URAD as u64 {
        (m as i64) - FULL_TURN_URAD
    } else {
        m as i64
    }
}

} // verus!
