//! The player's orientation as intrinsic Y-X-Z Euler angles (yaw, then
//! pitch, then roll), in microradians, and the mouse-look update: yaw and
//! pitch move by the accumulated mouse delta scaled by the per-axis
//! sensitivity, pitch is clamped away from the poles, and roll is read back
//! unchanged.

use vstd::prelude::*;
use crate::angle::{wrap_urad_spec, wrap_angle, HALF_TURN_URAD, PITCH_LIMIT_URAD};
use crate::fixed::{clamp_spec, clamp_fx};

verus! {

/// Yaw, pitch and roll in microradians, composed in that order.
#[derive(Clone, Copy, Debug, PartialEq, Eq, Structural)]
pub struct Orientation {
    pub yaw: i64,
    pub pitch: i64,
    pub roll: i64,
}

/// Per-player mouse sensitivity, in microradians per mouse count, for the
/// yaw (`x`) and pitch (`y`) axes.
#[derive(Clone, Copy, Debug, PartialEq, Eq, Structural)]
pub struct CameraSensitivity {
    pub x: i64,
    pub y: i64,
}

impl CameraSensitivity {
    /// A sensitivity is admissible when both scales are nonnegative and at
    /// most one radian per count.
    pub open spec fn wf(self) -> bool {
        0 <= self.x <= 1_000_000 && 0 <= self.y <= 1_000_000
    }
}

impl Default for CameraSensitivity {
    /// The spawned sensitivity: 0.003 rad per count of yaw, 0.002 of pitch.
    fn default() -> (r: Self)
        ensures
            r == (CameraSensitivity { x: 3000, y: 2000 }),
            r.wf(),
    {
        CameraSensitivity { x: 3000, y: 2000 }
    }
}

impl Orientation {
    /// Every angle lies within one half turn of zero; yaw and roll strictly
    /// above the lower bound so each has one representative per turn.
    pub open spec fn wf(self) -> bool {
        &&& -HALF_TURN_URAD < self.yaw <= HALF_TURN_URAD
        &&& -HALF_TURN_URAD <= self.pitch <= HALF_TURN_URAD
        &&& -HALF_TURN_URAD < self.roll <= HALF_TURN_URAD
    }

    /// The pitch is within the clamp bound (away from either pole).
    pub open spec fn pitch_clamped(self) -> bool {
        -PITCH_LIMIT_URAD <= self.pitch <= PITCH_LIMIT_URAD
    }

    /// The identity orientation.
    pub fn identity() -> (r: Orientation)
        ensures
            r == (Orientation { yaw: 0, pitch: 0, roll: 0 }),
            r.wf(),
            r.pitch_clamped(),
    {
        Orientation { yaw: 0, pitch: 0, roll: 0 }
    }
}

/// The orientation after one mouse-look update: unchanged on a zero delta;
/// otherwise yaw moves by `-dx * sens.x` (wrapped into one turn), pitch moves
/// by `-dy * sens.y` and is clamped, and roll is kept.
pub open spec fn look_spec(o: Orientation, s: CameraSensitivity, dx: int, dy: int) -> Orientation {
    if dx == 0 && dy == 0 {
        o
    } else {
        Orientation {
            yaw: wrap_urad_spec(o.yaw - dx * s.x) as i64,
            pitch: clamp_spec(
                o.pitch - dy * s.y,
                -PITCH_LIMIT_URAD as int,
                PITCH_LIMIT_URAD as int,
            ) as i64,
            roll: o.roll,
        }
    }
}

impl Orientation {
    /// One mouse-look update of this orientation.
    pub fn looked(self, s: &CameraSensitivity, dx: i64, dy: i64) -> (r: Orientation)
        requires
            self.wf(),
            s.wf(),
            -1_000_000_000 <= dx <= 1_000_000_000,
            -1_000_000_000 <= dy <= 1_000_000_000,
        ensures
            r == look_spec(self, *s, dx as int, dy as int),
            r.wf(),
            r.roll == self.roll,
            !(dx == 0 && dy == 0) ==> r.pitch_clamped(),
            self.pitch_clamped() ==> r.pitch_clamped(),
    {
        if dx == 0 && dy == 0 {
            return self;
        }
        proof {
            assert(-1_000_000_000_000_000 <= dx as int * s.x as int <= 1_000_000_000_000_000)
                by (nonlinear_arith)
                requires
                    -1_000_000_000 <= dx as int <= 1_000_000_000,
                    0 <= s.x as int <= 1_000_000,
            ;
            assert(-1_000_000_000_000_000 <= dy as int * s.y as int <= 1_000_000_000_000_000)
                by (nonlinear_arith)
                requires
                    -1_000_000_000 <= dy as int <= 1_000_000_000,
                    0 <= s.y as int <= 1_000_000,
            ;
        }
        let yaw_raw: i64 = self.yaw - dx * s.x;
        let pitch_raw: i64 = self.pitch - dy * s.y;
        Orientation {
            yaw: wrap_angle(yaw_raw),
            pitch: clamp_fx(pitch_raw, -PITCH_LIMIT_URAD, PITCH_LIMIT_URAD),
            roll: self.roll,
        }
    }
}

/// The orientation after a whole sequence of mouse-look updates, earliest
/// delta first.
pub open spec fn look_seq_spec(
    o: Orientation,
    s: CameraSensitivity,
    deltas: Seq<(i64, i64)>,
) -> Orientation
    decreases deltas.len(),
{
    if deltas.len() == 0 {
        o
    } else {
        look_spec(
            look_seq_spec(o, s, deltas.drop_last()),
            s,
            deltas.last().0 as int,
            deltas.last().1 as int,
        )
    }
}

/// Mouse look never touches roll: after any sequence of updates the roll is
/// the roll the orientation started with.
pub proof fn lemma_roll_invariant(o: Orientation, s: CameraSensitivity, deltas: Seq<(i64, i64)>)
    ensures
        look_seq_spec(o, s, deltas).roll == o.roll,
    decreases deltas.len(),
{
    if deltas.len() > 0 {
        lemma_roll_invariant(o, s, deltas.drop_last());
    }
}

/// The pitch clamp holds after any number of mouse-look updates: once the
/// pitch is within the clamp bound — in particular after any update with a
/// nonzero delta — every later update keeps it there.
pub proof fn lemma_pitch_clamped(o: Orientation, s: CameraSensitivity, deltas: Seq<(i64, i64)>)
    requires
        o.pitch_clamped() || exists|i: int|
            0 <= i < deltas.len() && !(deltas[i].0 == 0 && deltas[i].1 == 0),
    ensures
        look_seq_spec(o, s, deltas).pitch_clamped(),
    decreases deltas.len(),
{
    if deltas.len() > 0 {
        let last = deltas.last();
        if last.0 == 0 && last.1 == 0 {
            if !o.pitch_clamped() {
                let i = choose|i: int|
                    0 <= i < deltas.len() && !(deltas[i].0 == 0 && deltas[i].1 == 0);
                assert(0 <= i < deltas.len() - 1 && !(deltas.drop_last()[i].0 == 0
                    && deltas.drop_last()[i].1 == 0));
            }
            lemma_pitch_clamped(o, s, deltas.drop_last());
        }
    }
}

} // verus!
