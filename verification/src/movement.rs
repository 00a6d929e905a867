//! Keyboard movement: the pressed-key set yields an intent vector on three
//! axes, the intent is normalized so diagonals are no faster than a single
//! axis, scaled by the fixed linear speed and the elapsed time, and expressed
//! in the player's local basis (forward, right, up) before it reaches the
//! position.  All six directions are mapped: the four planar keys plus the
//! vertical fly controls (Space and Shift).

use vstd::prelude::*;
use crate::fixed::{dot_micro, lemma_div_micro_bound, mul_micro, mul_micro_spec, Vec3Fx, MICRO};
use crate::orientation::Orientation;
use crate::trig::{cos_urad, cos_urad_spec, sin_urad, sin_urad_spec};

verus! {

/// Linear movement speed, in units per second.
pub const MOVE_SPEED_UNITS_PER_SEC: i64 = 5;

/// The movement keys that are currently pressed.
#[derive(Clone, Copy, Debug, PartialEq, Eq, Structural)]
pub struct KeySet {
    /// W
    pub forward: bool,
    /// S
    pub back: bool,
    /// A
    pub left: bool,
    /// D
    pub right: bool,
    /// Space
    pub up: bool,
    /// Either shift key
    pub down: bool,
}

impl KeySet {
    /// No movement key pressed.
    pub fn none() -> (r: KeySet)
        ensures
            r == (KeySet {
                forward: false,
                back: false,
                left: false,
                right: false,
                up: false,
                down: false,
            }),
    {
        KeySet { forward: false, back: false, left: false, right: false, up: false, down: false }
    }

    /// Whether any movement key is pressed.
    pub open spec fn any_pressed(self) -> bool {
        self.forward || self.back || self.left || self.right || self.up || self.down
    }
}

/// Whether the key set asks for any movement at all: some axis has exactly
/// one of its two keys pressed, so the intent does not cancel to zero.
pub open spec fn keys_moving(k: KeySet) -> bool {
    k.right != k.left || k.up != k.down || k.back != k.forward
}

/// One axis of movement intent: +1 for the positive key, -1 for the negative
/// key, 0 when neither or both are pressed.
pub open spec fn axis_spec(pos: bool, neg: bool) -> int {
    (if pos {
        1int
    } else {
        0int
    }) - (if neg {
        1int
    } else {
        0int
    })
}

/// Rightward intent (D minus A).
pub open spec fn intent_x(k: KeySet) -> int {
    axis_spec(k.right, k.left)
}

/// Upward intent (Space minus Shift).
pub open spec fn intent_y(k: KeySet) -> int {
    axis_spec(k.up, k.down)
}

/// Backward intent (S minus W): the camera looks along the negative z axis.
pub open spec fn intent_z(k: KeySet) -> int {
    axis_spec(k.back, k.forward)
}

/// The squared length of the intent vector, between 0 and 3.
pub open spec fn intent_sq(k: KeySet) -> int {
    intent_x(k) * intent_x(k) + intent_y(k) * intent_y(k) + intent_z(k) * intent_z(k)
}

/// The inverse length of an intent vector with squared length `sq`, in
/// micro-units, so that scaling the intent by it has unit length.
pub open spec fn inv_norm_spec(sq: int) -> int {
    if sq == 1 {
        1_000_000
    } else if sq == 2 {
        707_107
    } else if sq == 3 {
        577_350
    } else {
        0
    }
}

/// The normalized movement direction, in micro-units per axis.
pub open spec fn direction_spec(k: KeySet) -> (int, int, int) {
    let inv = inv_norm_spec(intent_sq(k));
    (intent_x(k) * inv, intent_y(k) * inv, intent_z(k) * inv)
}

/// One axis of movement intent.
fn axis(pos: bool, neg: bool) -> (r: i64)
    ensures
        r == axis_spec(pos, neg),
        -1 <= r <= 1,
{
    let p: i64 = if pos {
        1
    } else {
        0
    };
    let n: i64 = if neg {
        1
    } else {
        0
    };
    p - n
}

/// The normalized movement direction for a key set, in micro-units: the zero
/// vector when the intent cancels to zero, and a unit vector otherwise.
pub fn direction(k: &KeySet) -> (r: Vec3Fx)
    ensures
        (r.x as int, r.y as int, r.z as int) == direction_spec(*k),
        -1_000_000 <= r.x <= 1_000_000,
        -1_000_000 <= r.y <= 1_000_000,
        -1_000_000 <= r.z <= 1_000_000,
{
    let ix = axis(k.right, k.left);
    let iy = axis(k.up, k.down);
    let iz = axis(k.back, k.forward);
    proof {
        assert((ix as int * ix as int == 0 || ix as int * ix as int == 1) && (iy as int * iy as int
            == 0 || iy as int * iy as int == 1) && (iz as int * iz as int == 0 || iz as int
            * iz as int == 1)) by (nonlinear_arith)
            requires
                (ix as int == -1 || ix as int == 0 || ix as int == 1) && (iy as int == -1
                    || iy as int == 0 || iy as int == 1) && (iz as int == -1 || iz as int == 0
                    || iz as int == 1),
        ;
    }
    let sq: i64 = ix * ix + iy * iy + iz * iz;
    let inv: i64 = if sq == 1 {
        1_000_000
    } else if sq == 2 {
        707_107
    } else if sq == 3 {
        577_350
    } else {
        0
    };
    Vec3Fx { x: ix * inv, y: iy * inv, z: iz * inv }
}

/// The movement direction is exactly zero when no movement key is pressed,
/// and whenever the intent is nonzero it is a unit vector up to the
/// fixed-point grid: its squared length in squared micro-units differs from
/// one by at most one part in a million.
pub proof fn lemma_direction_unit(k: KeySet)
    ensures
        !k.any_pressed() ==> direction_spec(k) == (0int, 0int, 0int),
        intent_sq(k) != 0 ==> {
            let (dx, dy, dz) = direction_spec(k);
            let n = dx * dx + dy * dy + dz * dz;
            1_000_000_000_000 - 933_000 <= n <= 1_000_000_000_000 + 619_000
        },
{
    let ix = intent_x(k);
    let iy = intent_y(k);
    let iz = intent_z(k);
    let sq = intent_sq(k);
    let inv = inv_norm_spec(sq);
    let (dx, dy, dz) = direction_spec(k);
    assert(ix == -1 || ix == 0 || ix == 1);
    assert(iy == -1 || iy == 0 || iy == 1);
    assert(iz == -1 || iz == 0 || iz == 1);
    assert((ix * ix == 0 || ix * ix == 1) && (iy * iy == 0 || iy * iy == 1) && (iz * iz == 0
        || iz * iz == 1)) by (nonlinear_arith)
        requires
            (ix == -1 || ix == 0 || ix == 1) && (iy == -1 || iy == 0 || iy == 1) && (iz == -1
                || iz == 0 || iz == 1),
    ;
    assert(dx * dx == (ix * ix) * (inv * inv)) by (nonlinear_arith)
        requires
            dx == ix * inv,
    ;
    assert(dy * dy == (iy * iy) * (inv * inv)) by (nonlinear_arith)
        requires
            dy == iy * inv,
    ;
    assert(dz * dz == (iz * iz) * (inv * inv)) by (nonlinear_arith)
        requires
            dz == iz * inv,
    ;
    assert(sq * (inv * inv) == (ix * ix) * (inv * inv) + (iy * iy) * (inv * inv) + (iz * iz) * (inv
        * inv)) by (nonlinear_arith)
        requires
            sq == ix * ix + iy * iy + iz * iz,
    ;
    assert(dx * dx + dy * dy + dz * dz == sq * (inv * inv));
}

/// The local displacement of one frame: the normalized direction scaled by
/// the linear speed and the elapsed time, in micro-units per axis.
pub open spec fn local_delta_spec(k: KeySet, dt_micros: int) -> (int, int, int) {
    let (dx, dy, dz) = direction_spec(k);
    let dist = MOVE_SPEED_UNITS_PER_SEC * dt_micros;
    (
        mul_micro_spec(dx, dist),
        mul_micro_spec(dy, dist),
        mul_micro_spec(dz, dist),
    )
}

/// The local displacement of one frame.
pub fn local_delta(k: &KeySet, dt_micros: u64) -> (r: Vec3Fx)
    requires
        dt_micros <= 1_000_000_000,
    ensures
        (r.x as int, r.y as int, r.z as int) == local_delta_spec(*k, dt_micros as int),
        -5_000_000_000 <= r.x <= 5_000_000_000,
        -5_000_000_000 <= r.y <= 5_000_000_000,
        -5_000_000_000 <= r.z <= 5_000_000_000,
{
    let d = direction(k);
    let dist: i64 = MOVE_SPEED_UNITS_PER_SEC * (dt_micros as i64);
    proof {
        lemma_scaled_axis_bound(d.x as int, dist as int);
        lemma_scaled_axis_bound(d.y as int, dist as int);
        lemma_scaled_axis_bound(d.z as int, dist as int);
    }
    Vec3Fx {
        x: mul_micro(d.x, dist),
        y: mul_micro(d.y, dist),
        z: mul_micro(d.z, dist),
    }
}

proof fn lemma_scaled_axis_bound(c: int, dist: int)
    requires
        -1_000_000 <= c <= 1_000_000,
        0 <= dist <= 5_000_000_000,
    ensures
        -5_000_000_000_000_000 <= c * dist <= 5_000_000_000_000_000,
        -5_000_000_000 <= mul_micro_spec(c, dist) <= 5_000_000_000,
{
    assert(-5_000_000_000_000_000 <= c * dist <= 5_000_000_000_000_000) by (nonlinear_arith)
        requires
            -1_000_000 <= c <= 1_000_000,
            0 <= dist <= 5_000_000_000,
    ;
    lemma_div_micro_bound(c * dist, 5_000_000_000);
}

/// The local basis of an orientation: the unit vectors the player calls
/// forward, right and up, in micro-units, computed from the Y-X-Z Euler
/// angles with the crate's fixed-point sine and cosine.
pub open spec fn basis_forward_spec(o: Orientation) -> (int, int, int) {
    let sy = sin_urad_spec(o.yaw as int);
    let cy = cos_urad_spec(o.yaw as int);
    let sp = sin_urad_spec(o.pitch as int);
    let cp = cos_urad_spec(o.pitch as int);
    (mul_micro_spec(-cp, sy), sp, mul_micro_spec(-cp, cy))
}

/// The rightward basis vector of an orientation, in micro-units.
pub open spec fn basis_right_spec(o: Orientation) -> (int, int, int) {
    let sy = sin_urad_spec(o.yaw as int);
    let cy = cos_urad_spec(o.yaw as int);
    let sp = sin_urad_spec(o.pitch as int);
    let cp = cos_urad_spec(o.pitch as int);
    let sr = sin_urad_spec(o.roll as int);
    let cr = cos_urad_spec(o.roll as int);
    let srsp = mul_micro_spec(sr, sp);
    (
        (cr * cy + srsp * sy) / (MICRO as int),
        mul_micro_spec(sr, cp),
        (-cr * sy + srsp * cy) / (MICRO as int),
    )
}

/// The upward basis vector of an orientation, in micro-units.
pub open spec fn basis_up_spec(o: Orientation) -> (int, int, int) {
    let sy = sin_urad_spec(o.yaw as int);
    let cy = cos_urad_spec(o.yaw as int);
    let sp = sin_urad_spec(o.pitch as int);
    let cp = cos_urad_spec(o.pitch as int);
    let sr = sin_urad_spec(o.roll as int);
    let cr = cos_urad_spec(o.roll as int);
    let crsp = mul_micro_spec(cr, sp);
    (
        (-sr * cy + crsp * sy) / (MICRO as int),
        mul_micro_spec(cr, cp),
        (sr * sy + crsp * cy) / (MICRO as int),
    )
}

/// The three basis vectors of an orientation.
pub fn basis(o: &Orientation) -> (r: (Vec3Fx, Vec3Fx, Vec3Fx))
    requires
        o.wf(),
    ensures
        (r.0.x as int, r.0.y as int, r.0.z as int) == basis_forward_spec(*o),
        (r.1.x as int, r.1.y as int, r.1.z as int) == basis_right_spec(*o),
        (r.2.x as int, r.2.y as int, r.2.z as int) == basis_up_spec(*o),
        bounded_unit(r.0) && bounded_unit(r.1) && bounded_unit(r.2),
{
    let sy = sin_urad(o.yaw);
    let cy = cos_urad(o.yaw);
    let sp = sin_urad(o.pitch);
    let cp = cos_urad(o.pitch);
    let sr = sin_urad(o.roll);
    let cr = cos_urad(o.roll);
    proof {
        lemma_unit_products(cp as int, sy as int);
        lemma_unit_products(cp as int, cy as int);
        lemma_unit_products(sr as int, sp as int);
        lemma_unit_products(sr as int, cp as int);
        lemma_unit_products(cr as int, sp as int);
        lemma_unit_products(cr as int, cp as int);
    }
    let fwd = Vec3Fx { x: mul_micro(-cp, sy), y: sp, z: mul_micro(-cp, cy) };
    let srsp = mul_micro(sr, sp);
    let crsp = mul_micro(cr, sp);
    proof {
        lemma_pair_dot_bound(cr as int, cy as int, srsp as int, sy as int);
        lemma_pair_dot_bound(-cr as int, sy as int, srsp as int, cy as int);
        lemma_pair_dot_bound(-sr as int, cy as int, crsp as int, sy as int);
        lemma_pair_dot_bound(sr as int, sy as int, crsp as int, cy as int);
    }
    let right = Vec3Fx {
        x: dot_micro(Vec3Fx { x: cr, y: srsp, z: 0 }, Vec3Fx { x: cy, y: sy, z: 0 }),
        y: mul_micro(sr, cp),
        z: dot_micro(Vec3Fx { x: -cr, y: srsp, z: 0 }, Vec3Fx { x: sy, y: cy, z: 0 }),
    };
    let up = Vec3Fx {
        x: dot_micro(Vec3Fx { x: -sr, y: crsp, z: 0 }, Vec3Fx { x: cy, y: sy, z: 0 }),
        y: mul_micro(cr, cp),
        z: dot_micro(Vec3Fx { x: sr, y: crsp, z: 0 }, Vec3Fx { x: sy, y: cy, z: 0 }),
    };
    (fwd, right, up)
}

/// Every coordinate is within twice a micro-unit: the coarse bound the
/// world-space displacement needs to stay clear of overflow.
pub open spec fn bounded_unit(v: Vec3Fx) -> bool {
    &&& -2_000_000 <= v.x <= 2_000_000
    &&& -2_000_000 <= v.y <= 2_000_000
    &&& -2_000_000 <= v.z <= 2_000_000
}

proof fn lemma_unit_products(a: int, b: int)
    requires
        -1_000_000 <= a <= 1_000_000,
        -1_000_000 <= b <= 1_000_000,
    ensures
        -1_000_000_000_000 <= a * b <= 1_000_000_000_000,
        -1_000_000 <= mul_micro_spec(a, b) <= 1_000_000,
        -1_000_000 <= mul_micro_spec(-a, b) <= 1_000_000,
{
    assert(-1_000_000_000_000 <= a * b <= 1_000_000_000_000 && -1_000_000_000_000 <= (-a) * b
        <= 1_000_000_000_000) by (nonlinear_arith)
        requires
            -1_000_000 <= a <= 1_000_000,
            -1_000_000 <= b <= 1_000_000,
    ;
    lemma_div_micro_bound(a * b, 1_000_000);
    lemma_div_micro_bound((-a) * b, 1_000_000);
}

proof fn lemma_pair_dot_bound(a0: int, b0: int, a1: int, b1: int)
    requires
        -1_000_000 <= a0 <= 1_000_000,
        -1_000_000 <= b0 <= 1_000_000,
        -1_000_000 <= a1 <= 1_000_000,
        -1_000_000 <= b1 <= 1_000_000,
    ensures
        -1_000_000_000_000 <= a0 * b0 <= 1_000_000_000_000,
        -1_000_000_000_000 <= a1 * b1 <= 1_000_000_000_000,
        -2_000_000 <= (a0 * b0 + a1 * b1 + 0 * 0) / (MICRO as int) <= 2_000_000,
{
    lemma_unit_products(a0, b0);
    lemma_unit_products(a1, b1);
    lemma_div_micro_bound(a0 * b0 + a1 * b1, 2_000_000);
}

/// The world-space displacement: the local displacement carried onto the
/// basis vectors, `forward * (-delta.z) + right * delta.x + up * delta.y`.
pub open spec fn world_delta_spec(o: Orientation, k: KeySet, dt_micros: int) -> (int, int, int) {
    let f = basis_forward_spec(o);
    let r = basis_right_spec(o);
    let u = basis_up_spec(o);
    let (lx, ly, lz) = local_delta_spec(k, dt_micros);
    (
        (f.0 * -lz + r.0 * lx + u.0 * ly) / (MICRO as int),
        (f.1 * -lz + r.1 * lx + u.1 * ly) / (MICRO as int),
        (f.2 * -lz + r.2 * lx + u.2 * ly) / (MICRO as int),
    )
}

/// The world-space displacement of one frame, in micro-units.
pub fn world_delta(o: &Orientation, k: &KeySet, dt_micros: u64) -> (r: Vec3Fx)
    requires
        o.wf(),
        dt_micros <= 1_000_000_000,
    ensures
        (r.x as int, r.y as int, r.z as int) == world_delta_spec(*o, *k, dt_micros as int),
        -31_000_000_000 <= r.x <= 31_000_000_000,
        -31_000_000_000 <= r.y <= 31_000_000_000,
        -31_000_000_000 <= r.z <= 31_000_000_000,
{
    let (fwd, right, up) = basis(o);
    let l = local_delta(k, dt_micros);
    proof {
        lemma_world_axis_bound(fwd.x as int, right.x as int, up.x as int, l.x as int, l.y as int,
            l.z as int);
        lemma_world_axis_bound(fwd.y as int, right.y as int, up.y as int, l.x as int, l.y as int,
            l.z as int);
        lemma_world_axis_bound(fwd.z as int, right.z as int, up.z as int, l.x as int, l.y as int,
            l.z as int);
    }
    let carrier_x = Vec3Fx { x: fwd.x, y: right.x, z: up.x };
    let carrier_y = Vec3Fx { x: fwd.y, y: right.y, z: up.y };
    let carrier_z = Vec3Fx { x: fwd.z, y: right.z, z: up.z };
    let coeff = Vec3Fx { x: -l.z, y: l.x, z: l.y };
    Vec3Fx {
        x: dot_micro(carrier_x, coeff),
        y: dot_micro(carrier_y, coeff),
        z: dot_micro(carrier_z, coeff),
    }
}

proof fn lemma_world_axis_bound(f: int, r: int, u: int, lx: int, ly: int, lz: int)
    requires
        -2_000_000 <= f <= 2_000_000,
        -2_000_000 <= r <= 2_000_000,
        -2_000_000 <= u <= 2_000_000,
        -5_000_000_000 <= lx <= 5_000_000_000,
        -5_000_000_000 <= ly <= 5_000_000_000,
        -5_000_000_000 <= lz <= 5_000_000_000,
    ensures
        -10_000_000_000_000_000 <= f * -lz <= 10_000_000_000_000_000,
        -10_000_000_000_000_000 <= r * lx <= 10_000_000_000_000_000,
        -10_000_000_000_000_000 <= u * ly <= 10_000_000_000_000_000,
        -31_000_000_000 <= (f * -lz + r * lx + u * ly) / (MICRO as int) <= 31_000_000_000,
{
    assert(-10_000_000_000_000_000 <= f * -lz <= 10_000_000_000_000_000 && -10_000_000_000_000_000
        <= r * lx <= 10_000_000_000_000_000 && -10_000_000_000_000_000 <= u * ly
        <= 10_000_000_000_000_000) by (nonlinear_arith)
        requires
            -2_000_000 <= f <= 2_000_000,
            -2_000_000 <= r <= 2_000_000,
            -2_000_000 <= u <= 2_000_000,
            -5_000_000_000 <= lx <= 5_000_000_000,
            -5_000_000_000 <= ly <= 5_000_000_000,
            -5_000_000_000 <= lz <= 5_000_000_000,
    ;
    lemma_div_micro_bound(f * -lz + r * lx + u * ly, 31_000_000_000);
}

} // verus!
