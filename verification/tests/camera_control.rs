use view_model::angle::{wrap_angle, FULL_TURN_URAD, HALF_TURN_URAD, PITCH_LIMIT_URAD, QUARTER_TURN_URAD};
use view_model::fixed::Vec3Fx;
use view_model::movement::{direction, local_delta, world_delta, KeySet};
use view_model::orientation::{CameraSensitivity, Orientation};
use view_model::projection::{
    OrthographicFx, PerspectiveFx, Projection, FOV_MAX_URAD, FOV_MIN_URAD, ORTHO_SCALE_MAX,
    ORTHO_SCALE_MIN,
};
use view_model::trig::{cos_urad, sin_urad};

fn keys(forward: bool, back: bool, left: bool, right: bool, up: bool, down: bool) -> KeySet {
    KeySet { forward, back, left, right, up, down }
}

#[test]
fn wrap_angle_identity_within_turn() {
    assert_eq!(wrap_angle(0), 0);
    assert_eq!(wrap_angle(300), 300);
    assert_eq!(wrap_angle(-300_000), -300_000);
    assert_eq!(wrap_angle(HALF_TURN_URAD), HALF_TURN_URAD);
}

#[test]
fn wrap_angle_wraps_by_whole_turns() {
    assert_eq!(wrap_angle(HALF_TURN_URAD + 1), HALF_TURN_URAD + 1 - FULL_TURN_URAD);
    assert_eq!(wrap_angle(-HALF_TURN_URAD - 1), FULL_TURN_URAD - HALF_TURN_URAD - 1);
    assert_eq!(wrap_angle(FULL_TURN_URAD + 42), 42);
    assert_eq!(wrap_angle(-10 * FULL_TURN_URAD - 7), -7);
}

#[test]
fn sine_is_odd_and_bounded() {
    assert_eq!(sin_urad(0), 0);
    assert_eq!(sin_urad(HALF_TURN_URAD), 0);
    let s = sin_urad(QUARTER_TURN_URAD);
    assert!(s > 999_000 && s <= 1_000_000);
    assert_eq!(sin_urad(-QUARTER_TURN_URAD), -s);
    let t = sin_urad(523_599); // one sixth of a turn: sine one half
    assert!((t - 500_000).abs() < 2_000);
}

#[test]
fn cosine_is_even_and_bounded() {
    let c = cos_urad(0);
    assert!(c > 999_000 && c <= 1_000_000);
    assert_eq!(cos_urad(123_456), cos_urad(-123_456));
    let c3 = cos_urad(1_047_198); // one third of a half turn: cosine one half
    assert!((c3 - 500_000).abs() < 2_000);
}

#[test]
fn mouse_look_scenario_yaw_decreases() {
    // Mouse delta (100, 0) at sensitivity (0.003, 0.002): yaw falls 0.3 rad.
    let o = Orientation { yaw: 0, pitch: 0, roll: 0 };
    let s = CameraSensitivity::default();
    assert_eq!(s, CameraSensitivity { x: 3000, y: 2000 });
    let r = o.looked(&s, 100, 0);
    assert_eq!(r.yaw, -300_000);
    assert_eq!(r.pitch, 0);
    assert_eq!(r.roll, 0);
}

#[test]
fn mouse_look_wraps_yaw_past_half_turn() {
    // yaw near the seam plus a turn to the left crosses it and wraps
    let o = Orientation { yaw: 3_000_000, pitch: 0, roll: 0 };
    let s = CameraSensitivity::default();
    let r = o.looked(&s, -100, 0);
    assert_eq!(r.yaw, 3_300_000 - FULL_TURN_URAD);
}

#[test]
fn mouse_look_zero_delta_is_noop() {
    let o = Orientation { yaw: 55, pitch: -1_570_796, roll: 7 };
    let s = CameraSensitivity::default();
    assert_eq!(o.looked(&s, 0, 0), o);
}

#[test]
fn mouse_look_clamps_pitch_both_ways() {
    let s = CameraSensitivity::default();
    let o = Orientation { yaw: 0, pitch: 0, roll: 0 };
    let down = o.looked(&s, 0, 1_000_000_000);
    assert_eq!(down.pitch, -PITCH_LIMIT_URAD);
    let up = o.looked(&s, 0, -1_000_000_000);
    assert_eq!(up.pitch, PITCH_LIMIT_URAD);
}

#[test]
fn pitch_stays_clamped_over_many_updates() {
    let s = CameraSensitivity::default();
    let mut o = Orientation { yaw: 0, pitch: 0, roll: 0 };
    let deltas: [(i64, i64); 7] =
        [(5, -900_000), (0, 700_000), (-40, 900_000), (13, -1), (0, 0), (8, 550_000), (2, -999_999)];
    for step in 0..100 {
        let (dx, dy) = deltas[step % deltas.len()];
        o = o.looked(&s, dx, dy);
        assert!(-PITCH_LIMIT_URAD <= o.pitch && o.pitch <= PITCH_LIMIT_URAD);
        assert!(-HALF_TURN_URAD < o.yaw && o.yaw <= HALF_TURN_URAD);
    }
}

#[test]
fn roll_is_never_modified() {
    let s = CameraSensitivity::default();
    let mut o = Orientation { yaw: 10, pitch: 20, roll: 123_456 };
    for step in 0..50 {
        o = o.looked(&s, 17 - step, 1000 * step);
        assert_eq!(o.roll, 123_456);
    }
}

#[test]
fn diagonal_movement_is_normalized() {
    // W and D together: a unit vector at 45 degrees, not full speed twice.
    let k = keys(true, false, false, true, false, false);
    let d = direction(&k);
    assert_eq!(d, Vec3Fx { x: 707_107, y: 0, z: -707_107 });
    let delta = local_delta(&k, 1_000_000); // one second
    assert_eq!(delta, Vec3Fx { x: 3_535_535, y: 0, z: -3_535_535 });
    // each axis moves strictly slower than the single-axis speed
    assert!(delta.x.abs() < 5_000_000 && delta.z.abs() < 5_000_000);
}

#[test]
fn single_axis_movement_is_full_speed() {
    let k = keys(true, false, false, false, false, false);
    assert_eq!(direction(&k), Vec3Fx { x: 0, y: 0, z: -1_000_000 });
    assert_eq!(local_delta(&k, 1_000_000), Vec3Fx { x: 0, y: 0, z: -5_000_000 });
}

#[test]
fn no_keys_no_movement() {
    let k = KeySet::none();
    assert_eq!(direction(&k), Vec3Fx { x: 0, y: 0, z: 0 });
    assert_eq!(local_delta(&k, 1_000_000), Vec3Fx { x: 0, y: 0, z: 0 });
}

#[test]
fn cancelling_keys_no_movement() {
    let k = keys(true, true, true, true, false, false);
    assert_eq!(direction(&k), Vec3Fx { x: 0, y: 0, z: 0 });
}

#[test]
fn three_axis_movement_is_normalized() {
    let k = keys(true, false, false, true, true, false);
    assert_eq!(direction(&k), Vec3Fx { x: 577_350, y: 577_350, z: -577_350 });
}

#[test]
fn world_delta_at_identity_moves_forward() {
    let o = Orientation { yaw: 0, pitch: 0, roll: 0 };
    let k = keys(true, false, false, false, false, false);
    let w = world_delta(&o, &k, 1_000_000);
    assert_eq!(w.x, 0);
    assert_eq!(w.y, 0);
    assert!(w.z < -4_990_000 && w.z >= -5_000_000);
}

#[test]
fn world_delta_follows_yaw() {
    // After a quarter turn of yaw the same forward key moves along -x.
    let o = Orientation { yaw: QUARTER_TURN_URAD, pitch: 0, roll: 0 };
    let k = keys(true, false, false, false, false, false);
    let w = world_delta(&o, &k, 1_000_000);
    assert!(w.x < -4_990_000 && w.x >= -5_000_000);
    assert!(w.z.abs() < 10_000);
    assert_eq!(w.y, 0);
}

#[test]
fn zoom_ortho_scenario_scroll_out() {
    // Scroll -5 at scale 0.05: 0.05 * 1.5 = 0.075, inside the clamp.
    let p = Projection::Orthographic(OrthographicFx { scale: 50_000 });
    let r = p.zoomed(-5);
    assert_eq!(r, Projection::Orthographic(OrthographicFx { scale: 75_000 }));
}

#[test]
fn zoom_ortho_clamps_low_and_high() {
    let p = Projection::Orthographic(OrthographicFx { scale: 50_000 });
    assert_eq!(p.zoomed(1_000), Projection::Orthographic(OrthographicFx { scale: ORTHO_SCALE_MIN }));
    assert_eq!(
        p.zoomed(-1_000_000),
        Projection::Orthographic(OrthographicFx { scale: ORTHO_SCALE_MAX })
    );
}

#[test]
fn zoom_fov_steps_and_clamps() {
    let p = Projection::Perspective(PerspectiveFx {
        fov: 1_047_198,
        aspect_milli: 1000,
        near: 100_000,
        far: 1_000_000_000,
    });
    // one scroll tick in: fov * 19 / 20
    let r = p.zoomed(1);
    match r {
        Projection::Perspective(pp) => {
            assert_eq!(pp.fov, 1_047_198 * 19 / 20);
            assert_eq!(pp.near, 100_000);
            assert_eq!(pp.far, 1_000_000_000);
            assert_eq!(pp.aspect_milli, 1000);
        }
        _ => panic!("zoom changed the projection model"),
    }
    match p.zoomed(10_000) {
        Projection::Perspective(pp) => assert_eq!(pp.fov, FOV_MIN_URAD),
        _ => panic!("zoom changed the projection model"),
    }
    match p.zoomed(-10_000_000) {
        Projection::Perspective(pp) => assert_eq!(pp.fov, FOV_MAX_URAD),
        _ => panic!("zoom changed the projection model"),
    }
}

#[test]
fn zoom_zero_scroll_is_noop() {
    let p = Projection::Orthographic(OrthographicFx { scale: 12_345 });
    assert_eq!(p.zoomed(0), p);
}

#[test]
fn fov_stays_in_range_over_any_scrolls() {
    let mut p = Projection::Perspective(PerspectiveFx {
        fov: 1_047_198,
        aspect_milli: 1000,
        near: 100_000,
        far: 1_000_000_000,
    });
    let scrolls: [i64; 8] = [3, -9, 120, -50_000, 7, 19, -1, 2_000_000_000];
    for s in scrolls {
        p = p.zoomed(s);
        match p {
            Projection::Perspective(pp) => {
                assert!(FOV_MIN_URAD <= pp.fov && pp.fov <= FOV_MAX_URAD)
            }
            _ => panic!("zoom changed the projection model"),
        }
    }
}

#[test]
fn scale_stays_in_range_over_any_scrolls() {
    let mut p = Projection::Orthographic(OrthographicFx { scale: 50_000 });
    let scrolls: [i64; 8] = [-5, -5, -5, 40, -9_999_999, 8, 1, i64::MAX / 2];
    for s in scrolls {
        p = p.zoomed(s);
        match p {
            Projection::Orthographic(oo) => {
                assert!(ORTHO_SCALE_MIN <= oo.scale && oo.scale <= ORTHO_SCALE_MAX)
            }
            _ => panic!("zoom changed the projection model"),
        }
    }
}
