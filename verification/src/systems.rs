//! The per-frame camera-control systems.  Each system queries the entity
//! store for exactly one match; with zero or several matches the frame's
//! update is silently skipped, never an error.  Mouse look turns the player
//! rig, keyboard movement translates it along its own basis, and zoom steps
//! the world camera's projection.

use vstd::prelude::*;
use vstd::pervasive::VecAdditionalExecFns;
use crate::fixed::Vec3Fx;
use crate::movement::{keys_moving, world_delta, world_delta_spec, KeySet};
use crate::orientation::{look_spec, CameraSensitivity};
use crate::projection::zoom_spec;
use crate::scene::{CameraFx, Entity, TransformFx, World};

verus! {

/// Which entities a system asks the store for.
#[derive(Clone, Copy, Debug, PartialEq, Eq, Structural)]
pub enum SystemQuery {
    /// The player rig with its sensitivity: the mouse-look target.
    PlayerRig,
    /// The player rig's transform: the movement target.
    PlayerBody,
    /// The world camera's projection: the zoom target.
    ZoomTarget,
}

impl SystemQuery {
    /// Whether an entity answers this query.
    pub open spec fn matches(self, e: Entity) -> bool {
        match self {
            SystemQuery::PlayerRig => e.is_player && e.sensitivity is Some,
            SystemQuery::PlayerBody => e.is_player,
            SystemQuery::ZoomTarget => e.is_world_model_camera && e.camera is Some,
        }
    }
}

/// How many entities of the store answer a query.
pub open spec fn count_matching(s: Seq<Entity>, q: SystemQuery) -> nat
    decreases s.len(),
{
    if s.len() == 0 {
        0
    } else {
        count_matching(s.drop_last(), q) + if q.matches(s.last()) {
            1nat
        } else {
            0nat
        }
    }
}

/// The index of the one entity answering a query, meaningful when exactly
/// one does.
pub open spec fn the_match(s: Seq<Entity>, q: SystemQuery) -> int {
    choose|i: int| 0 <= i < s.len() && q.matches(s[i])
}

proof fn lemma_match_counts(s: Seq<Entity>, q: SystemQuery, i: int)
    requires
        0 <= i < s.len(),
        q.matches(s[i]),
    ensures
        count_matching(s, q) >= 1,
    decreases s.len(),
{
    if i < s.len() - 1 {
        lemma_match_counts(s.drop_last(), q, i);
    }
}

proof fn lemma_two_matches(s: Seq<Entity>, q: SystemQuery, i: int, j: int)
    requires
        0 <= i < j < s.len(),
        q.matches(s[i]),
        q.matches(s[j]),
    ensures
        count_matching(s, q) >= 2,
    decreases s.len(),
{
    if j == s.len() - 1 {
        lemma_match_counts(s.drop_last(), q, i);
    } else {
        lemma_two_matches(s.drop_last(), q, i, j);
    }
}

/// A positive count means the matching index is a real, matching position.
pub proof fn lemma_count_pos(s: Seq<Entity>, q: SystemQuery)
    requires
        count_matching(s, q) >= 1,
    ensures
        0 <= the_match(s, q) < s.len(),
        q.matches(s[the_match(s, q)]),
    decreases s.len(),
{
    if q.matches(s.last()) {
        assert(0 <= s.len() - 1 < s.len() && q.matches(s[s.len() - 1]));
    } else {
        lemma_count_pos(s.drop_last(), q);
        let w = the_match(s.drop_last(), q);
        assert(0 <= w < s.len() && q.matches(s[w]));
    }
}

/// With exactly one match, any matching index is the matching index.
proof fn lemma_the_match(s: Seq<Entity>, q: SystemQuery, w: int)
    requires
        0 <= w < s.len(),
        q.matches(s[w]),
        count_matching(s, q) == 1,
    ensures
        the_match(s, q) == w,
{
    assert(exists|i: int| 0 <= i < s.len() && q.matches(s[i]));
    let c = the_match(s, q);
    if c != w {
        if c < w {
            lemma_two_matches(s, q, c, w);
        } else {
            lemma_two_matches(s, q, w, c);
        }
    }
}

fn matches_query(q: SystemQuery, e: &Entity) -> (r: bool)
    ensures
        r == q.matches(*e),
{
    match q {
        SystemQuery::PlayerRig => e.is_player && e.sensitivity.is_some(),
        SystemQuery::PlayerBody => e.is_player,
        SystemQuery::ZoomTarget => e.is_world_model_camera && e.camera.is_some(),
    }
}

/// Find the single entity answering a query: its index if exactly one
/// entity matches, and nothing otherwise.
pub fn find_single(entities: &Vec<Entity>, q: SystemQuery) -> (r: Option<usize>)
    ensures
        r matches Some(i) ==> count_matching(entities@, q) == 1 && i < entities@.len()
            && q.matches(entities@[i as int]) && i as int == the_match(entities@, q),
        r is None ==> count_matching(entities@, q) != 1,
{
    let n = entities.len();
    let mut k: usize = 0;
    let mut cnt: usize = 0;
    let mut found: usize = 0;
    while k < n
        invariant
            k <= n == entities@.len(),
            cnt == count_matching(entities@.subrange(0, k as int), q),
            cnt <= k,
            cnt >= 1 ==> found < k && q.matches(entities@[found as int]),
        decreases n - k,
    {
        proof {
            assert(entities@.subrange(0, k + 1 as int).drop_last() =~= entities@.subrange(
                0,
                k as int,
            ));
            assert(entities@.subrange(0, k + 1 as int).last() == entities@[k as int]);
        }
        if matches_query(q, &entities[k]) {
            if cnt == 0 {
                found = k;
            }
            cnt = cnt + 1;
        }
        k = k + 1;
    }
    proof {
        assert(entities@.subrange(0, n as int) =~= entities@);
    }
    if cnt == 1 {
        proof {
            lemma_the_match(entities@, q, found as int);
        }
        Some(found)
    } else {
        None
    }
}

/// The entity store after one mouse-look step: with exactly one player rig,
/// that rig's rotation is updated by the delta and its sensitivity; with
/// zero or several rigs nothing changes.
pub open spec fn mouse_step_spec(s: Seq<Entity>, dx: int, dy: int) -> Seq<Entity> {
    if count_matching(s, SystemQuery::PlayerRig) == 1 {
        let i = the_match(s, SystemQuery::PlayerRig);
        let e = s[i];
        // a matching rig always carries a sensitivity; the fallback only
        // keeps the spec total
        let sens = match e.sensitivity {
            Option::Some(v) => v,
            Option::None => CameraSensitivity { x: 0, y: 0 },
        };
        s.update(
            i,
            Entity {
                transform: TransformFx {
                    translation: e.transform.translation,
                    rotation: look_spec(e.transform.rotation, sens, dx, dy),
                },
                ..e
            },
        )
    } else {
        s
    }
}

/// Turn the single player rig by the frame's accumulated mouse delta.
pub fn move_player_mouse(world: &mut World, dx: i64, dy: i64)
    requires
        old(world)@.wf(),
        -1_000_000_000 <= dx <= 1_000_000_000,
        -1_000_000_000 <= dy <= 1_000_000_000,
    ensures
        final(world)@.entities == mouse_step_spec(old(world)@.entities, dx as int, dy as int),
        final(world)@.meshes == old(world)@.meshes,
        final(world)@.materials == old(world)@.materials,
        final(world)@.ambient == old(world)@.ambient,
        final(world)@.wf(),
{
    match find_single(&world.entities, SystemQuery::PlayerRig) {
        Some(i) => {
            let e = world.entities[i];
            proof {
                assert(old(world)@.entities[i as int].wf(
                    old(world)@.meshes.len() as int,
                    old(world)@.materials.len() as int,
                    old(world)@.entities.len() as int,
                ));
            }
            let sens = match e.sensitivity {
                Some(v) => v,
                None => CameraSensitivity { x: 0, y: 0 },
            };
            let turned = Entity {
                transform: TransformFx {
                    translation: e.transform.translation,
                    rotation: e.transform.rotation.looked(&sens, dx, dy),
                },
                ..e
            };
            world.entities.set(i, turned);
            proof {
                lemma_wf_after_update(old(world)@.entities, world@.entities, i as int, world@);
            }
        },
        None => {},
    }
}

/// The entity store after one keyboard step: with exactly one player and a
/// noncancelling key set, the player moves by the world-space displacement
/// of its own basis; otherwise nothing changes.
pub open spec fn keyboard_step_spec(s: Seq<Entity>, keys: KeySet, dt_micros: int) -> Seq<Entity> {
    if count_matching(s, SystemQuery::PlayerBody) == 1 && keys_moving(keys) {
        let i = the_match(s, SystemQuery::PlayerBody);
        let e = s[i];
        let (wx, wy, wz) = world_delta_spec(e.transform.rotation, keys, dt_micros);
        s.update(
            i,
            Entity {
                transform: TransformFx {
                    translation: Vec3Fx {
                        x: (e.transform.translation.x + wx) as i64,
                        y: (e.transform.translation.y + wy) as i64,
                        z: (e.transform.translation.z + wz) as i64,
                    },
                    rotation: e.transform.rotation,
                },
                ..e
            },
        )
    } else {
        s
    }
}

/// Every player entity's position is at most `bound` micro-units from the
/// origin on each axis.
pub open spec fn players_within(s: Seq<Entity>, bound: int) -> bool {
    forall|i: int|
        0 <= i < s.len() && (#[trigger] s[i]).is_player ==> {
            let t = s[i].transform.translation;
            -bound <= t.x <= bound && -bound <= t.y <= bound && -bound <= t.z <= bound
        }
}

/// Move the single player by the pressed keys and the elapsed time.
pub fn move_player_keyboard(world: &mut World, keys: &KeySet, dt_micros: u64)
    requires
        old(world)@.wf(),
        dt_micros <= 1_000_000_000,
        players_within(old(world)@.entities, 1_000_000_000_000_000),
    ensures
        final(world)@.entities == keyboard_step_spec(old(world)@.entities, *keys, dt_micros as int),
        final(world)@.meshes == old(world)@.meshes,
        final(world)@.materials == old(world)@.materials,
        final(world)@.ambient == old(world)@.ambient,
        final(world)@.wf(),
{
    let moving = (keys.right != keys.left) || (keys.up != keys.down) || (keys.back
        != keys.forward);
    if !moving {
        return ;
    }
    match find_single(&world.entities, SystemQuery::PlayerBody) {
        Some(i) => {
            let e = world.entities[i];
            proof {
                assert(old(world)@.entities[i as int].wf(
                    old(world)@.meshes.len() as int,
                    old(world)@.materials.len() as int,
                    old(world)@.entities.len() as int,
                ));
                assert(old(world)@.entities[i as int].is_player);
            }
            let w = world_delta(&e.transform.rotation, keys, dt_micros);
            let moved = Entity {
                transform: TransformFx {
                    translation: Vec3Fx {
                        x: e.transform.translation.x + w.x,
                        y: e.transform.translation.y + w.y,
                        z: e.transform.translation.z + w.z,
                    },
                    rotation: e.transform.rotation,
                },
                ..e
            };
            world.entities.set(i, moved);
            proof {
                lemma_wf_after_update(old(world)@.entities, world@.entities, i as int, world@);
            }
        },
        None => {},
    }
}

/// The entity store after one zoom step: with exactly one world camera, its
/// projection takes one scroll step of its zoom model; otherwise nothing
/// changes.
pub open spec fn zoom_step_spec(s: Seq<Entity>, scroll: int) -> Seq<Entity> {
    if count_matching(s, SystemQuery::ZoomTarget) == 1 {
        let i = the_match(s, SystemQuery::ZoomTarget);
        let e = s[i];
        // a matching camera always carries a projection; the fallback only
        // keeps the spec total
        let cam = match e.camera {
            Option::Some(c) => c,
            Option::None => CameraFx {
                order: 0,
                clear_disabled: false,
                projection: crate::projection::Projection::Orthographic(
                    crate::projection::OrthographicFx { scale: 10_000 },
                ),
            },
        };
        s.update(
            i,
            Entity {
                camera: Option::Some(
                    CameraFx { projection: zoom_spec(cam.projection, scroll), ..cam },
                ),
                ..e
            },
        )
    } else {
        s
    }
}

/// Step the single world camera's projection by the frame's accumulated
/// scroll.  With zero (or several) matching cameras the frame is a no-op.
pub fn zoom_camera(world: &mut World, scroll: i64)
    requires
        old(world)@.wf(),
    ensures
        final(world)@.entities == zoom_step_spec(old(world)@.entities, scroll as int),
        final(world)@.meshes == old(world)@.meshes,
        final(world)@.materials == old(world)@.materials,
        final(world)@.ambient == old(world)@.ambient,
        final(world)@.wf(),
{
    match find_single(&world.entities, SystemQuery::ZoomTarget) {
        Some(i) => {
            let e = world.entities[i];
            proof {
                assert(old(world)@.entities[i as int].wf(
                    old(world)@.meshes.len() as int,
                    old(world)@.materials.len() as int,
                    old(world)@.entities.len() as int,
                ));
            }
            let cam = match e.camera {
                Some(c) => c,
                None => CameraFx {
                    order: 0,
                    clear_disabled: false,
                    projection: crate::projection::Projection::Orthographic(
                        crate::projection::OrthographicFx { scale: 10_000 },
                    ),
                },
            };
            let zoomed = Entity {
                camera: Some(CameraFx { projection: cam.projection.zoomed(scroll), ..cam }),
                ..e
            };
            world.entities.set(i, zoomed);
            proof {
                lemma_wf_after_update(old(world)@.entities, world@.entities, i as int, world@);
            }
        },
        None => {},
    }
}

/// Updating one entity to a well-formed replacement keeps the whole store
/// well-formed, since the stores' lengths are unchanged.
proof fn lemma_wf_after_update(
    before: Seq<Entity>,
    after: Seq<Entity>,
    at: int,
    w: crate::scene::WorldView,
)
    requires
        0 <= at < before.len(),
        after == w.entities,
        after.len() == before.len(),
        forall|i: int| 0 <= i < before.len() && i != at ==> after[i] == before[i],
        forall|i: int|
            0 <= i < before.len() ==> (#[trigger] before[i]).wf(
                w.meshes.len() as int,
                w.materials.len() as int,
                before.len() as int,
            ),
        after[at].wf(w.meshes.len() as int, w.materials.len() as int, after.len() as int),
    ensures
        w.wf(),
{
    assert forall|i: int| 0 <= i < after.len() implies (#[trigger] after[i]).wf(
        w.meshes.len() as int,
        w.materials.len() as int,
        after.len() as int,
    ) by {
        if i != at {
            assert(before[i].wf(
                w.meshes.len() as int,
                w.materials.len() as int,
                before.len() as int,
            ));
        }
    }
}

} // verus!
