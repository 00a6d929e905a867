//! Registration and the game loop.  Plugins append their systems to an
//! explicit schedule: startup systems run once, in registration order, and
//! the update systems run once per frame, in registration order, fed the
//! frame's accumulated input.

use vstd::prelude::*;
use crate::movement::KeySet;
use crate::scene::{
    arm_entity_spec, arm_material_spec, arm_mesh_spec, bulb_entity_spec, bulb_material_spec,
    bulb_mesh_spec, cube_positions_spec, cube_mesh_spec, directional_light_spec, floor_mesh_spec,
    player_rig_spec, prop_entity_spec, scene_camera_spec, setup, setup_camera, spawn_lights,
    spawn_view_model, spawn_world_model, view_model_camera_spec, white_material_spec,
    world_camera_spec, ambient_light_spec, Entity, World, WorldView,
};
use crate::fixed::Vec3Fx;
use crate::systems::{
    keyboard_step_spec, mouse_step_spec, move_player_keyboard, move_player_mouse, players_within,
    zoom_camera, zoom_step_spec,
};

verus! {

/// The systems the two plugins register.
#[derive(Clone, Copy, Debug, PartialEq, Eq, Structural)]
pub enum SystemLabel {
    SpawnViewModel,
    SpawnWorldModel,
    SpawnLights,
    SetupCamera,
    Setup,
    MovePlayerMouse,
    MovePlayerKeyboard,
    ZoomCamera,
}

/// The schedule: which systems run at startup and which every frame.
pub struct AppSchedule {
    pub startup: Vec<SystemLabel>,
    pub update: Vec<SystemLabel>,
}

impl AppSchedule {
    /// An empty schedule.
    pub fn new() -> (r: AppSchedule)
        ensures
            r.startup@ == Seq::<SystemLabel>::empty(),
            r.update@ == Seq::<SystemLabel>::empty(),
    {
        AppSchedule { startup: Vec::new(), update: Vec::new() }
    }
}

/// Registers the scene spawners as startup systems.
pub struct GraphicsPlugin;

impl GraphicsPlugin {
    /// Append the three spawners, in order, to the startup schedule.
    pub fn build(&self, app: &mut AppSchedule)
        ensures
            final(app).startup@ == old(app).startup@ + seq![
                SystemLabel::SpawnViewModel,
                SystemLabel::SpawnWorldModel,
                SystemLabel::SpawnLights,
            ],
            final(app).update@ == old(app).update@,
    {
        app.startup.push(SystemLabel::SpawnViewModel);
        app.startup.push(SystemLabel::SpawnWorldModel);
        app.startup.push(SystemLabel::SpawnLights);
        proof {
            assert(app.startup@ =~= old(app).startup@ + seq![
                SystemLabel::SpawnViewModel,
                SystemLabel::SpawnWorldModel,
                SystemLabel::SpawnLights,
            ]);
        }
    }
}

/// Registers the camera-control systems as per-frame systems.
pub struct InputPlugin;

impl InputPlugin {
    /// Append the three camera-control systems, in order, to the update
    /// schedule.
    pub fn build(&self, app: &mut AppSchedule)
        ensures
            final(app).update@ == old(app).update@ + seq![
                SystemLabel::MovePlayerMouse,
                SystemLabel::MovePlayerKeyboard,
                SystemLabel::ZoomCamera,
            ],
            final(app).startup@ == old(app).startup@,
    {
        app.update.push(SystemLabel::MovePlayerMouse);
        app.update.push(SystemLabel::MovePlayerKeyboard);
        app.update.push(SystemLabel::ZoomCamera);
        proof {
            assert(app.update@ =~= old(app).update@ + seq![
                SystemLabel::MovePlayerMouse,
                SystemLabel::MovePlayerKeyboard,
                SystemLabel::ZoomCamera,
            ]);
        }
    }
}

/// The schedule both plugins build on an empty app: the three spawners at
/// startup and the three camera-control systems each frame.
pub fn default_app() -> (r: AppSchedule)
    ensures
        r.startup@ == seq![
            SystemLabel::SpawnViewModel,
            SystemLabel::SpawnWorldModel,
            SystemLabel::SpawnLights,
        ],
        r.update@ == seq![
            SystemLabel::MovePlayerMouse,
            SystemLabel::MovePlayerKeyboard,
            SystemLabel::ZoomCamera,
        ],
{
    let mut app = AppSchedule::new();
    let graphics = GraphicsPlugin;
    let input = InputPlugin;
    graphics.build(&mut app);
    input.build(&mut app);
    proof {
        assert(app.startup@ =~= seq![
            SystemLabel::SpawnViewModel,
            SystemLabel::SpawnWorldModel,
            SystemLabel::SpawnLights,
        ]);
        assert(app.update@ =~= seq![
            SystemLabel::MovePlayerMouse,
            SystemLabel::MovePlayerKeyboard,
            SystemLabel::ZoomCamera,
        ]);
    }
    app
}

/// One frame's accumulated input: the mouse motion and scroll since the
/// last frame, the pressed keys, and the elapsed time.
#[derive(Clone, Copy, Debug, PartialEq, Eq, Structural)]
pub struct FrameInput {
    pub mouse_dx: i64,
    pub mouse_dy: i64,
    pub keys: KeySet,
    pub dt_micros: u64,
    pub scroll: i64,
}

impl FrameInput {
    /// Admissible input: mouse deltas within a billion counts and at most a
    /// thousand seconds between frames.
    pub open spec fn wf(self) -> bool {
        &&& -1_000_000_000 <= self.mouse_dx <= 1_000_000_000
        &&& -1_000_000_000 <= self.mouse_dy <= 1_000_000_000
        &&& self.dt_micros <= 1_000_000_000
    }

    /// A frame with no input at all.
    pub fn idle() -> (r: FrameInput)
        ensures
            r == (FrameInput {
                mouse_dx: 0,
                mouse_dy: 0,
                keys: KeySet {
                    forward: false,
                    back: false,
                    left: false,
                    right: false,
                    up: false,
                    down: false,
                },
                dt_micros: 0,
                scroll: 0,
            }),
            r.wf(),
    {
        FrameInput {
            mouse_dx: 0,
            mouse_dy: 0,
            keys: KeySet {
                forward: false,
                back: false,
                left: false,
                right: false,
                up: false,
                down: false,
            },
            dt_micros: 0,
            scroll: 0,
        }
    }
}

/// What one startup system does to the world.  Per-frame systems take no
/// startup turn, so on them a startup pass changes nothing.
pub open spec fn startup_step_spec(label: SystemLabel, w: WorldView) -> WorldView {
    match label {
        SystemLabel::SpawnViewModel => WorldView {
            meshes: w.meshes.push(arm_mesh_spec()),
            materials: w.materials.push(arm_material_spec()),
            entities: w.entities.push(player_rig_spec()).push(
                world_camera_spec(w.entities.len() as usize),
            ).push(view_model_camera_spec(w.entities.len() as usize)).push(
                arm_entity_spec(
                    w.entities.len() as usize,
                    w.meshes.len() as usize,
                    w.materials.len() as usize,
                ),
            ),
            ambient: w.ambient,
        },
        SystemLabel::SpawnWorldModel => WorldView {
            meshes: w.meshes.push(floor_mesh_spec()).push(cube_mesh_spec()),
            materials: w.materials.push(white_material_spec()),
            entities: w.entities.push(
                prop_entity_spec(
                    w.meshes.len() as usize,
                    w.materials.len() as usize,
                    Vec3Fx { x: 0, y: 0, z: 0 },
                ),
            ) + cube_positions_spec().map_values(
                |at: Vec3Fx|
                    prop_entity_spec(
                        (w.meshes.len() + 1) as usize,
                        w.materials.len() as usize,
                        at,
                    ),
            ),
            ambient: w.ambient,
        },
        SystemLabel::SpawnLights => WorldView {
            meshes: w.meshes.push(bulb_mesh_spec()),
            materials: w.materials.push(bulb_material_spec()),
            entities: w.entities.push(directional_light_spec()).push(
                bulb_entity_spec(w.meshes.len() as usize, w.materials.len() as usize),
            ),
            ambient: Option::Some(ambient_light_spec()),
        },
        SystemLabel::SetupCamera => WorldView {
            entities: w.entities.push(scene_camera_spec()),
            ..w
        },
        _ => w,
    }
}

/// The world after a whole startup schedule, earliest system first.
pub open spec fn run_startup_spec(labels: Seq<SystemLabel>, w: WorldView) -> WorldView
    decreases labels.len(),
{
    if labels.len() == 0 {
        w
    } else {
        startup_step_spec(labels.last(), run_startup_spec(labels.drop_last(), w))
    }
}

/// Run one startup system.
pub fn dispatch_startup(label: SystemLabel, world: &mut World)
    requires
        old(world)@.wf(),
        old(world)@.entities.len() + 6 <= usize::MAX,
        old(world)@.meshes.len() + 2 <= usize::MAX,
        old(world)@.materials.len() + 1 <= usize::MAX,
    ensures
        final(world)@ == startup_step_spec(label, old(world)@),
        final(world)@.wf(),
        final(world)@.entities.len() <= old(world)@.entities.len() + 6,
        final(world)@.meshes.len() <= old(world)@.meshes.len() + 2,
        final(world)@.materials.len() <= old(world)@.materials.len() + 1,
{
    match label {
        SystemLabel::SpawnViewModel => {
            spawn_view_model(world);
            proof {
                assert(world@ =~~= startup_step_spec(label, old(world)@));
            }
        },
        SystemLabel::SpawnWorldModel => {
            spawn_world_model(world);
            proof {
                assert(world@.entities.len() == old(world)@.entities.len() + 6);
                assert(world@ =~~= startup_step_spec(label, old(world)@));
            }
        },
        SystemLabel::SpawnLights => {
            spawn_lights(world);
            proof {
                assert(world@ =~~= startup_step_spec(label, old(world)@));
            }
        },
        SystemLabel::SetupCamera => {
            setup_camera(world);
            proof {
                assert(world@ =~~= startup_step_spec(label, old(world)@));
            }
        },
        SystemLabel::Setup => setup(),
        SystemLabel::MovePlayerMouse | SystemLabel::MovePlayerKeyboard
        | SystemLabel::ZoomCamera => {},
    }
}

/// Run every registered startup system once, in registration order.
pub fn run_startup(app: &AppSchedule, world: &mut World)
    requires
        old(world)@.wf(),
        old(world)@.entities.len() + 6 * app.startup@.len() <= usize::MAX,
        old(world)@.meshes.len() + 2 * app.startup@.len() <= usize::MAX,
        old(world)@.materials.len() + app.startup@.len() <= usize::MAX,
    ensures
        final(world)@ == run_startup_spec(app.startup@, old(world)@),
        final(world)@.wf(),
{
    let n = app.startup.len();
    let mut k: usize = 0;
    while k < n
        invariant
            k <= n == app.startup@.len(),
            world@ == run_startup_spec(app.startup@.subrange(0, k as int), old(world)@),
            world@.wf(),
            world@.entities.len() <= old(world)@.entities.len() + 6 * k,
            world@.meshes.len() <= old(world)@.meshes.len() + 2 * k,
            world@.materials.len() <= old(world)@.materials.len() + k,
            old(world)@.entities.len() + 6 * n <= usize::MAX,
            old(world)@.meshes.len() + 2 * n <= usize::MAX,
            old(world)@.materials.len() + n <= usize::MAX,
        decreases n - k,
    {
        proof {
            assert(app.startup@.subrange(0, k + 1 as int).drop_last() =~= app.startup@.subrange(
                0,
                k as int,
            ));
            assert(app.startup@.subrange(0, k + 1 as int).last() == app.startup@[k as int]);
        }
        dispatch_startup(app.startup[k], world);
        k = k + 1;
    }
    proof {
        assert(app.startup@.subrange(0, n as int) =~= app.startup@);
    }
}

/// The entity store after one whole frame: mouse look, then keyboard
/// movement, then zoom, as the input plugin registers them.
pub open spec fn frame_spec(s: Seq<Entity>, input: FrameInput) -> Seq<Entity> {
    zoom_step_spec(
        keyboard_step_spec(
            mouse_step_spec(s, input.mouse_dx as int, input.mouse_dy as int),
            input.keys,
            input.dt_micros as int,
        ),
        input.scroll as int,
    )
}

/// Run the three per-frame systems once, in registration order, on one
/// frame's input.
pub fn run_frame(world: &mut World, input: FrameInput)
    requires
        old(world)@.wf(),
        input.wf(),
        players_within(old(world)@.entities, 1_000_000_000_000_000),
    ensures
        final(world)@.entities == frame_spec(old(world)@.entities, input),
        final(world)@.meshes == old(world)@.meshes,
        final(world)@.materials == old(world)@.materials,
        final(world)@.ambient == old(world)@.ambient,
        final(world)@.wf(),
{
    move_player_mouse(world, input.mouse_dx, input.mouse_dy);
    proof {
        lemma_mouse_keeps_positions(
            old(world)@.entities,
            world@.entities,
            input.mouse_dx as int,
            input.mouse_dy as int,
        );
    }
    move_player_keyboard(world, &input.keys, input.dt_micros);
    zoom_camera(world, input.scroll);
}

/// Mouse look turns the rig but moves nothing, so every position bound on
/// the players survives it.
proof fn lemma_mouse_keeps_positions(before: Seq<Entity>, after: Seq<Entity>, dx: int, dy: int)
    requires
        players_within(before, 1_000_000_000_000_000),
        after == mouse_step_spec(before, dx, dy),
    ensures
        players_within(after, 1_000_000_000_000_000),
{
    let q = crate::systems::SystemQuery::PlayerRig;
    if crate::systems::count_matching(before, q) == 1 {
        crate::systems::lemma_count_pos(before, q);
        let m = crate::systems::the_match(before, q);
        assert forall|i: int|
            0 <= i < after.len() && (#[trigger] after[i]).is_player implies {
            let t = after[i].transform.translation;
            -1_000_000_000_000_000 <= t.x <= 1_000_000_000_000_000 && -1_000_000_000_000_000 <= t.y
                <= 1_000_000_000_000_000 && -1_000_000_000_000_000 <= t.z <= 1_000_000_000_000_000
        } by {
            assert(after[i].transform.translation == before[i].transform.translation);
            assert(after[i].is_player == before[i].is_player);
        }
    } else {
        assert(after =~= before);
    }
}

} // verus!
