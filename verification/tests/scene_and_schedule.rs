use view_model::fixed::Vec3Fx;
use view_model::movement::KeySet;
use view_model::orientation::{CameraSensitivity, Orientation};
use view_model::projection::{OrthographicFx, PerspectiveFx, Projection};
use view_model::scene::{
    setup_camera, spawn_lights, spawn_view_model, spawn_world_model, CameraFx, Entity, MeshShape,
    TransformFx, World, LAYER_BOTH_MASK, LAYER_DEFAULT_MASK, LAYER_VIEW_MODEL_MASK,
};
use view_model::schedule::{default_app, run_frame, run_startup, FrameInput, SystemLabel};
use view_model::systems::{
    find_single, move_player_keyboard, move_player_mouse, zoom_camera, SystemQuery,
};

fn plain(t: TransformFx) -> Entity {
    Entity {
        is_player: false,
        is_world_model_camera: false,
        is_scene_camera: false,
        parent: None,
        transform: t,
        sensitivity: None,
        camera: None,
        mesh: None,
        material: None,
        light: None,
        layers: LAYER_DEFAULT_MASK,
        not_shadow_caster: false,
    }
}

fn identity() -> TransformFx {
    TransformFx {
        translation: Vec3Fx { x: 0, y: 0, z: 0 },
        rotation: Orientation { yaw: 0, pitch: 0, roll: 0 },
    }
}

fn world_camera(scale: i64) -> Entity {
    Entity {
        is_world_model_camera: true,
        camera: Some(CameraFx {
            order: 0,
            clear_disabled: false,
            projection: Projection::Orthographic(OrthographicFx { scale }),
        }),
        ..plain(identity())
    }
}

#[test]
fn spawn_view_model_builds_the_rig() {
    let mut w = World::new();
    spawn_view_model(&mut w);
    assert_eq!(w.entities.len(), 4);
    assert_eq!(w.meshes.len(), 1);
    assert_eq!(w.materials.len(), 1);
    let rig = &w.entities[0];
    assert!(rig.is_player);
    assert_eq!(rig.sensitivity, Some(CameraSensitivity { x: 3000, y: 2000 }));
    assert_eq!(rig.transform.translation, Vec3Fx { x: 0, y: 1_000_000, z: 0 });
    assert_eq!(rig.transform.rotation, Orientation { yaw: 0, pitch: -1_570_796, roll: 0 });
    let cam = &w.entities[1];
    assert!(cam.is_world_model_camera);
    assert_eq!(cam.parent, Some(0));
    assert_eq!(
        cam.camera,
        Some(CameraFx {
            order: 0,
            clear_disabled: false,
            projection: Projection::Perspective(PerspectiveFx {
                fov: 1_047_198,
                aspect_milli: 1000,
                near: 100_000,
                far: 1_000_000_000,
            }),
        })
    );
    let view_cam = &w.entities[2];
    assert!(!view_cam.is_world_model_camera);
    assert_eq!(view_cam.layers, LAYER_VIEW_MODEL_MASK);
    let vc = view_cam.camera.unwrap();
    assert_eq!(vc.order, 1);
    assert!(vc.clear_disabled);
    let arm = &w.entities[3];
    assert_eq!(arm.mesh, Some(0));
    assert_eq!(arm.material, Some(0));
    assert_eq!(arm.layers, LAYER_VIEW_MODEL_MASK);
    assert_eq!(arm.transform.translation, Vec3Fx { x: 0, y: -100_000, z: -550_000 });
    assert_eq!(w.meshes[0], MeshShape::Cuboid { x: 100_000, y: 100_000, z: 500_000 });
}

#[test]
fn spawn_world_model_shares_one_material() {
    let mut w = World::new();
    spawn_world_model(&mut w);
    assert_eq!(w.entities.len(), 6);
    assert_eq!(w.meshes.len(), 2);
    assert_eq!(w.materials.len(), 1);
    assert_eq!(w.meshes[0], MeshShape::Plane { half_x: 10_000_000, half_z: 10_000_000 });
    assert_eq!(w.meshes[1], MeshShape::Cuboid { x: 2_000_000, y: 500_000, z: 1_000_000 });
    for e in &w.entities {
        assert_eq!(e.material, Some(0));
        assert_eq!(e.layers, LAYER_DEFAULT_MASK);
    }
    assert_eq!(w.entities[0].mesh, Some(0));
    for e in &w.entities[1..] {
        assert_eq!(e.mesh, Some(1));
    }
    assert_eq!(w.entities[1].transform.translation, Vec3Fx { x: 0, y: 250_000, z: -3_000_000 });
    assert_eq!(w.entities[5].transform.translation, Vec3Fx { x: 750_000, y: 1_750_000, z: 0 });
}

#[test]
fn spawn_lights_sets_sun_bulb_and_ambient() {
    let mut w = World::new();
    spawn_lights(&mut w);
    assert_eq!(w.entities.len(), 2);
    let sun = &w.entities[0];
    let light = sun.light.unwrap();
    assert_eq!(light.illuminance, 10_000);
    assert!(light.shadows_enabled);
    assert_eq!(sun.layers, LAYER_BOTH_MASK);
    let bulb = &w.entities[1];
    assert!(bulb.not_shadow_caster);
    assert!(w.materials[bulb.material.unwrap()].emissive.is_some());
    let ambient = w.ambient.unwrap();
    assert_eq!(ambient.brightness_milli, 200_000);
}

#[test]
fn setup_camera_spawns_standalone_camera() {
    let mut w = World::new();
    setup_camera(&mut w);
    assert_eq!(w.entities.len(), 1);
    let cam = &w.entities[0];
    assert!(cam.is_scene_camera);
    assert_eq!(cam.transform.translation, Vec3Fx { x: 10_000_000, y: 12_000_000, z: 16_000_000 });
    assert!(cam.camera.is_some());
}

#[test]
fn zoom_with_no_matching_camera_is_noop() {
    // Zero cameras answer the zoom query: the update silently does nothing.
    let mut w = World::new();
    spawn_world_model(&mut w);
    let before = w.entities.clone();
    zoom_camera(&mut w, -5);
    assert_eq!(w.entities, before);
}

#[test]
fn zoom_with_two_matching_cameras_is_noop() {
    let mut w = World::new();
    w.entities.push(world_camera(50_000));
    w.entities.push(world_camera(60_000));
    let before = w.entities.clone();
    zoom_camera(&mut w, -5);
    assert_eq!(w.entities, before);
}

#[test]
fn zoom_with_one_camera_steps_its_projection() {
    let mut w = World::new();
    w.entities.push(world_camera(50_000));
    zoom_camera(&mut w, -5);
    let cam = w.entities[0].camera.unwrap();
    assert_eq!(cam.projection, Projection::Orthographic(OrthographicFx { scale: 75_000 }));
}

#[test]
fn mouse_system_turns_the_rig() {
    let mut w = World::new();
    spawn_view_model(&mut w);
    move_player_mouse(&mut w, 100, 0);
    let rot = w.entities[0].transform.rotation;
    assert_eq!(rot.yaw, -300_000);
    // the spawn pitch sits past the clamp bound; the first update clamps it
    assert_eq!(rot.pitch, -1_560_796);
    assert_eq!(rot.roll, 0);
    // nobody else moved
    assert_eq!(w.entities[1].transform, identity());
}

#[test]
fn mouse_system_without_player_is_noop() {
    let mut w = World::new();
    spawn_world_model(&mut w);
    let before = w.entities.clone();
    move_player_mouse(&mut w, 100, 50);
    assert_eq!(w.entities, before);
}

#[test]
fn keyboard_system_moves_the_player() {
    let mut w = World::new();
    w.entities.push(Entity { is_player: true, ..plain(identity()) });
    let k = KeySet { forward: true, back: false, left: false, right: false, up: false, down: false };
    move_player_keyboard(&mut w, &k, 1_000_000);
    let t = w.entities[0].transform.translation;
    assert_eq!(t.x, 0);
    assert_eq!(t.y, 0);
    assert!(t.z < -4_990_000 && t.z >= -5_000_000);
}

#[test]
fn keyboard_system_with_no_keys_is_noop() {
    let mut w = World::new();
    w.entities.push(Entity { is_player: true, ..plain(identity()) });
    let before = w.entities.clone();
    move_player_keyboard(&mut w, &KeySet::none(), 1_000_000);
    assert_eq!(w.entities, before);
}

#[test]
fn default_app_registers_both_plugins_in_order() {
    let app = default_app();
    assert_eq!(
        app.startup,
        vec![SystemLabel::SpawnViewModel, SystemLabel::SpawnWorldModel, SystemLabel::SpawnLights]
    );
    assert_eq!(
        app.update,
        vec![
            SystemLabel::MovePlayerMouse,
            SystemLabel::MovePlayerKeyboard,
            SystemLabel::ZoomCamera
        ]
    );
}

#[test]
fn startup_builds_the_whole_scene_once() {
    let app = default_app();
    let mut w = World::new();
    run_startup(&app, &mut w);
    // 4 rig entities + floor + 5 cubes + sun + bulb
    assert_eq!(w.entities.len(), 12);
    assert_eq!(w.meshes.len(), 4);
    assert_eq!(w.materials.len(), 3);
    assert!(w.ambient.is_some());
    assert!(w.entities[0].is_player);
    assert!(w.entities[1].is_world_model_camera);
    // exactly one player rig and exactly one zoom target exist
    assert_eq!(find_single(&w.entities, SystemQuery::PlayerRig), Some(0));
    assert_eq!(find_single(&w.entities, SystemQuery::ZoomTarget), Some(1));
}

#[test]
fn idle_frame_changes_nothing() {
    let app = default_app();
    let mut w = World::new();
    run_startup(&app, &mut w);
    let before = w.entities.clone();
    run_frame(&mut w, FrameInput::idle());
    assert_eq!(w.entities, before);
}

#[test]
fn full_frame_turns_moves_and_zooms() {
    let app = default_app();
    let mut w = World::new();
    run_startup(&app, &mut w);
    let input = FrameInput {
        mouse_dx: 100,
        mouse_dy: 0,
        keys: KeySet { forward: false, back: false, left: true, right: false, up: false, down: false },
        dt_micros: 500_000,
        scroll: 1,
    };
    run_frame(&mut w, input);
    let rig = &w.entities[0];
    assert_eq!(rig.transform.rotation.yaw, -300_000);
    // strafing left after the yaw turn still moves somewhere at half speed
    let t = rig.transform.translation;
    let moved_x = t.x;
    let moved_z = t.z;
    assert!(moved_x * moved_x + moved_z * moved_z > 0);
    assert!(moved_x.abs() <= 2_500_000 && moved_z.abs() <= 2_500_000);
    // the world camera zoomed in by one tick: fov * 19 / 20
    let cam = w.entities[1].camera.unwrap();
    match cam.projection {
        Projection::Perspective(pp) => assert_eq!(pp.fov, 1_047_198 * 19 / 20),
        _ => panic!("zoom changed the projection model"),
    }
}
