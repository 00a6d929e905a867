//! The scene: meshes, materials, lights, entities and the world store, plus
//! the one-shot spawners that build the demo scene — a player rig carrying a
//! world camera, a view-model camera and a held arm mesh, a floor and five
//! cubes sharing one material, a directional light with a visible emissive
//! bulb, and an ambient light.  Every spawner's contract gives the exact
//! records it appends.

use vstd::prelude::*;
use crate::fixed::Vec3Fx;
use crate::orientation::{CameraSensitivity, Orientation};
use crate::projection::{PerspectiveFx, Projection};

verus! {

/// The render layer world geometry lives on.
pub const DEFAULT_RENDER_LAYER: usize = 0;

/// The render layer only the view-model camera draws.
pub const VIEW_MODEL_RENDER_LAYER: usize = 1;

/// Bit mask for the default render layer.
pub const LAYER_DEFAULT_MASK: u32 = 1u32 << 0;

/// Bit mask for the view-model render layer.
pub const LAYER_VIEW_MODEL_MASK: u32 = 1u32 << 1;

/// Bit mask for membership of both render layers.
pub const LAYER_BOTH_MASK: u32 = (1u32 << 0) | (1u32 << 1);

/// An sRGB colour in milli-units per channel (1000 = full channel).
#[derive(Clone, Copy, Debug, PartialEq, Eq, Structural)]
pub struct ColorMilli {
    pub r: i64,
    pub g: i64,
    pub b: i64,
}

/// A material: a base colour and, for a glowing surface, an emissive colour
/// (also milli-units, and allowed past 1000 for high-dynamic-range glow).
#[derive(Clone, Copy, Debug, PartialEq, Eq, Structural)]
pub struct MaterialFx {
    pub base_color: ColorMilli,
    pub emissive: Option<ColorMilli>,
}

/// A mesh shape, with extents in micro-units.
#[derive(Clone, Copy, Debug, PartialEq, Eq, Structural)]
pub enum MeshShape {
    /// A box given by its full extents on each axis.
    Cuboid { x: i64, y: i64, z: i64 },
    /// A plane with upward normal, given by its half extents.
    Plane { half_x: i64, half_z: i64 },
    /// A sphere given by its radius.
    Sphere { radius: i64 },
}

/// A rigid transform: translation in micro-units and a Y-X-Z Euler rotation.
#[derive(Clone, Copy, Debug, PartialEq, Eq, Structural)]
pub struct TransformFx {
    pub translation: Vec3Fx,
    pub rotation: Orientation,
}

/// A directional light: colour, illuminance in lux, and whether it casts
/// shadows.
#[derive(Clone, Copy, Debug, PartialEq, Eq, Structural)]
pub struct DirectionalLightFx {
    pub color: ColorMilli,
    pub illuminance: i64,
    pub shadows_enabled: bool,
}

/// The ambient light resource: colour and brightness in milli-units.
#[derive(Clone, Copy, Debug, PartialEq, Eq, Structural)]
pub struct AmbientLightFx {
    pub color: ColorMilli,
    pub brightness_milli: i64,
    pub affects_lightmapped_meshes: bool,
}

/// A camera component: composition order, whether it skips clearing what
/// earlier cameras drew, and its projection.
#[derive(Clone, Copy, Debug, PartialEq, Eq, Structural)]
pub struct CameraFx {
    pub order: i64,
    pub clear_disabled: bool,
    pub projection: Projection,
}

/// The marker component of the player rig, the root the cameras and the
/// arm hang from.  The store records its presence as [`Entity::is_player`].
#[derive(Clone, Copy, Debug, PartialEq, Eq, Structural)]
pub struct Player;

/// The marker component of the world camera, the target of the zoom
/// system.  The store records its presence as
/// [`Entity::is_world_model_camera`].
#[derive(Clone, Copy, Debug, PartialEq, Eq, Structural)]
pub struct WorldModelCamera;

/// One entity of the store: a transform plus optional components, as the
/// spawners compose them.  Meshes and materials are referred to by index
/// into the world's asset stores.
#[derive(Clone, Copy, Debug, PartialEq, Eq)]
pub struct Entity {
    pub is_player: bool,
    pub is_world_model_camera: bool,
    pub is_scene_camera: bool,
    pub parent: Option<usize>,
    pub transform: TransformFx,
    pub sensitivity: Option<CameraSensitivity>,
    pub camera: Option<CameraFx>,
    pub mesh: Option<usize>,
    pub material: Option<usize>,
    pub light: Option<DirectionalLightFx>,
    pub layers: u32,
    pub not_shadow_caster: bool,
}

impl Entity {
    /// Well-formed against stores of `n_meshes` meshes, `n_materials`
    /// materials and `n_entities` entities: the rotation and any sensitivity
    /// or projection are admissible, and every index is in range.
    pub open spec fn wf(self, n_meshes: int, n_materials: int, n_entities: int) -> bool {
        &&& self.transform.rotation.wf()
        &&& match self.sensitivity {
            Option::Some(s) => s.wf(),
            Option::None => true,
        }
        &&& match self.camera {
            Option::Some(c) => c.projection.wf(),
            Option::None => true,
        }
        &&& match self.mesh {
            Option::Some(i) => i < n_meshes,
            Option::None => true,
        }
        &&& match self.material {
            Option::Some(i) => i < n_materials,
            Option::None => true,
        }
        &&& match self.parent {
            Option::Some(i) => i < n_entities,
            Option::None => true,
        }
    }
}

/// The identity transform.
pub open spec fn identity_transform_spec() -> TransformFx {
    TransformFx {
        translation: Vec3Fx { x: 0, y: 0, z: 0 },
        rotation: Orientation { yaw: 0, pitch: 0, roll: 0 },
    }
}

/// An entity with a transform and nothing else, on the default layer.
pub open spec fn plain_entity_spec(t: TransformFx) -> Entity {
    Entity {
        is_player: false,
        is_world_model_camera: false,
        is_scene_camera: false,
        parent: Option::None,
        transform: t,
        sensitivity: Option::None,
        camera: Option::None,
        mesh: Option::None,
        material: Option::None,
        light: Option::None,
        layers: LAYER_DEFAULT_MASK,
        not_shadow_caster: false,
    }
}

fn plain_entity(t: TransformFx) -> (r: Entity)
    ensures
        r == plain_entity_spec(t),
{
    Entity {
        is_player: false,
        is_world_model_camera: false,
        is_scene_camera: false,
        parent: Option::None,
        transform: t,
        sensitivity: Option::None,
        camera: Option::None,
        mesh: Option::None,
        material: Option::None,
        light: Option::None,
        layers: LAYER_DEFAULT_MASK,
        not_shadow_caster: false,
    }
}

/// The view of a world: its stores as sequences.
#[verifier::ext_equal]
pub struct WorldView {
    pub meshes: Seq<MeshShape>,
    pub materials: Seq<MaterialFx>,
    pub entities: Seq<Entity>,
    pub ambient: Option<AmbientLightFx>,
}

/// The world: asset stores, the entity store, and the ambient light
/// resource.
pub struct World {
    pub meshes: Vec<MeshShape>,
    pub materials: Vec<MaterialFx>,
    pub entities: Vec<Entity>,
    pub ambient: Option<AmbientLightFx>,
}

impl View for World {
    type V = WorldView;

    open spec fn view(&self) -> WorldView {
        WorldView {
            meshes: self.meshes@,
            materials: self.materials@,
            entities: self.entities@,
            ambient: self.ambient,
        }
    }
}

impl WorldView {
    /// Every entity is well-formed against the stores.
    pub open spec fn wf(self) -> bool {
        forall|i: int|
            0 <= i < self.entities.len() ==> (#[trigger] self.entities[i]).wf(
                self.meshes.len() as int,
                self.materials.len() as int,
                self.entities.len() as int,
            )
    }
}

impl World {
    /// An empty world.
    pub fn new() -> (r: World)
        ensures
            r@.meshes == Seq::<MeshShape>::empty(),
            r@.materials == Seq::<MaterialFx>::empty(),
            r@.entities == Seq::<Entity>::empty(),
            r@.ambient is None,
            r@.wf(),
    {
        World { meshes: Vec::new(), materials: Vec::new(), entities: Vec::new(), ambient: None }
    }
}

// ---------------------------------------------------------------------------
// The player rig and its view model.
// ---------------------------------------------------------------------------

/// The held arm: a thin cuboid.
pub open spec fn arm_mesh_spec() -> MeshShape {
    MeshShape::Cuboid { x: 100_000, y: 100_000, z: 500_000 }
}

/// The arm's teal material.
pub open spec fn arm_material_spec() -> MaterialFx {
    MaterialFx { base_color: ColorMilli { r: 600, g: 965, b: 894 }, emissive: Option::None }
}

/// The player rig: one unit above the origin, pitched straight down toward
/// it (a quarter turn, in microradians), with the default sensitivity.
pub open spec fn player_rig_spec() -> Entity {
    Entity {
        is_player: true,
        sensitivity: Option::Some(CameraSensitivity { x: 3000, y: 2000 }),
        ..plain_entity_spec(
            TransformFx {
                translation: Vec3Fx { x: 0, y: 1_000_000, z: 0 },
                rotation: Orientation { yaw: 0, pitch: -1_570_796i64, roll: 0 },
            },
        )
    }
}

/// The world camera: a child of the player with a 60 degree perspective
/// projection, drawing the default layer first.
pub open spec fn world_camera_spec(parent: usize) -> Entity {
    Entity {
        is_world_model_camera: true,
        parent: Option::Some(parent),
        camera: Option::Some(
            CameraFx {
                order: 0,
                clear_disabled: false,
                projection: Projection::Perspective(
                    PerspectiveFx {
                        fov: 1_047_198,
                        aspect_milli: 1000,
                        near: 100_000,
                        far: 1_000_000_000,
                    },
                ),
            },
        ),
        ..plain_entity_spec(identity_transform_spec())
    }
}

/// The view-model camera: also a 60 degree perspective, composed after the
/// world camera without clearing it, drawing only the view-model layer.
pub open spec fn view_model_camera_spec(parent: usize) -> Entity {
    Entity {
        parent: Option::Some(parent),
        camera: Option::Some(
            CameraFx {
                order: 1,
                clear_disabled: true,
                projection: Projection::Perspective(
                    PerspectiveFx {
                        fov: 1_047_198,
                        aspect_milli: 1000,
                        near: 10_000,
                        far: 10_000_000,
                    },
                ),
            },
        ),
        layers: LAYER_VIEW_MODEL_MASK,
        ..plain_entity_spec(identity_transform_spec())
    }
}

/// The arm entity: slightly below and ahead of the cameras, on the
/// view-model layer only.
pub open spec fn arm_entity_spec(parent: usize, mesh: usize, material: usize) -> Entity {
    Entity {
        parent: Option::Some(parent),
        mesh: Option::Some(mesh),
        material: Option::Some(material),
        layers: LAYER_VIEW_MODEL_MASK,
        ..plain_entity_spec(
            TransformFx {
                translation: Vec3Fx { x: 0, y: -100_000i64, z: -550_000i64 },
                rotation: Orientation { yaw: 0, pitch: 0, roll: 0 },
            },
        )
    }
}

/// Spawn the player rig with its two child cameras and the held arm.
pub fn spawn_view_model(world: &mut World)
    requires
        old(world)@.wf(),
        old(world)@.entities.len() + 4 <= usize::MAX,
        old(world)@.meshes.len() + 1 <= usize::MAX,
        old(world)@.materials.len() + 1 <= usize::MAX,
    ensures
        final(world)@.meshes == old(world)@.meshes.push(arm_mesh_spec()),
        final(world)@.materials == old(world)@.materials.push(arm_material_spec()),
        final(world)@.entities == old(world)@.entities.push(player_rig_spec()).push(
            world_camera_spec(old(world)@.entities.len() as usize),
        ).push(view_model_camera_spec(old(world)@.entities.len() as usize)).push(
            arm_entity_spec(
                old(world)@.entities.len() as usize,
                old(world)@.meshes.len() as usize,
                old(world)@.materials.len() as usize,
            ),
        ),
        final(world)@.ambient == old(world)@.ambient,
        final(world)@.wf(),
{
    let arm_mesh: usize = world.meshes.len();
    world.meshes.push(MeshShape::Cuboid { x: 100_000, y: 100_000, z: 500_000 });
    let arm_material: usize = world.materials.len();
    world.materials.push(
        MaterialFx { base_color: ColorMilli { r: 600, g: 965, b: 894 }, emissive: Option::None },
    );
    let rig: usize = world.entities.len();
    let player = Entity {
        is_player: true,
        sensitivity: Option::Some(CameraSensitivity { x: 3000, y: 2000 }),
        ..plain_entity(
            TransformFx {
                translation: Vec3Fx { x: 0, y: 1_000_000, z: 0 },
                rotation: Orientation { yaw: 0, pitch: -1_570_796i64, roll: 0 },
            },
        )
    };
    world.entities.push(player);
    let world_camera = Entity {
        is_world_model_camera: true,
        parent: Option::Some(rig),
        camera: Option::Some(
            CameraFx {
                order: 0,
                clear_disabled: false,
                projection: Projection::Perspective(
                    PerspectiveFx {
                        fov: 1_047_198,
                        aspect_milli: 1000,
                        near: 100_000,
                        far: 1_000_000_000,
                    },
                ),
            },
        ),
        ..plain_entity(
            TransformFx {
                translation: Vec3Fx { x: 0, y: 0, z: 0 },
                rotation: Orientation { yaw: 0, pitch: 0, roll: 0 },
            },
        )
    };
    world.entities.push(world_camera);
    let view_camera = Entity {
        parent: Option::Some(rig),
        camera: Option::Some(
            CameraFx {
                order: 1,
                clear_disabled: true,
                projection: Projection::Perspective(
                    PerspectiveFx {
                        fov: 1_047_198,
                        aspect_milli: 1000,
                        near: 10_000,
                        far: 10_000_000,
                    },
                ),
            },
        ),
        layers: LAYER_VIEW_MODEL_MASK,
        ..plain_entity(
            TransformFx {
                translation: Vec3Fx { x: 0, y: 0, z: 0 },
                rotation: Orientation { yaw: 0, pitch: 0, roll: 0 },
            },
        )
    };
    world.entities.push(view_camera);
    let arm = Entity {
        parent: Option::Some(rig),
        mesh: Option::Some(arm_mesh),
        material: Option::Some(arm_material),
        layers: LAYER_VIEW_MODEL_MASK,
        ..plain_entity(
            TransformFx {
                translation: Vec3Fx { x: 0, y: -100_000i64, z: -550_000i64 },
                rotation: Orientation { yaw: 0, pitch: 0, roll: 0 },
            },
        )
    };
    world.entities.push(arm);
    proof {
        lemma_wf_after_grow(old(world)@, world@);
    }
}

// ---------------------------------------------------------------------------
// Static world geometry.
// ---------------------------------------------------------------------------

/// The floor: a plane of ten units half extent.
pub open spec fn floor_mesh_spec() -> MeshShape {
    MeshShape::Plane { half_x: 10_000_000, half_z: 10_000_000 }
}

/// The cube shared by the five scattered blocks.
pub open spec fn cube_mesh_spec() -> MeshShape {
    MeshShape::Cuboid { x: 2_000_000, y: 500_000, z: 1_000_000 }
}

/// The one white material the floor and all cubes share.
pub open spec fn white_material_spec() -> MaterialFx {
    MaterialFx { base_color: ColorMilli { r: 1000, g: 1000, b: 1000 }, emissive: Option::None }
}

/// A mesh at a translation with the shared material, on the default layer.
pub open spec fn prop_entity_spec(mesh: usize, material: usize, at: Vec3Fx) -> Entity {
    Entity {
        mesh: Option::Some(mesh),
        material: Option::Some(material),
        ..plain_entity_spec(
            TransformFx { translation: at, rotation: Orientation { yaw: 0, pitch: 0, roll: 0 } },
        )
    }
}

/// Where the five cubes stand, in micro-units.
pub open spec fn cube_positions_spec() -> Seq<Vec3Fx> {
    seq![
        Vec3Fx { x: 0, y: 250_000, z: -3_000_000i64 },
        Vec3Fx { x: 1_500_000, y: 250_000, z: -3_000_000i64 },
        Vec3Fx { x: 1_000_000, y: 250_000, z: -1_000_000i64 },
        Vec3Fx { x: 0, y: 250_000, z: 3_000_000 },
        Vec3Fx { x: 750_000, y: 1_750_000, z: 0 },
    ]
}

/// Spawn the floor and the five cubes, all sharing one material instance.
pub fn spawn_world_model(world: &mut World)
    requires
        old(world)@.wf(),
        old(world)@.entities.len() + 6 <= usize::MAX,
        old(world)@.meshes.len() + 2 <= usize::MAX,
        old(world)@.materials.len() + 1 <= usize::MAX,
    ensures
        final(world)@.meshes == old(world)@.meshes.push(floor_mesh_spec()).push(cube_mesh_spec()),
        final(world)@.materials == old(world)@.materials.push(white_material_spec()),
        final(world)@.entities == old(world)@.entities.push(
            prop_entity_spec(
                old(world)@.meshes.len() as usize,
                old(world)@.materials.len() as usize,
                Vec3Fx { x: 0, y: 0, z: 0 },
            ),
        ) + cube_positions_spec().map_values(
            |at: Vec3Fx|
                prop_entity_spec(
                    (old(world)@.meshes.len() + 1) as usize,
                    old(world)@.materials.len() as usize,
                    at,
                ),
        ),
        final(world)@.ambient == old(world)@.ambient,
        final(world)@.wf(),
{
    let floor_mesh: usize = world.meshes.len();
    world.meshes.push(MeshShape::Plane { half_x: 10_000_000, half_z: 10_000_000 });
    let cube_mesh: usize = world.meshes.len();
    world.meshes.push(MeshShape::Cuboid { x: 2_000_000, y: 500_000, z: 1_000_000 });
    let material: usize = world.materials.len();
    world.materials.push(
        MaterialFx { base_color: ColorMilli { r: 1000, g: 1000, b: 1000 }, emissive: Option::None },
    );
    let floor = prop_entity(floor_mesh, material, Vec3Fx { x: 0, y: 0, z: 0 });
    world.entities.push(floor);
    world.entities.push(prop_entity(cube_mesh, material, Vec3Fx { x: 0, y: 250_000, z: -3_000_000i64 }));
    world.entities.push(
        prop_entity(cube_mesh, material, Vec3Fx { x: 1_500_000, y: 250_000, z: -3_000_000i64 }),
    );
    world.entities.push(
        prop_entity(cube_mesh, material, Vec3Fx { x: 1_000_000, y: 250_000, z: -1_000_000i64 }),
    );
    world.entities.push(prop_entity(cube_mesh, material, Vec3Fx { x: 0, y: 250_000, z: 3_000_000 }));
    world.entities.push(prop_entity(cube_mesh, material, Vec3Fx { x: 750_000, y: 1_750_000, z: 0 }));
    proof {
        assert(final(world)@.entities =~= old(world)@.entities.push(
            prop_entity_spec(
                old(world)@.meshes.len() as usize,
                old(world)@.materials.len() as usize,
                Vec3Fx { x: 0, y: 0, z: 0 },
            ),
        ) + cube_positions_spec().map_values(
            |at: Vec3Fx|
                prop_entity_spec(
                    (old(world)@.meshes.len() + 1) as usize,
                    old(world)@.materials.len() as usize,
                    at,
                ),
        ));
        lemma_wf_after_grow(old(world)@, world@);
    }
}

fn prop_entity(mesh: usize, material: usize, at: Vec3Fx) -> (r: Entity)
    ensures
        r == prop_entity_spec(mesh, material, at),
{
    Entity {
        mesh: Option::Some(mesh),
        material: Option::Some(material),
        ..plain_entity(
            TransformFx { translation: at, rotation: Orientation { yaw: 0, pitch: 0, roll: 0 } },
        )
    }
}

// ---------------------------------------------------------------------------
// Lights.
// ---------------------------------------------------------------------------

/// The warm directional light, shining from above the scene toward the
/// origin (an eighth turn of yaw, pitched down by asin(8 / sqrt(96))),
/// visible on both layers.
pub open spec fn directional_light_spec() -> Entity {
    Entity {
        light: Option::Some(
            DirectionalLightFx {
                color: ColorMilli { r: 980, g: 950, b: 820 },
                illuminance: 10_000,
                shadows_enabled: true,
            },
        ),
        layers: LAYER_BOTH_MASK,
        ..plain_entity_spec(
            TransformFx {
                translation: Vec3Fx { x: 4_000_000, y: 8_000_000, z: 4_000_000 },
                rotation: Orientation { yaw: 785_398, pitch: -955_317i64, roll: 0 },
            },
        )
    }
}

/// The visible bulb: an emissive sphere at the light's position that casts
/// no shadow of its own.
pub open spec fn bulb_mesh_spec() -> MeshShape {
    MeshShape::Sphere { radius: 300_000 }
}

/// The bulb's emissive material.
pub open spec fn bulb_material_spec() -> MaterialFx {
    MaterialFx {
        base_color: ColorMilli { r: 1000, g: 950, b: 700 },
        emissive: Option::Some(ColorMilli { r: 10_000, g: 9_500, b: 7_000 }),
    }
}

/// The bulb entity.
pub open spec fn bulb_entity_spec(mesh: usize, material: usize) -> Entity {
    Entity {
        mesh: Option::Some(mesh),
        material: Option::Some(material),
        not_shadow_caster: true,
        ..plain_entity_spec(
            TransformFx {
                translation: Vec3Fx { x: 4_000_000, y: 8_000_000, z: 4_000_000 },
                rotation: Orientation { yaw: 0, pitch: 0, roll: 0 },
            },
        )
    }
}

/// The grey ambient light resource.
pub open spec fn ambient_light_spec() -> AmbientLightFx {
    AmbientLightFx {
        color: ColorMilli { r: 500, g: 500, b: 500 },
        brightness_milli: 200_000,
        affects_lightmapped_meshes: true,
    }
}

/// Spawn the directional light, its visible bulb, and the ambient light.
pub fn spawn_lights(world: &mut World)
    requires
        old(world)@.wf(),
        old(world)@.entities.len() + 2 <= usize::MAX,
        old(world)@.meshes.len() + 1 <= usize::MAX,
        old(world)@.materials.len() + 1 <= usize::MAX,
    ensures
        final(world)@.meshes == old(world)@.meshes.push(bulb_mesh_spec()),
        final(world)@.materials == old(world)@.materials.push(bulb_material_spec()),
        final(world)@.entities == old(world)@.entities.push(directional_light_spec()).push(
            bulb_entity_spec(
                old(world)@.meshes.len() as usize,
                old(world)@.materials.len() as usize,
            ),
        ),
        final(world)@.ambient == Option::Some(ambient_light_spec()),
        final(world)@.wf(),
{
    let sun = Entity {
        light: Option::Some(
            DirectionalLightFx {
                color: ColorMilli { r: 980, g: 950, b: 820 },
                illuminance: 10_000,
                shadows_enabled: true,
            },
        ),
        layers: LAYER_BOTH_MASK,
        ..plain_entity(
            TransformFx {
                translation: Vec3Fx { x: 4_000_000, y: 8_000_000, z: 4_000_000 },
                rotation: Orientation { yaw: 785_398, pitch: -955_317i64, roll: 0 },
            },
        )
    };
    world.entities.push(sun);
    let bulb_mesh: usize = world.meshes.len();
    world.meshes.push(MeshShape::Sphere { radius: 300_000 });
    let bulb_material: usize = world.materials.len();
    world.materials.push(
        MaterialFx {
            base_color: ColorMilli { r: 1000, g: 950, b: 700 },
            emissive: Option::Some(ColorMilli { r: 10_000, g: 9_500, b: 7_000 }),
        },
    );
    let bulb = Entity {
        mesh: Option::Some(bulb_mesh),
        material: Option::Some(bulb_material),
        not_shadow_caster: true,
        ..plain_entity(
            TransformFx {
                translation: Vec3Fx { x: 4_000_000, y: 8_000_000, z: 4_000_000 },
                rotation: Orientation { yaw: 0, pitch: 0, roll: 0 },
            },
        )
    };
    world.entities.push(bulb);
    world.ambient = Some(
        AmbientLightFx {
            color: ColorMilli { r: 500, g: 500, b: 500 },
            brightness_milli: 200_000,
            affects_lightmapped_meshes: true,
        },
    );
    proof {
        lemma_wf_after_grow(old(world)@, world@);
    }
}

// ---------------------------------------------------------------------------
// The standalone scene camera.
// ---------------------------------------------------------------------------

/// The standalone scene camera: placed at (10, 12, 16) units and turned
/// toward the origin (the microradian rendering of that look-at rotation),
/// with the engine's default perspective projection.
pub open spec fn scene_camera_spec() -> Entity {
    Entity {
        is_scene_camera: true,
        camera: Option::Some(
            CameraFx {
                order: 0,
                clear_disabled: false,
                projection: Projection::Perspective(
                    PerspectiveFx {
                        fov: 785_398,
                        aspect_milli: 1000,
                        near: 100_000,
                        far: 1_000_000_000,
                    },
                ),
            },
        ),
        ..plain_entity_spec(
            TransformFx {
                translation: Vec3Fx { x: 10_000_000, y: 12_000_000, z: 16_000_000 },
                rotation: Orientation { yaw: 558_599, pitch: -566_469i64, roll: 0 },
            },
        )
    }
}

/// Spawn the standalone scene camera.
pub fn setup_camera(world: &mut World)
    requires
        old(world)@.wf(),
        old(world)@.entities.len() + 1 <= usize::MAX,
    ensures
        final(world)@.meshes == old(world)@.meshes,
        final(world)@.materials == old(world)@.materials,
        final(world)@.entities == old(world)@.entities.push(scene_camera_spec()),
        final(world)@.ambient == old(world)@.ambient,
        final(world)@.wf(),
{
    let camera = Entity {
        is_scene_camera: true,
        camera: Option::Some(
            CameraFx {
                order: 0,
                clear_disabled: false,
                projection: Projection::Perspective(
                    PerspectiveFx {
                        fov: 785_398,
                        aspect_milli: 1000,
                        near: 100_000,
                        far: 1_000_000_000,
                    },
                ),
            },
        ),
        ..plain_entity(
            TransformFx {
                translation: Vec3Fx { x: 10_000_000, y: 12_000_000, z: 16_000_000 },
                rotation: Orientation { yaw: 558_599, pitch: -566_469i64, roll: 0 },
            },
        )
    };
    world.entities.push(camera);
    proof {
        lemma_wf_after_grow(old(world)@, world@);
    }
}

/// A reserved startup hook; it does nothing.
pub fn setup() {
}

/// Growing the stores keeps every old entity well-formed, so a world whose
/// old entities were well-formed and whose new entities check out is
/// well-formed.
proof fn lemma_wf_after_grow(before: WorldView, after: WorldView)
    requires
        before.wf(),
        before.meshes.len() <= after.meshes.len(),
        before.materials.len() <= after.materials.len(),
        before.entities.len() <= after.entities.len(),
        forall|i: int|
            0 <= i < before.entities.len() ==> after.entities[i] == before.entities[i],
        forall|i: int|
            before.entities.len() <= i < after.entities.len() ==> (#[trigger] after.entities[i]).wf(
                after.meshes.len() as int,
                after.materials.len() as int,
                after.entities.len() as int,
            ),
    ensures
        after.wf(),
{
    assert forall|i: int| 0 <= i < after.entities.len() implies (#[trigger] after.entities[i]).wf(
        after.meshes.len() as int,
        after.materials.len() as int,
        after.entities.len() as int,
    ) by {
        if i < before.entities.len() {
            assert(before.entities[i].wf(
                before.meshes.len() as int,
                before.materials.len() as int,
                before.entities.len() as int,
            ));
        }
    }
}

} // verus!
