//! The editor's configuration and its selection-to-spawn flow.
//!
//! Each frame the prefab panel lists the registry's groups; when the user
//! clicks a prefab, the editor computes a spawn location a configured
//! distance in front of the camera and asks the prefab for its plan there.
//! The host adapter performs the plan against the live scene.

use vstd::prelude::*;

use crate::geometry::Vec3Fixed;
use crate::prefab::{
    builtin_plan_matches, BuiltinPrefab, Prefab, PrefabGroup, PrefabGroups, SpawnPlan,
};
use crate::builtin_prefabs::{
    CubePrefab, DirectionalLightPrefab, PlanePrefab, PointLightPrefab,
};

verus! {

/// Default distance in front of the camera at which a prefab is spawned,
/// in milli-units (ten distance units).
pub const DEFAULT_SPAWN_DISTANCE: i64 = 10_000;

/// Largest camera coordinate the spawn flow accepts, in micro-units.
pub const POSITION_MAX: i64 = 1_000_000_000_000_000_000;

/// Largest view-direction component the spawn flow accepts, in
/// milli-units (a unit direction has components up to one thousand).
pub const DIRECTION_MAX: i64 = 10_000;

/// Largest spawn distance the spawn flow accepts, in milli-units.
pub const SPAWN_DISTANCE_MAX: i64 = 100_000_000;

/// Configuration of the editor: how far in front of the camera a spawned
/// prefab lands, in milli-units.
#[derive(Clone, Copy, Debug, PartialEq, Eq, Structural)]
pub struct EditorConfig {
    /// Spawn distance from the camera, in milli-units.
    pub spawn_distance: i64,
}

impl Default for EditorConfig {
    /// The stock configuration: ten distance units.
    fn default() -> (c: Self)
        ensures
            c.spawn_distance == DEFAULT_SPAWN_DISTANCE,
    {
        EditorConfig { spawn_distance: DEFAULT_SPAWN_DISTANCE }
    }
}

/// The location a spawn lands at: the camera position plus the view
/// direction scaled by the spawn distance. Positions are micro-units,
/// the direction milli-units, the distance milli-units, so each result
/// component is exactly `position + direction * distance`.
pub fn spawn_position(camera: Vec3Fixed, direction: Vec3Fixed, distance: i64) -> (p: Vec3Fixed)
    requires
        -POSITION_MAX <= camera.x <= POSITION_MAX,
        -POSITION_MAX <= camera.y <= POSITION_MAX,
        -POSITION_MAX <= camera.z <= POSITION_MAX,
        -DIRECTION_MAX <= direction.x <= DIRECTION_MAX,
        -DIRECTION_MAX <= direction.y <= DIRECTION_MAX,
        -DIRECTION_MAX <= direction.z <= DIRECTION_MAX,
        -SPAWN_DISTANCE_MAX <= distance <= SPAWN_DISTANCE_MAX,
    ensures
        p.x == camera.x + direction.x * distance,
        p.y == camera.y + direction.y * distance,
        p.z == camera.z + direction.z * distance,
{
    proof {
        assert(-1_000_000_000_000 <= direction.x * distance <= 1_000_000_000_000)
            by (nonlinear_arith)
            requires
                -DIRECTION_MAX <= direction.x <= DIRECTION_MAX,
                -SPAWN_DISTANCE_MAX <= distance <= SPAWN_DISTANCE_MAX,
        ;
        assert(-1_000_000_000_000 <= direction.y * distance <= 1_000_000_000_000)
            by (nonlinear_arith)
            requires
                -DIRECTION_MAX <= direction.y <= DIRECTION_MAX,
                -SPAWN_DISTANCE_MAX <= distance <= SPAWN_DISTANCE_MAX,
        ;
        assert(-1_000_000_000_000 <= direction.z * distance <= 1_000_000_000_000)
            by (nonlinear_arith)
            requires
                -DIRECTION_MAX <= direction.z <= DIRECTION_MAX,
                -SPAWN_DISTANCE_MAX <= distance <= SPAWN_DISTANCE_MAX,
        ;
    }
    let offset = direction.scaled(distance);
    camera.plus(offset)
}

/// The whole selection-to-spawn decision: from the clicked prefab, the
/// camera position, its view direction and the configured distance to the
/// plan the adapter performs. The plan is the prefab's own, rooted exactly
/// at the spawn position.
pub fn spawn_request(
    prefab: &BuiltinPrefab,
    camera: Vec3Fixed,
    direction: Vec3Fixed,
    distance: i64,
) -> (p: SpawnPlan)
    requires
        -POSITION_MAX <= camera.x <= POSITION_MAX,
        -POSITION_MAX <= camera.y <= POSITION_MAX,
        -POSITION_MAX <= camera.z <= POSITION_MAX,
        -DIRECTION_MAX <= direction.x <= DIRECTION_MAX,
        -DIRECTION_MAX <= direction.y <= DIRECTION_MAX,
        -DIRECTION_MAX <= direction.z <= DIRECTION_MAX,
        -SPAWN_DISTANCE_MAX <= distance <= SPAWN_DISTANCE_MAX,
    ensures
        p.wf(),
        p.rooted_at(
            (Vec3Fixed {
                x: (camera.x + direction.x * distance) as i64,
                y: (camera.y + direction.y * distance) as i64,
                z: (camera.z + direction.z * distance) as i64,
            }),
        ),
        p.entities@[0].name@ == prefab.spec_name(),
        builtin_plan_matches(
            *prefab,
            p,
            (Vec3Fixed {
                x: (camera.x + direction.x * distance) as i64,
                y: (camera.y + direction.y * distance) as i64,
                z: (camera.z + direction.z * distance) as i64,
            }),
        ),
{
    let location = spawn_position(camera, direction, distance);
    prefab.plan(location)
}

/// Fills the registry with the editor's stock content: a "Lights" group
/// holding the point light and the directional light, then a "Shapes"
/// group holding the plane and the cube, appended after whatever the
/// host application registered before.
pub fn setup_builtin_prefabs(prefab_groups: &mut PrefabGroups)
    ensures
        final(prefab_groups).groups_seq().len() == old(prefab_groups).groups_seq().len() + 2,
        forall|i: int|
            0 <= i < old(prefab_groups).groups_seq().len()
                ==> final(prefab_groups).groups_seq()[i] == old(prefab_groups).groups_seq()[i],
        ({
            let lights = final(prefab_groups).groups_seq()[old(
                prefab_groups,
            ).groups_seq().len() as int];
            &&& lights.spec_name() == "Lights"@
            &&& lights.prefabs_seq() == seq![
                BuiltinPrefab::PointLight(PointLightPrefab),
                BuiltinPrefab::DirectionalLight(DirectionalLightPrefab),
            ]
        }),
        ({
            let shapes = final(prefab_groups).groups_seq()[old(
                prefab_groups,
            ).groups_seq().len() as int + 1];
            &&& shapes.spec_name() == "Shapes"@
            &&& shapes.prefabs_seq() == seq![
                BuiltinPrefab::Plane(PlanePrefab),
                BuiltinPrefab::Cube(CubePrefab),
            ]
        }),
{
    let mut lights = PrefabGroup::new("Lights".to_owned());
    lights.add(BuiltinPrefab::PointLight(PointLightPrefab));
    lights.add(BuiltinPrefab::DirectionalLight(DirectionalLightPrefab));

    let mut shapes = PrefabGroup::new("Shapes".to_owned());
    shapes.add(BuiltinPrefab::Plane(PlanePrefab));
    shapes.add(BuiltinPrefab::Cube(CubePrefab));

    proof {
        assert(lights.prefabs_seq() =~= seq![
            BuiltinPrefab::PointLight(PointLightPrefab),
            BuiltinPrefab::DirectionalLight(DirectionalLightPrefab),
        ]);
        assert(shapes.prefabs_seq() =~= seq![
            BuiltinPrefab::Plane(PlanePrefab),
            BuiltinPrefab::Cube(CubePrefab),
        ]);
    }

    prefab_groups.add(lights);
    prefab_groups.add(shapes);
}

} // verus!
