//! The prefabs the editor ships with: a plane, a cube, a point light and a
//! directional light. One spec predicate per prefab pins down the exact
//! entities a spawn creates; each `plan` is proved against its predicate,
//! and the `Prefab` impls delegate to it.

use vstd::prelude::*;

use crate::geometry::Vec3Fixed;
use crate::prefab::{
    BaseColor, EntityPlan, LightSpec, MaterialSpec, MeshShape, Prefab, SpawnPlan,
};

verus! {

/// Side length of the plane prefab's mesh, in milli-units.
pub const PLANE_SIZE: i64 = 10_000;

/// Edge length of the cube prefab's mesh, in milli-units.
pub const CUBE_SIZE: i64 = 1_000;

/// Radius of the point light's marker sphere, in milli-units.
pub const MARKER_RADIUS: i64 = 100;

/// Subdivision count of the point light's marker sphere.
pub const MARKER_SUBDIVISIONS: u32 = 1;

/// Intensity of the point light prefab, in milli-units.
pub const POINT_LIGHT_INTENSITY: i64 = 9_000_000;

/// Range of the point light prefab, in milli-units.
pub const POINT_LIGHT_RANGE: i64 = 100_000;

/// Radius of the directional light's marker cylinder, in milli-units.
pub const CYLINDER_RADIUS: i64 = 100;

/// Height of the directional light's marker cylinder, in milli-units.
pub const CYLINDER_HEIGHT: i64 = 200;

/// Resolution of the directional light's marker cylinder.
pub const CYLINDER_RESOLUTION: u32 = 5;

/// Segment count of the directional light's marker cylinder.
pub const CYLINDER_SEGMENTS: u32 = 1;

/// Downward tilt of the directional light prefab about the X axis, in
/// pico-radians (minus two over pi radians).
pub const DIRECTIONAL_TILT: i64 = -636_619_772_368;

/// The exact plan of one plane spawn: a single two-sided blue plane
/// entity at `location`.
pub open spec fn plane_plan_matches(p: SpawnPlan, location: Vec3Fixed) -> bool {
    &&& p.entities@.len() == 1
    &&& p.entities@[0].name@ == "Plane"@
    &&& p.entities@[0].parent is None
    &&& p.entities@[0].translation == location
    &&& p.entities@[0].rotation_x == 0
    &&& p.entities@[0].mesh == Some((MeshShape::Plane { size: PLANE_SIZE }))
    &&& p.entities@[0].material == Some(
        (MaterialSpec { color: BaseColor::Blue, unlit: false, two_sided: true }),
    )
    &&& p.entities@[0].light is None
    &&& p.entities@[0].shadow_caster
}

/// The exact plan of one cube spawn: a single yellow cube entity at
/// `location`.
pub open spec fn cube_plan_matches(p: SpawnPlan, location: Vec3Fixed) -> bool {
    &&& p.entities@.len() == 1
    &&& p.entities@[0].name@ == "Cube"@
    &&& p.entities@[0].parent is None
    &&& p.entities@[0].translation == location
    &&& p.entities@[0].rotation_x == 0
    &&& p.entities@[0].mesh == Some((MeshShape::Cube { size: CUBE_SIZE }))
    &&& p.entities@[0].material == Some(
        (MaterialSpec { color: BaseColor::Yellow, unlit: false, two_sided: false }),
    )
    &&& p.entities@[0].light is None
    &&& p.entities@[0].shadow_caster
}

/// The exact plan of one point-light spawn: a shadow-casting point light
/// at `location`, with a small white unlit marker sphere as its child at
/// the parent's origin.
pub open spec fn point_light_plan_matches(p: SpawnPlan, location: Vec3Fixed) -> bool {
    &&& p.entities@.len() == 2
    &&& p.entities@[0].name@ == "Point Light"@
    &&& p.entities@[0].parent is None
    &&& p.entities@[0].translation == location
    &&& p.entities@[0].rotation_x == 0
    &&& p.entities@[0].mesh is None
    &&& p.entities@[0].material is None
    &&& p.entities@[0].light == Some(
        (LightSpec::Point {
            intensity: POINT_LIGHT_INTENSITY,
            range: POINT_LIGHT_RANGE,
            shadows: true,
        }),
    )
    &&& p.entities@[0].shadow_caster
    &&& p.entities@[1].parent == Some(0usize)
    &&& p.entities@[1].translation == (Vec3Fixed { x: 0, y: 0, z: 0 })
    &&& p.entities@[1].rotation_x == 0
    &&& p.entities@[1].mesh == Some(
        (MeshShape::Icosphere { radius: MARKER_RADIUS, subdivisions: MARKER_SUBDIVISIONS }),
    )
    &&& p.entities@[1].material == Some(
        (MaterialSpec { color: BaseColor::White, unlit: true, two_sided: false }),
    )
    &&& p.entities@[1].light is None
    &&& !p.entities@[1].shadow_caster
}

/// The exact plan of one directional-light spawn: a shadow-casting
/// directional light at `location` with a fixed downward tilt, and a
/// white unlit marker cylinder as its child at the parent's origin.
pub open spec fn directional_light_plan_matches(p: SpawnPlan, location: Vec3Fixed) -> bool {
    &&& p.entities@.len() == 2
    &&& p.entities@[0].name@ == "Directional Light"@
    &&& p.entities@[0].parent is None
    &&& p.entities@[0].translation == location
    &&& p.entities@[0].rotation_x == DIRECTIONAL_TILT
    &&& p.entities@[0].mesh is None
    &&& p.entities@[0].material is None
    &&& p.entities@[0].light == Some((LightSpec::Directional { shadows: true }))
    &&& p.entities@[0].shadow_caster
    &&& p.entities@[1].parent == Some(0usize)
    &&& p.entities@[1].translation == (Vec3Fixed { x: 0, y: 0, z: 0 })
    &&& p.entities@[1].rotation_x == 0
    &&& p.entities@[1].mesh == Some(
        (MeshShape::Cylinder {
            radius: CYLINDER_RADIUS,
            height: CYLINDER_HEIGHT,
            resolution: CYLINDER_RESOLUTION,
            segments: CYLINDER_SEGMENTS,
        }),
    )
    &&& p.entities@[1].material == Some(
        (MaterialSpec { color: BaseColor::White, unlit: true, two_sided: false }),
    )
    &&& p.entities@[1].light is None
    &&& !p.entities@[1].shadow_caster
}

/// A flat square plane.
#[derive(Clone, Copy, Debug, PartialEq, Eq, Structural)]
pub struct PlanePrefab;

impl PlanePrefab {
    /// Builds the plane's exact spawn plan.
    pub fn plan(&self, location: Vec3Fixed) -> (p: SpawnPlan)
        ensures
            plane_plan_matches(p, location),
            p.wf(),
            p.rooted_at(location),
    {
        let root = EntityPlan {
            name: "Plane".to_owned(),
            parent: None,
            translation: location,
            rotation_x: 0,
            mesh: Some(MeshShape::Plane { size: PLANE_SIZE }),
            material: Some(MaterialSpec { color: BaseColor::Blue, unlit: false, two_sided: true }),
            light: None,
            shadow_caster: true,
        };
        let mut entities: Vec<EntityPlan> = Vec::new();
        entities.push(root);
        SpawnPlan { entities }
    }
}

impl Prefab for PlanePrefab {
    open spec fn spec_name(&self) -> Seq<char> {
        "Plane"@
    }

    fn name(&self) -> (n: &str) {
        "Plane"
    }

    fn spawn(&self, location: Vec3Fixed) -> (p: SpawnPlan) {
        self.plan(location)
    }
}

/// An axis-aligned cube.
#[derive(Clone, Copy, Debug, PartialEq, Eq, Structural)]
pub struct CubePrefab;

impl CubePrefab {
    /// Builds the cube's exact spawn plan.
    pub fn plan(&self, location: Vec3Fixed) -> (p: SpawnPlan)
        ensures
            cube_plan_matches(p, location),
            p.wf(),
            p.rooted_at(location),
    {
        let root = EntityPlan {
            name: "Cube".to_owned(),
            parent: None,
            translation: location,
            rotation_x: 0,
            mesh: Some(MeshShape::Cube { size: CUBE_SIZE }),
            material: Some(
                MaterialSpec { color: BaseColor::Yellow, unlit: false, two_sided: false },
            ),
            light: None,
            shadow_caster: true,
        };
        let mut entities: Vec<EntityPlan> = Vec::new();
        entities.push(root);
        SpawnPlan { entities }
    }
}

impl Prefab for CubePrefab {
    open spec fn spec_name(&self) -> Seq<char> {
        "Cube"@
    }

    fn name(&self) -> (n: &str) {
        "Cube"
    }

    fn spawn(&self, location: Vec3Fixed) -> (p: SpawnPlan) {
        self.plan(location)
    }
}

/// A point light with a small unlit marker sphere as a child.
#[derive(Clone, Copy, Debug, PartialEq, Eq, Structural)]
pub struct PointLightPrefab;

impl PointLightPrefab {
    /// Builds the point light's exact spawn plan.
    pub fn plan(&self, location: Vec3Fixed) -> (p: SpawnPlan)
        ensures
            point_light_plan_matches(p, location),
            p.wf(),
            p.rooted_at(location),
    {
        let root = EntityPlan {
            name: "Point Light".to_owned(),
            parent: None,
            translation: location,
            rotation_x: 0,
            mesh: None,
            material: None,
            light: Some(
                LightSpec::Point {
                    intensity: POINT_LIGHT_INTENSITY,
                    range: POINT_LIGHT_RANGE,
                    shadows: true,
                },
            ),
            shadow_caster: true,
        };
        let marker = EntityPlan {
            name: "".to_owned(),
            parent: Some(0),
            translation: Vec3Fixed { x: 0, y: 0, z: 0 },
            rotation_x: 0,
            mesh: Some(
                MeshShape::Icosphere { radius: MARKER_RADIUS, subdivisions: MARKER_SUBDIVISIONS },
            ),
            material: Some(MaterialSpec { color: BaseColor::White, unlit: true, two_sided: false }),
            light: None,
            shadow_caster: false,
        };
        let mut entities: Vec<EntityPlan> = Vec::new();
        entities.push(root);
        entities.push(marker);
        SpawnPlan { entities }
    }
}

impl Prefab for PointLightPrefab {
    open spec fn spec_name(&self) -> Seq<char> {
        "Point Light"@
    }

    fn name(&self) -> (n: &str) {
        "Point Light"
    }

    fn spawn(&self, location: Vec3Fixed) -> (p: SpawnPlan) {
        self.plan(location)
    }
}

/// A directional light, tilted downward, with a marker cylinder as a child.
#[derive(Clone, Copy, Debug, PartialEq, Eq, Structural)]
pub struct DirectionalLightPrefab;

impl DirectionalLightPrefab {
    /// Builds the directional light's exact spawn plan.
    pub fn plan(&self, location: Vec3Fixed) -> (p: SpawnPlan)
        ensures
            directional_light_plan_matches(p, location),
            p.wf(),
            p.rooted_at(location),
    {
        let root = EntityPlan {
            name: "Directional Light".to_owned(),
            parent: None,
            translation: location,
            rotation_x: DIRECTIONAL_TILT,
            mesh: None,
            material: None,
            light: Some(LightSpec::Directional { shadows: true }),
            shadow_caster: true,
        };
        let marker = EntityPlan {
            name: "".to_owned(),
            parent: Some(0),
            translation: Vec3Fixed { x: 0, y: 0, z: 0 },
            rotation_x: 0,
            mesh: Some(
                MeshShape::Cylinder {
                    radius: CYLINDER_RADIUS,
                    height: CYLINDER_HEIGHT,
                    resolution: CYLINDER_RESOLUTION,
                    segments: CYLINDER_SEGMENTS,
                },
            ),
            material: Some(MaterialSpec { color: BaseColor::White, unlit: true, two_sided: false }),
            light: None,
            shadow_caster: false,
        };
        let mut entities: Vec<EntityPlan> = Vec::new();
        entities.push(root);
        entities.push(marker);
        SpawnPlan { entities }
    }
}

impl Prefab for DirectionalLightPrefab {
    open spec fn spec_name(&self) -> Seq<char> {
        "Directional Light"@
    }

    fn name(&self) -> (n: &str) {
        "Directional Light"
    }

    fn spawn(&self, location: Vec3Fixed) -> (p: SpawnPlan) {
        self.plan(location)
    }
}

} // verus!
