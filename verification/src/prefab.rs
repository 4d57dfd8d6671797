//! Prefabs, spawn plans, and the prefab registry.
//!
//! A prefab is a named template that, given a target location, yields a
//! `SpawnPlan`: an exact description of the entities to create, their
//! meshes, materials, lights, and transforms. The host adapter performs a
//! plan against the live scene; the plan itself is plain data, so everything
//! up to the scene mutation is verified.
//!
//! The registry is a two-level, append-only structure: an ordered list of
//! named groups, each an ordered list of prefabs. Order is display order.

use vstd::prelude::*;

use crate::geometry::Vec3Fixed;
use crate::builtin_prefabs::{
    cube_plan_matches, directional_light_plan_matches, plane_plan_matches,
    point_light_plan_matches, CubePrefab, DirectionalLightPrefab, PlanePrefab, PointLightPrefab,
};

verus! {

/// A procedural mesh shape, with lengths in milli-units.
#[derive(Clone, Copy, Debug, PartialEq, Eq, Structural)]
pub enum MeshShape {
    /// A square plane of the given side length.
    Plane { size: i64 },
    /// An axis-aligned cube of the given edge length.
    Cube { size: i64 },
    /// A subdivided icosphere of the given radius.
    Icosphere { radius: i64, subdivisions: u32 },
    /// A cylinder of the given radius and height.
    Cylinder { radius: i64, height: i64, resolution: u32, segments: u32 },
}

/// A base color for a prefab's material.
#[derive(Clone, Copy, Debug, PartialEq, Eq, Structural)]
pub enum BaseColor {
    Blue,
    Yellow,
    White,
}

/// A material: a base color plus the flags the built-in prefabs use.
#[derive(Clone, Copy, Debug, PartialEq, Eq, Structural)]
pub struct MaterialSpec {
    /// Base color of the surface.
    pub color: BaseColor,
    /// Whether the surface ignores scene lighting.
    pub unlit: bool,
    /// Whether back-face culling is disabled.
    pub two_sided: bool,
}

/// A light source attached to an entity.
#[derive(Clone, Copy, Debug, PartialEq, Eq, Structural)]
pub enum LightSpec {
    /// A point light; intensity and range are in milli-units.
    Point { intensity: i64, range: i64, shadows: bool },
    /// A directional light.
    Directional { shadows: bool },
}

/// One entity of a spawn plan.
#[derive(Debug)]
pub struct EntityPlan {
    /// Human-readable debug name.
    pub name: String,
    /// Index of the parent entity within the same plan, if any. A parent
    /// always stands earlier in the plan than its child.
    pub parent: Option<usize>,
    /// Translation: world-space micro-units for a root entity,
    /// parent-relative micro-units for a child.
    pub translation: Vec3Fixed,
    /// Rotation about the X axis in pico-radians (the only rotation the
    /// built-in prefabs use).
    pub rotation_x: i64,
    /// Mesh to attach, if any.
    pub mesh: Option<MeshShape>,
    /// Material for the mesh, if any.
    pub material: Option<MaterialSpec>,
    /// Light source to attach, if any.
    pub light: Option<LightSpec>,
    /// Whether the entity casts shadows.
    pub shadow_caster: bool,
}

/// An exact description of the entities one spawn creates.
#[derive(Debug)]
pub struct SpawnPlan {
    /// The entities to create, parents before children.
    pub entities: Vec<EntityPlan>,
}

impl SpawnPlan {
    /// A plan is well formed when it is non-empty, starts at a root, and
    /// every parent reference points to an earlier entity.
    pub open spec fn wf(self) -> bool {
        &&& self.entities@.len() > 0
        &&& self.entities@[0].parent is None
        &&& forall|i: int|
            0 <= i < self.entities@.len() ==> (#[trigger] self.entities@[i].parent matches Some(p)
                ==> p < i)
    }

    /// Every root entity of the plan sits exactly at `location`.
    pub open spec fn rooted_at(self, location: Vec3Fixed) -> bool {
        forall|i: int|
            0 <= i < self.entities@.len() && (#[trigger] self.entities@[i].parent) is None
                ==> self.entities@[i].translation == location
    }
}

/// An object that can describe how to spawn scene entities at a location.
pub trait Prefab {
    /// The prefab's display name, as a mathematical value.
    spec fn spec_name(&self) -> Seq<char>;

    /// The prefab's display name.
    fn name(&self) -> (n: &str)
        ensures
            n@ == self.spec_name(),
    ;

    /// Describes the entities to create at `location` (world micro-units).
    /// The plan is well formed, every root entity of it sits exactly at
    /// `location`, and the first entity carries the prefab's own name.
    fn spawn(&self, location: Vec3Fixed) -> (p: SpawnPlan)
        ensures
            p.wf(),
            p.rooted_at(location),
            p.entities@[0].name@ == self.spec_name(),
    ;
}

/// One of the prefabs the editor ships with, as a closed choice so that a
/// registry can hold any mix of them as plain data.
#[derive(Clone, Copy, Debug, PartialEq, Eq, Structural)]
pub enum BuiltinPrefab {
    Plane(PlanePrefab),
    Cube(CubePrefab),
    PointLight(PointLightPrefab),
    DirectionalLight(DirectionalLightPrefab),
}

/// The exact plan the given built-in prefab's spawn yields at `location`.
pub open spec fn builtin_plan_matches(
    prefab: BuiltinPrefab,
    p: SpawnPlan,
    location: Vec3Fixed,
) -> bool {
    match prefab {
        BuiltinPrefab::Plane(_) => plane_plan_matches(p, location),
        BuiltinPrefab::Cube(_) => cube_plan_matches(p, location),
        BuiltinPrefab::PointLight(_) => point_light_plan_matches(p, location),
        BuiltinPrefab::DirectionalLight(_) => directional_light_plan_matches(p, location),
    }
}

impl BuiltinPrefab {
    /// Builds the prefab's exact spawn plan.
    pub fn plan(&self, location: Vec3Fixed) -> (p: SpawnPlan)
        ensures
            builtin_plan_matches(*self, p, location),
            p.wf(),
            p.rooted_at(location),
            p.entities@[0].name@ == self.spec_name(),
    {
        match self {
            BuiltinPrefab::Plane(q) => q.plan(location),
            BuiltinPrefab::Cube(q) => q.plan(location),
            BuiltinPrefab::PointLight(q) => q.plan(location),
            BuiltinPrefab::DirectionalLight(q) => q.plan(location),
        }
    }
}

impl Prefab for BuiltinPrefab {
    open spec fn spec_name(&self) -> Seq<char> {
        match self {
            BuiltinPrefab::Plane(p) => p.spec_name(),
            BuiltinPrefab::Cube(p) => p.spec_name(),
            BuiltinPrefab::PointLight(p) => p.spec_name(),
            BuiltinPrefab::DirectionalLight(p) => p.spec_name(),
        }
    }

    fn name(&self) -> (n: &str) {
        match self {
            BuiltinPrefab::Plane(p) => p.name(),
            BuiltinPrefab::Cube(p) => p.name(),
            BuiltinPrefab::PointLight(p) => p.name(),
            BuiltinPrefab::DirectionalLight(p) => p.name(),
        }
    }

    fn spawn(&self, location: Vec3Fixed) -> (p: SpawnPlan) {
        self.plan(location)
    }
}

/// A named, ordered grouping of related prefabs.
pub struct PrefabGroup {
    name: String,
    prefabs: Vec<BuiltinPrefab>,
}

impl PrefabGroup {
    /// The group's display name, as a mathematical value.
    pub closed spec fn spec_name(&self) -> Seq<char> {
        self.name@
    }

    /// The group's prefabs in display order, as a mathematical value.
    pub closed spec fn prefabs_seq(&self) -> Seq<BuiltinPrefab> {
        self.prefabs@
    }

    /// Creates an empty group with the given display name.
    pub fn new(name: String) -> (g: Self)
        ensures
            g.spec_name() == name@,
            g.prefabs_seq() == Seq::<BuiltinPrefab>::empty(),
    {
        Self { name, prefabs: Vec::new() }
    }

    /// The group's display name.
    pub fn name(&self) -> (n: &str)
        ensures
            n@ == self.spec_name(),
    {
        self.name.as_str()
    }

    /// Appends a prefab at the end of the group's display order.
    pub fn add(&mut self, prefab: BuiltinPrefab)
        ensures
            final(self).spec_name() == old(self).spec_name(),
            final(self).prefabs_seq() == old(self).prefabs_seq().push(prefab),
    {
        self.prefabs.push(prefab);
    }

    /// Read-only access to the group's prefabs, in insertion order.
    pub fn iter_mut(&self) -> (r: &Vec<BuiltinPrefab>)
        ensures
            r@ == self.prefabs_seq(),
    {
        &self.prefabs
    }
}

/// The ordered listing of all prefab groups: append-only for the plugin's
/// lifetime, populated during setup and read during rendering.
pub struct PrefabGroups {
    groups: Vec<PrefabGroup>,
}

impl PrefabGroups {
    /// The registry's groups in display order, as a mathematical value.
    pub closed spec fn groups_seq(&self) -> Seq<PrefabGroup> {
        self.groups@
    }

    /// Creates an empty registry.
    pub fn new() -> (r: Self)
        ensures
            r.groups_seq() == Seq::<PrefabGroup>::empty(),
    {
        Self { groups: Vec::new() }
    }

    /// Appends a group at the end of the registry's display order.
    pub fn add(&mut self, group: PrefabGroup)
        ensures
            final(self).groups_seq() == old(self).groups_seq().push(group),
    {
        self.groups.push(group);
    }

    /// Read-only access to the registry's groups, in insertion order.
    pub fn iter(&self) -> (r: &Vec<PrefabGroup>)
        ensures
            r@ == self.groups_seq(),
    {
        &self.groups
    }
}

impl Default for PrefabGroups {
    /// The empty registry the plugin starts with.
    fn default() -> (r: Self)
        ensures
            r.groups_seq() == Seq::<PrefabGroup>::empty(),
    {
        Self::new()
    }
}

/// Appending a group to the registry keeps every earlier group at its
/// place and adds the new one at the end: over any sequence of `add`
/// calls, `iter` therefore yields the groups in insertion order, with no
/// duplication or loss.
pub proof fn lemma_registry_insertion_order(before: Seq<PrefabGroup>, group: PrefabGroup)
    ensures
        before.push(group).len() == before.len() + 1,
        forall|i: int| 0 <= i < before.len() ==> before.push(group)[i] == before[i],
        before.push(group)[before.len() as int] == group,
{
}

/// Appending a prefab to a group keeps every earlier prefab at its place
/// and adds the new one at the end: over any sequence of `add` calls on a
/// group, its prefabs come back in insertion order.
pub proof fn lemma_group_insertion_order(before: Seq<BuiltinPrefab>, prefab: BuiltinPrefab)
    ensures
        before.push(prefab).len() == before.len() + 1,
        forall|i: int| 0 <= i < before.len() ==> before.push(prefab)[i] == before[i],
        before.push(prefab)[before.len() as int] == prefab,
{
}

} // verus!
