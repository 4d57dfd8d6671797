//! An in-game level editor overlay for a 3D scene-graph runtime, modelled
//! over exact fixed-point arithmetic.
//!
//! The library holds the editor's logic: a prefab registry (named groups of
//! spawnable entity templates), spawn plans for the built-in prefabs, a
//! free-flying camera controller, the selection-to-spawn flow, and the
//! enabled-panel toggle map. A thin host-engine adapter performs the plans
//! and feeds input events in as plain values.
//!
//! Linear positions are carried in micro-units (one unit is 1_000_000),
//! linear sizes, distances and speeds in milli-units, and angles in
//! pico-radians, so that every per-frame computation is exact integer
//! arithmetic.

mod geometry;
mod prefab;
mod builtin_prefabs;
mod flycam;
mod editor;
mod resources;

pub use geometry::Vec3Fixed;
pub use prefab::{
    builtin_plan_matches, BaseColor, BuiltinPrefab, EntityPlan, LightSpec, MaterialSpec,
    MeshShape, Prefab, PrefabGroup, PrefabGroups, SpawnPlan, lemma_group_insertion_order,
    lemma_registry_insertion_order,
};
pub use builtin_prefabs::{
    cube_plan_matches, directional_light_plan_matches, plane_plan_matches,
    point_light_plan_matches, CubePrefab, DirectionalLightPrefab, PlanePrefab, PointLightPrefab,
    CUBE_SIZE,
    CYLINDER_HEIGHT, CYLINDER_RADIUS, CYLINDER_RESOLUTION, CYLINDER_SEGMENTS, DIRECTIONAL_TILT,
    MARKER_RADIUS, MARKER_SUBDIVISIONS, PLANE_SIZE, POINT_LIGHT_INTENSITY, POINT_LIGHT_RANGE,
};
pub use flycam::{
    Flycam, KeysPressed, MoveIntent, axis, clamp_pitch, lemma_horizontal_move_ignores_pitch,
    lemma_pitch_strictly_bounded, look_step, spec_move_forward, spec_move_right, spec_move_up,
    wrap_angle, DELTA_LOOK_MAX, FULL_TURN, HALF_TURN, LOOK_FACTOR, PITCH_EPS, PITCH_LIMIT,
    QUARTER_TURN, SCROLL_MAX, SENSITIVITY_MAX, SPEED_MAX, TIME_DELTA_MAX,
};
pub use editor::{
    EditorConfig, setup_builtin_prefabs, spawn_position, spawn_request, DEFAULT_SPAWN_DISTANCE,
    DIRECTION_MAX, POSITION_MAX, SPAWN_DISTANCE_MAX,
};
pub use resources::{EnabledPlugins, lemma_toggle_gates_run_predicate};
