use level_editor::{BuiltinPrefab, CubePrefab, DirectionalLightPrefab, EditorConfig, PlanePrefab,
    PointLightPrefab, PrefabGroup, PrefabGroups, Vec3Fixed, setup_builtin_prefabs,
    spawn_position, spawn_request, DEFAULT_SPAWN_DISTANCE};

#[test]
fn default_config_spawns_ten_units_out() {
    let config = EditorConfig::default();
    assert_eq!(config.spawn_distance, 10_000);
    assert_eq!(config.spawn_distance, DEFAULT_SPAWN_DISTANCE);
}

#[test]
fn spawn_position_is_camera_plus_scaled_direction() {
    // The startup camera at (0, 4, 10) looking straight down negative Z.
    let camera = Vec3Fixed::new(0, 4_000_000, 10_000_000);
    let direction = Vec3Fixed::new(0, 0, -1_000);
    let position = spawn_position(camera, direction, 10_000);
    assert_eq!(position, Vec3Fixed::new(0, 4_000_000, 0));

    let slanted = spawn_position(
        Vec3Fixed::new(1_000_000, 2_000_000, 3_000_000),
        Vec3Fixed::new(600, -800, 0),
        5_000,
    );
    assert_eq!(slanted, Vec3Fixed::new(4_000_000, -2_000_000, 3_000_000));
}

#[test]
fn spawn_request_roots_the_plan_at_the_spawn_position() {
    let camera = Vec3Fixed::new(0, 4_000_000, 10_000_000);
    let direction = Vec3Fixed::new(0, 0, -1_000);
    let plan = spawn_request(
        &BuiltinPrefab::Cube(CubePrefab),
        camera,
        direction,
        DEFAULT_SPAWN_DISTANCE,
    );
    assert_eq!(plan.entities.len(), 1);
    assert_eq!(plan.entities[0].translation, Vec3Fixed::new(0, 4_000_000, 0));
    assert_eq!(plan.entities[0].name, "Cube");
}

#[test]
fn builtin_groups_arrive_in_stock_order() {
    let mut registry = PrefabGroups::new();
    setup_builtin_prefabs(&mut registry);
    let groups = registry.iter();
    assert_eq!(groups.len(), 2);
    assert_eq!(groups[0].name(), "Lights");
    assert_eq!(
        groups[0].iter_mut().as_slice(),
        &[
            BuiltinPrefab::PointLight(PointLightPrefab),
            BuiltinPrefab::DirectionalLight(DirectionalLightPrefab),
        ]
    );
    assert_eq!(groups[1].name(), "Shapes");
    assert_eq!(
        groups[1].iter_mut().as_slice(),
        &[BuiltinPrefab::Plane(PlanePrefab), BuiltinPrefab::Cube(CubePrefab)]
    );
}

#[test]
fn builtin_groups_append_after_existing_ones() {
    let mut registry = PrefabGroups::new();
    registry.add(PrefabGroup::new("Mine".to_string()));
    setup_builtin_prefabs(&mut registry);
    let groups = registry.iter();
    assert_eq!(groups.len(), 3);
    assert_eq!(groups[0].name(), "Mine");
    assert_eq!(groups[1].name(), "Lights");
    assert_eq!(groups[2].name(), "Shapes");
}
