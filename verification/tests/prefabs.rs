use level_editor::{BaseColor, BuiltinPrefab, CubePrefab, DirectionalLightPrefab, LightSpec,
    MaterialSpec, MeshShape, PlanePrefab, PointLightPrefab, Prefab, Vec3Fixed};

#[test]
fn cube_spawns_exactly_at_position() {
    let location = Vec3Fixed::new(1_000_000, 2_000_000, 3_000_000);
    let plan = CubePrefab.plan(location);
    assert_eq!(plan.entities.len(), 1);
    let root = &plan.entities[0];
    assert_eq!(root.name, "Cube");
    assert!(root.parent.is_none());
    assert_eq!(root.translation, location);
    assert_eq!(root.rotation_x, 0);
    assert_eq!(root.mesh, Some(MeshShape::Cube { size: 1_000 }));
    assert_eq!(
        root.material,
        Some(MaterialSpec { color: BaseColor::Yellow, unlit: false, two_sided: false })
    );
    assert!(root.light.is_none());
    assert!(root.shadow_caster);
}

#[test]
fn plane_spawns_exactly_at_position() {
    let location = Vec3Fixed::new(-4_000_000, 0, 7_500_000);
    let plan = PlanePrefab.plan(location);
    assert_eq!(plan.entities.len(), 1);
    let root = &plan.entities[0];
    assert_eq!(root.name, "Plane");
    assert!(root.parent.is_none());
    assert_eq!(root.translation, location);
    assert_eq!(root.mesh, Some(MeshShape::Plane { size: 10_000 }));
    assert_eq!(
        root.material,
        Some(MaterialSpec { color: BaseColor::Blue, unlit: false, two_sided: true })
    );
    assert!(root.light.is_none());
}

#[test]
fn point_light_plan_has_light_and_marker_child() {
    let location = Vec3Fixed::new(0, 5_000_000, 0);
    let plan = PointLightPrefab.plan(location);
    assert_eq!(plan.entities.len(), 2);
    let root = &plan.entities[0];
    assert_eq!(root.name, "Point Light");
    assert!(root.parent.is_none());
    assert_eq!(root.translation, location);
    assert_eq!(
        root.light,
        Some(LightSpec::Point { intensity: 9_000_000, range: 100_000, shadows: true })
    );
    assert!(root.mesh.is_none());
    let marker = &plan.entities[1];
    assert_eq!(marker.parent, Some(0));
    assert_eq!(marker.translation, Vec3Fixed::new(0, 0, 0));
    assert_eq!(marker.mesh, Some(MeshShape::Icosphere { radius: 100, subdivisions: 1 }));
    assert_eq!(
        marker.material,
        Some(MaterialSpec { color: BaseColor::White, unlit: true, two_sided: false })
    );
    assert!(!marker.shadow_caster);
}

#[test]
fn directional_light_plan_is_tilted_with_marker_child() {
    let location = Vec3Fixed::new(2_000_000, 8_000_000, -1_000_000);
    let plan = DirectionalLightPrefab.plan(location);
    assert_eq!(plan.entities.len(), 2);
    let root = &plan.entities[0];
    assert_eq!(root.name, "Directional Light");
    assert!(root.parent.is_none());
    assert_eq!(root.translation, location);
    assert_eq!(root.rotation_x, -636_619_772_368);
    assert_eq!(root.light, Some(LightSpec::Directional { shadows: true }));
    let marker = &plan.entities[1];
    assert_eq!(marker.parent, Some(0));
    assert_eq!(
        marker.mesh,
        Some(MeshShape::Cylinder { radius: 100, height: 200, resolution: 5, segments: 1 })
    );
    assert!(!marker.shadow_caster);
}

#[test]
fn every_builtin_roots_its_entities_at_the_target() {
    let location = Vec3Fixed::new(1_000_000, 2_000_000, 3_000_000);
    let builtins = [
        BuiltinPrefab::Plane(PlanePrefab),
        BuiltinPrefab::Cube(CubePrefab),
        BuiltinPrefab::PointLight(PointLightPrefab),
        BuiltinPrefab::DirectionalLight(DirectionalLightPrefab),
    ];
    for prefab in builtins {
        let plan = prefab.spawn(location);
        assert!(!plan.entities.is_empty());
        for entity in &plan.entities {
            if entity.parent.is_none() {
                assert_eq!(entity.translation, location);
            }
        }
    }
}

#[test]
fn builtin_names_match_their_prefabs() {
    assert_eq!(PlanePrefab.name(), "Plane");
    assert_eq!(CubePrefab.name(), "Cube");
    assert_eq!(PointLightPrefab.name(), "Point Light");
    assert_eq!(DirectionalLightPrefab.name(), "Directional Light");
    assert_eq!(BuiltinPrefab::Cube(CubePrefab).name(), "Cube");
}
