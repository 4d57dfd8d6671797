use level_editor::{BuiltinPrefab, CubePrefab, DirectionalLightPrefab, PlanePrefab,
    PointLightPrefab, Prefab, PrefabGroup, PrefabGroups};

#[test]
fn empty_registry_yields_nothing() {
    let registry = PrefabGroups::new();
    assert_eq!(registry.iter().len(), 0);
}

#[test]
fn registry_yields_groups_in_insertion_order() {
    let mut registry = PrefabGroups::new();
    registry.add(PrefabGroup::new("Lights".to_string()));
    registry.add(PrefabGroup::new("Shapes".to_string()));
    registry.add(PrefabGroup::new("Props".to_string()));
    let groups = registry.iter();
    assert_eq!(groups.len(), 3);
    assert_eq!(groups[0].name(), "Lights");
    assert_eq!(groups[1].name(), "Shapes");
    assert_eq!(groups[2].name(), "Props");
}

#[test]
fn group_yields_prefabs_in_insertion_order() {
    let mut group = PrefabGroup::new("Everything".to_string());
    group.add(BuiltinPrefab::PointLight(PointLightPrefab));
    group.add(BuiltinPrefab::Plane(PlanePrefab));
    group.add(BuiltinPrefab::Cube(CubePrefab));
    group.add(BuiltinPrefab::DirectionalLight(DirectionalLightPrefab));
    let prefabs = group.iter_mut();
    assert_eq!(prefabs.len(), 4);
    assert_eq!(prefabs[0], BuiltinPrefab::PointLight(PointLightPrefab));
    assert_eq!(prefabs[1], BuiltinPrefab::Plane(PlanePrefab));
    assert_eq!(prefabs[2], BuiltinPrefab::Cube(CubePrefab));
    assert_eq!(prefabs[3], BuiltinPrefab::DirectionalLight(DirectionalLightPrefab));
    assert_eq!(prefabs[1].name(), "Plane");
}

#[test]
fn group_keeps_its_name() {
    let group = PrefabGroup::new("Shapes".to_string());
    assert_eq!(group.name(), "Shapes");
}

#[test]
fn group_allows_duplicate_prefabs() {
    let mut group = PrefabGroup::new("Cubes".to_string());
    group.add(BuiltinPrefab::Cube(CubePrefab));
    group.add(BuiltinPrefab::Cube(CubePrefab));
    let prefabs = group.iter_mut();
    assert_eq!(prefabs.len(), 2);
    assert_eq!(prefabs[0], prefabs[1]);
}
