use level_editor::EnabledPlugins;

#[test]
fn registered_panels_start_disabled() {
    let mut plugins = EnabledPlugins::new();
    plugins.register("AmbientLight".to_string());
    assert_eq!(plugins.len(), 1);
    assert_eq!(plugins.name_at(0), "AmbientLight");
    assert!(!plugins.enabled_at(0));
    assert!(!plugins.is_enabled(&"AmbientLight".to_string()));
}

#[test]
fn toggling_enables_the_run_predicate_and_back() {
    let mut plugins = EnabledPlugins::new();
    plugins.register("AmbientLight".to_string());
    plugins.toggle_at(0);
    assert!(plugins.is_enabled(&"AmbientLight".to_string()));
    plugins.toggle_at(0);
    assert!(!plugins.is_enabled(&"AmbientLight".to_string()));
}

#[test]
fn toggling_one_panel_leaves_the_others_alone() {
    let mut plugins = EnabledPlugins::new();
    plugins.register("AmbientLight".to_string());
    plugins.register("ClearColor".to_string());
    plugins.register("Gravity".to_string());
    plugins.toggle_at(1);
    assert!(!plugins.is_enabled(&"AmbientLight".to_string()));
    assert!(plugins.is_enabled(&"ClearColor".to_string()));
    assert!(!plugins.is_enabled(&"Gravity".to_string()));
}

#[test]
fn registering_again_resets_the_flag_without_growing() {
    let mut plugins = EnabledPlugins::new();
    plugins.register("AmbientLight".to_string());
    plugins.toggle_at(0);
    assert!(plugins.is_enabled(&"AmbientLight".to_string()));
    plugins.register("AmbientLight".to_string());
    assert_eq!(plugins.len(), 1);
    assert!(!plugins.is_enabled(&"AmbientLight".to_string()));
}

#[test]
fn registration_order_is_display_order() {
    let mut plugins = EnabledPlugins::new();
    plugins.register("AmbientLight".to_string());
    plugins.register("ClearColor".to_string());
    assert_eq!(plugins.len(), 2);
    assert_eq!(plugins.name_at(0), "AmbientLight");
    assert_eq!(plugins.name_at(1), "ClearColor");
}
