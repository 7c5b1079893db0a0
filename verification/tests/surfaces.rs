use shell_hub::hotkey::hotkey_combination;
use shell_hub::menu::menu_model;
use shell_hub::registry::WindowRegistry;

#[test]
fn menu_has_the_five_entries_in_display_order() {
    let menu = menu_model();
    let ids: Vec<&str> = menu.iter().map(|e| e.id.as_str()).collect();
    assert_eq!(ids, vec!["open", "hands_free", "mute", "model_picker", "quit"]);
    let labels: Vec<&str> = menu.iter().map(|e| e.label.as_str()).collect();
    assert_eq!(labels, vec!["Open", "Hands-free", "Mute", "Model Picker", "Quit"]);
    assert!(menu.iter().all(|e| e.enabled));
}

#[test]
fn hotkey_is_alt_space() {
    assert_eq!(hotkey_combination(), "Alt+Space");
}

#[test]
fn empty_registry_resolves_nothing() {
    let registry = WindowRegistry::new();
    assert_eq!(registry.get(&"main".to_string()), None);
    assert!(!registry.main_window_present());
}

#[test]
fn registered_main_window_is_found() {
    let mut registry = WindowRegistry::new();
    registry.register("main".to_string(), 7);
    assert_eq!(registry.get(&"main".to_string()), Some(7));
    assert!(registry.main_window_present());
    assert_eq!(registry.get(&"other".to_string()), None);
}

#[test]
fn earlier_binding_wins() {
    let mut registry = WindowRegistry::new();
    registry.register("main".to_string(), 7);
    registry.register("main".to_string(), 9);
    assert_eq!(registry.get(&"main".to_string()), Some(7));
}
