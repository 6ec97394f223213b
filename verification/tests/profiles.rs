use smart_refresh::core_logic::Sensitivity;
use smart_refresh::profiles::sensitivity_or_balanced;
use smart_refresh::profiles::GameProfile;
use smart_refresh::profiles::GlobalDefault;
use smart_refresh::profiles::ProfileListResponse;
use smart_refresh::profiles::ProfileManager;

fn profile(app_id: &str, name: &str, min_hz: u32, max_hz: u32, sensitivity: &str) -> GameProfile {
    GameProfile::new(app_id.to_string(), name.to_string(), min_hz, max_hz, sensitivity.to_string())
}

#[test]
fn profile_names_its_sensitivity_leniently() {
    assert_eq!(profile("1", "a", 40, 90, "conservative").get_sensitivity(), Sensitivity::Conservative);
    assert_eq!(profile("1", "a", 40, 90, "AGGRESSIVE").get_sensitivity(), Sensitivity::Aggressive);
    assert_eq!(profile("1", "a", 40, 90, "Balanced").get_sensitivity(), Sensitivity::Balanced);
    assert_eq!(profile("1", "a", 40, 90, "whatever").get_sensitivity(), Sensitivity::Balanced);
    assert_eq!(profile("1", "a", 40, 90, "").get_sensitivity(), Sensitivity::Balanced);
    assert_eq!(sensitivity_or_balanced("Conservative"), Sensitivity::Balanced);
    assert!(!profile("1", "a", 40, 90, "").adaptive_sensitivity);
}

#[test]
fn manager_starts_empty_with_the_global_default() {
    let manager = ProfileManager::default();
    assert!(manager.get_all_profiles().is_empty());
    assert_eq!(manager.get_current_game(), None);
    assert_eq!(manager.global_default, GlobalDefault::default());
    assert_eq!(manager.global_default.sensitivity, "balanced");
    assert_eq!(manager.get_current_settings(), (40, 90, Sensitivity::Balanced, false));
}

#[test]
fn profiles_are_kept_one_per_game() {
    let mut manager = ProfileManager::default();
    manager.set_profile(profile("730", "CS", 60, 90, "aggressive"));
    manager.set_profile(profile("570", "Dota", 40, 60, "conservative"));
    manager.set_profile(profile("730", "CS2", 50, 90, "balanced"));
    assert_eq!(manager.get_all_profiles().len(), 2);
    assert_eq!(manager.get_profile("730"), Some(&profile("730", "CS2", 50, 90, "balanced")));
    assert_eq!(manager.get_profile("570").unwrap().name, "Dota");
    assert_eq!(manager.get_profile("1"), None);
    let names: Vec<String> = manager.get_all_profiles().iter().map(|p| p.name.clone()).collect();
    assert_eq!(names, vec!["CS2".to_string(), "Dota".to_string()]);

    assert_eq!(manager.remove_profile("570"), Some(profile("570", "Dota", 40, 60, "conservative")));
    assert_eq!(manager.remove_profile("570"), None);
    assert_eq!(manager.get_all_profiles().len(), 1);
    assert_eq!(manager.get_profile("570"), None);
    assert!(manager.get_profile("730").is_some());
}

#[test]
fn current_settings_come_from_the_profile_or_the_default() {
    let mut manager = ProfileManager::default();
    let mut adaptive = profile("730", "CS", 60, 85, "Aggressive");
    adaptive.adaptive_sensitivity = true;
    manager.set_profile(adaptive);
    manager.set_global_default(45, 75, "CONSERVATIVE".to_string(), true);
    assert_eq!(manager.get_current_settings(), (45, 75, Sensitivity::Conservative, true));

    manager.set_current_game(Some("730".to_string()));
    assert_eq!(manager.get_current_game(), Some(&"730".to_string()));
    assert_eq!(manager.get_current_settings(), (60, 85, Sensitivity::Aggressive, true));

    manager.set_current_game(Some("999".to_string()));
    assert_eq!(manager.get_current_settings(), (45, 75, Sensitivity::Conservative, true));

    manager.set_current_game(None);
    assert_eq!(manager.get_current_settings(), (45, 75, Sensitivity::Conservative, true));
}

#[test]
fn profile_list_shows_the_store() {
    let mut manager = ProfileManager::default();
    manager.set_profile(profile("1", "one", 40, 90, "balanced"));
    manager.set_profile(profile("2", "two", 40, 90, "balanced"));
    manager.set_current_game(Some("2".to_string()));
    let list = ProfileListResponse::from_manager(&manager);
    assert_eq!(
        list.profiles,
        vec![profile("1", "one", 40, 90, "balanced"), profile("2", "two", 40, 90, "balanced")]
    );
    assert_eq!(list.current_app_id, Some("2".to_string()));
    assert_eq!(list.global_default, GlobalDefault::default());
    assert_eq!(profile("1", "one", 40, 90, "balanced").duplicate().name, "one");
}

#[test]
fn profiles_path_lies_beside_the_config() {
    assert_eq!(
        ProfileManager::profiles_path(Some("/home/deck")),
        "/home/deck/.config/smart-refresh/profiles.json"
    );
    assert_eq!(ProfileManager::profiles_path(None), "/tmp/smart-refresh/profiles.json");
}
