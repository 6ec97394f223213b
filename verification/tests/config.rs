use smart_refresh::config::dirs_config_path;
use smart_refresh::config::Config;
use smart_refresh::config::ConfigManager;
use smart_refresh::core_logic::Sensitivity;
use smart_refresh::error::ConfigError;

#[test]
fn test_config_default() {
    let config = Config::default();
    assert_eq!(config.min_hz, 40);
    assert_eq!(config.max_hz, 90);
    assert_eq!(config.sensitivity, Sensitivity::Balanced);
    assert!(config.enabled);
}

#[test]
fn test_config_manager_load_nonexistent() {
    let manager = ConfigManager::load_or_default("nonexistent.json".to_string(), None).unwrap();
    let config = manager.get();
    assert_eq!(config, Config::default());
    assert_eq!(manager.path(), "nonexistent.json");
}

#[test]
fn test_config_manager_save_and_load() {
    let mut manager = ConfigManager::load_or_default("config.json".to_string(), None).unwrap();
    let mut config = manager.get();
    config.min_hz = 50;
    config.max_hz = 80;
    config.sensitivity = Sensitivity::Aggressive;
    manager.update(config).unwrap();

    let manager2 =
        ConfigManager::load_or_default("config.json".to_string(), Some(manager.get())).unwrap();
    let loaded = manager2.get();

    assert_eq!(loaded.min_hz, 50);
    assert_eq!(loaded.max_hz, 80);
    assert_eq!(loaded.sensitivity, Sensitivity::Aggressive);
}

#[test]
fn test_config_validation_min_greater_than_max() {
    let config =
        Config { min_hz: 80, max_hz: 60, sensitivity: Sensitivity::Balanced, enabled: true };

    let result = config.validate();
    assert!(result.is_err());
    let err = result.unwrap_err();
    assert!(matches!(err, ConfigError::ValidationError(_)));
    assert_eq!(
        err.message(),
        "Configuration validation failed: min_hz (80) cannot be greater than max_hz (60)"
    );
}

#[test]
fn test_config_validation_min_too_low() {
    let config =
        Config { min_hz: 30, max_hz: 90, sensitivity: Sensitivity::Balanced, enabled: true };

    let result = config.validate();
    assert!(result.is_err());
    assert_eq!(
        result.unwrap_err().message(),
        "Configuration validation failed: min_hz (30) must be at least 40Hz"
    );
}

#[test]
fn test_config_validation_max_too_high() {
    let config =
        Config { min_hz: 40, max_hz: 120, sensitivity: Sensitivity::Balanced, enabled: true };

    let result = config.validate();
    assert!(result.is_err());
    assert_eq!(
        result.unwrap_err().message(),
        "Configuration validation failed: max_hz (120) must not exceed 90Hz"
    );
}

#[test]
fn test_sensitivity_serialization() {
    let config =
        Config { min_hz: 40, max_hz: 90, sensitivity: Sensitivity::Conservative, enabled: true };

    let name: &str = config.sensitivity.name();
    assert_eq!(name, "conservative");

    let parsed = Sensitivity::from_name(name);
    assert_eq!(parsed, Some(Sensitivity::Conservative));
}

#[test]
fn test_invalid_sensitivity_deserialization() {
    let result = Sensitivity::from_name("invalid");
    assert!(result.is_none());
    let err = Sensitivity::unknown_name_message("invalid");
    assert!(err.contains("invalid sensitivity"));
    assert_eq!(
        err,
        "invalid sensitivity: invalid, expected one of: conservative, balanced, aggressive"
    );
}

#[test]
fn sensitivity_names_round_trip() {
    for s in [Sensitivity::Conservative, Sensitivity::Balanced, Sensitivity::Aggressive] {
        assert_eq!(Sensitivity::from_name(s.name()), Some(s));
    }
    assert_eq!(Sensitivity::from_name("Balanced"), None);
    assert_eq!(Sensitivity::from_name(""), None);
    assert_eq!(Sensitivity::default(), Sensitivity::Balanced);
}

#[test]
fn validation_accepts_exactly_the_valid_configs() {
    let mut min_hz: u32 = 35;
    while min_hz <= 95 {
        let mut max_hz: u32 = 35;
        while max_hz <= 95 {
            let config =
                Config { min_hz, max_hz, sensitivity: Sensitivity::Aggressive, enabled: false };
            let valid: bool = 40 <= min_hz && min_hz <= max_hz && max_hz <= 90;
            assert_eq!(config.validate().is_ok(), valid);
            max_hz += 1;
        }
        min_hz += 1;
    }
}

#[test]
fn update_refuses_an_invalid_config_and_keeps_the_old() {
    let mut manager = ConfigManager::load_or_default("c.json".to_string(), None).unwrap();
    let bad = Config { min_hz: 10, max_hz: 90, sensitivity: Sensitivity::Balanced, enabled: true };
    assert!(manager.update(bad).is_err());
    assert_eq!(manager.get(), Config::default());
    let refused = ConfigManager::load_or_default("c.json".to_string(), Some(bad));
    assert!(matches!(refused, Err(ConfigError::ValidationError(_))));
}

#[test]
fn default_paths() {
    assert_eq!(
        ConfigManager::default_path(Some("/home/deck")),
        "/home/deck/.config/smart-refresh/config.json"
    );
    assert_eq!(ConfigManager::default_path(None), "/tmp/smart-refresh/config.json");
    assert_eq!(dirs_config_path(Some("/home/deck/")), "/home/deck/.config/smart-refresh");
}
