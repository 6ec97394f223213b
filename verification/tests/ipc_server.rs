use smart_refresh::battery::BatteryMonitor;
use smart_refresh::config::Config;
use smart_refresh::config::ConfigManager;
use smart_refresh::core_logic::AlgorithmState;
use smart_refresh::core_logic::DeviceMode;
use smart_refresh::core_logic::Sensitivity;
use smart_refresh::error::ConfigError;
use smart_refresh::error::IpcError;
use smart_refresh::ipc_server::algorithm_state_to_string;
use smart_refresh::ipc_server::device_mode_from_name;
use smart_refresh::ipc_server::device_mode_to_string;
use smart_refresh::ipc_server::parse_device_mode;
use smart_refresh::ipc_server::parse_sensitivity;
use smart_refresh::ipc_server::sensitivity_to_string;
use smart_refresh::ipc_server::CommandOutcome;
use smart_refresh::ipc_server::ConfigChange;
use smart_refresh::ipc_server::ConfigResponse;
use smart_refresh::ipc_server::DaemonState;
use smart_refresh::ipc_server::Direction;
use smart_refresh::ipc_server::IpcCommand;
use smart_refresh::ipc_server::IpcResponse;
use smart_refresh::ipc_server::StatusResponse;
use smart_refresh::ipc_server::TransitionRecord;
use smart_refresh::metrics::MetricsCollector;
use smart_refresh::profiles::ProfileManager;

fn new_state() -> DaemonState {
    let config_manager = ConfigManager::load_or_default("config.json".to_string(), None).unwrap();
    DaemonState::new(
        config_manager,
        ProfileManager::default(),
        MetricsCollector::new_at(0),
        BatteryMonitor::new(true),
    )
}

fn status(state: &str, device_mode: &str, sensitivity: &str) -> StatusResponse {
    StatusResponse {
        running: true,
        current_fps: 60_000,
        current_hz: 60,
        state: state.to_string(),
        device_mode: device_mode.to_string(),
        config: ConfigResponse {
            min_hz: 40,
            max_hz: 90,
            sensitivity: sensitivity.to_string(),
            enabled: true,
            adaptive_sensitivity: false,
        },
        mangohud_available: true,
        external_display_detected: false,
        fps_std_dev: 0,
        current_app_id: None,
        transitions: Vec::new(),
        fps_tolerance: 3000,
        resume_cooldown_remaining: 0,
        sync_frame_limiter: false,
    }
}

fn reply(outcome: CommandOutcome) -> IpcResponse {
    match outcome {
        CommandOutcome::Reply(response) => response,
        other => panic!("expected a reply, got {:?}", other),
    }
}

fn is_success(response: &IpcResponse) -> bool {
    matches!(response, IpcResponse::Success { .. })
}

fn set_config(min_hz: u32, max_hz: u32, sensitivity: &str) -> IpcCommand {
    IpcCommand::SetConfig {
        min_hz,
        max_hz,
        sensitivity: sensitivity.to_string(),
        adaptive_sensitivity: None,
        fps_tolerance: None,
        sync_frame_limiter: None,
    }
}

#[test]
fn test_status_response_is_complete() {
    let valid_response = status("Stable", "oled", "balanced");
    assert!(valid_response.is_complete());

    let invalid_state = status("InvalidState", "oled", "balanced");
    assert!(!invalid_state.is_complete());

    let invalid_sensitivity = status("Stable", "oled", "invalid");
    assert!(!invalid_sensitivity.is_complete());

    let invalid_mode = status("Stable", "invalid", "balanced");
    assert!(!invalid_mode.is_complete());
}

#[test]
fn test_parse_sensitivity() {
    assert_eq!(parse_sensitivity("conservative").unwrap(), Sensitivity::Conservative);
    assert_eq!(parse_sensitivity("balanced").unwrap(), Sensitivity::Balanced);
    assert_eq!(parse_sensitivity("aggressive").unwrap(), Sensitivity::Aggressive);
    assert_eq!(parse_sensitivity("BALANCED").unwrap(), Sensitivity::Balanced);
    assert!(parse_sensitivity("invalid").is_err());
}

#[test]
fn test_sensitivity_to_string() {
    assert_eq!(sensitivity_to_string(Sensitivity::Conservative), "conservative");
    assert_eq!(sensitivity_to_string(Sensitivity::Balanced), "balanced");
    assert_eq!(sensitivity_to_string(Sensitivity::Aggressive), "aggressive");
}

#[test]
fn test_algorithm_state_to_string() {
    assert_eq!(algorithm_state_to_string(AlgorithmState::Stable), "Stable");
    assert_eq!(algorithm_state_to_string(AlgorithmState::Dropping { since: 5 }), "Dropping");
    assert_eq!(algorithm_state_to_string(AlgorithmState::Increasing { since: 5 }), "Increasing");
}

#[test]
fn test_daemon_state_start_stop() {
    let mut state = new_state();

    assert!(state.is_running());

    state.stop();
    assert!(!state.is_running());

    state.start();
    assert!(state.is_running());
}

#[test]
fn test_daemon_state_get_status() {
    let state = new_state();
    let status = state.get_status(0);

    assert!(status.running);
    assert_eq!(status.current_fps, 0);
    assert_eq!(status.current_hz, 90);
    assert_eq!(status.state, "Stable");
    assert_eq!(status.device_mode, "oled");
    assert_eq!(status.config.min_hz, 40);
    assert_eq!(status.config.max_hz, 90);
    assert_eq!(status.config.sensitivity, "balanced");
    assert!(status.config.enabled);
}

#[test]
fn test_handle_command_start() {
    let mut state = new_state();

    state.stop();
    assert!(!state.is_running());

    let response = reply(state.handle_command(IpcCommand::Start, 0, None));
    assert!(is_success(&response));
    assert!(state.is_running());
}

#[test]
fn test_handle_command_stop() {
    let mut state = new_state();

    assert!(state.is_running());

    let response = reply(state.handle_command(IpcCommand::Stop, 0, None));
    assert!(is_success(&response));
    assert!(!state.is_running());
}

#[test]
fn test_handle_command_set_config() {
    let mut state = new_state();

    let outcome = state.handle_command(set_config(50, 80, "aggressive"), 0, None);
    let change: ConfigChange = match outcome {
        CommandOutcome::SaveConfig(change) => change,
        other => panic!("expected the configuration to be written, got {:?}", other),
    };
    let response = state.complete_set_config(change, Ok(()));
    assert!(is_success(&response));

    let status = state.get_status(0);
    assert_eq!(status.config.min_hz, 50);
    assert_eq!(status.config.max_hz, 80);
    assert_eq!(status.config.sensitivity, "aggressive");
    assert_eq!(state.controller.sensitivity(), Sensitivity::Aggressive);
    assert_eq!(state.controller.user_range(), (50, 80));
}

#[test]
fn test_handle_command_set_config_invalid_sensitivity() {
    let mut state = new_state();

    let response = reply(state.handle_command(set_config(50, 80, "invalid"), 0, None));
    match response {
        IpcResponse::Failure { error } => {
            assert!(error.contains("Invalid sensitivity"));
            assert_eq!(
                error,
                "Invalid command received: Invalid sensitivity 'invalid', expected one of: conservative, balanced, aggressive"
            );
        }
        other => panic!("expected a failure, got {:?}", other),
    }
    assert_eq!(state.config_manager.get(), Config::default());
}

#[test]
fn test_handle_command_get_status() {
    let mut state = new_state();

    let response = reply(state.handle_command(IpcCommand::GetStatus, 0, None));
    match response {
        IpcResponse::Status(status) => {
            assert!(status.is_complete());
            assert!(status.running);
            assert_eq!(status.current_hz, 90);
            assert_eq!(status.fps_tolerance, 3000);
            assert_eq!(status.resume_cooldown_remaining, 0);
            assert!(!status.mangohud_available);
            assert!(!status.external_display_detected);
            assert!(!status.sync_frame_limiter);
            assert_eq!(status.current_app_id, None);
            assert!(status.transitions.is_empty());
            assert!(!status.config.adaptive_sensitivity);
        }
        other => panic!("expected the status, got {:?}", other),
    }
}

#[test]
fn every_status_is_complete() {
    let mut state = new_state();
    for mode in ["oled", "lcd", "custom"] {
        for sensitivity in ["conservative", "balanced", "aggressive"] {
            let outcome = state.handle_command(set_config(40, 90, sensitivity), 0, None);
            if let CommandOutcome::SaveConfig(change) = outcome {
                state.complete_set_config(change, Ok(()));
            }
            state.handle_command(IpcCommand::SetDeviceMode { mode: mode.to_string() }, 0, None);
            for (fps, hz) in [(30_000u32, 60u32), (90_000, 60), (60_000, 60)] {
                state.controller.process_with_time(fps, hz, 0);
                let status = state.get_status(0);
                assert!(status.is_complete());
                assert_eq!(status.device_mode, mode);
                assert_eq!(status.config.sensitivity, sensitivity);
            }
        }
    }
}

#[test]
fn set_config_refuses_an_invalid_range() {
    let mut state = new_state();
    let response = reply(state.handle_command(set_config(30, 80, "balanced"), 0, None));
    match response {
        IpcResponse::Failure { error } => {
            assert_eq!(error, "Configuration validation failed: min_hz (30) must be at least 40Hz")
        }
        other => panic!("expected a failure, got {:?}", other),
    }
    assert_eq!(state.config_manager.get(), Config::default());
    assert_eq!(state.controller.user_range(), (40, 90));
}

#[test]
fn set_config_that_cannot_be_written_leaves_the_engine() {
    let mut state = new_state();
    let outcome = state.handle_command(
        IpcCommand::SetConfig {
            min_hz: 45,
            max_hz: 85,
            sensitivity: "Conservative".to_string(),
            adaptive_sensitivity: Some(true),
            fps_tolerance: Some(9000),
            sync_frame_limiter: Some(true),
        },
        0,
        None,
    );
    let change: ConfigChange = match outcome {
        CommandOutcome::SaveConfig(change) => change,
        other => panic!("expected the configuration to be written, got {:?}", other),
    };
    assert_eq!(change.config.sensitivity, Sensitivity::Conservative);
    let io = std::io::Error::new(std::io::ErrorKind::Other, "read-only");
    let response = state.complete_set_config(change, Err(ConfigError::WriteError(io)));
    match response {
        IpcResponse::Failure { error } => {
            assert_eq!(error, "Failed to write configuration: read-only")
        }
        other => panic!("expected a failure, got {:?}", other),
    }
    assert_eq!(state.controller.sensitivity(), Sensitivity::Balanced);
    assert_eq!(state.controller.user_range(), (40, 90));

    let response = state.complete_set_config(change, Ok(()));
    assert!(is_success(&response));
    assert_eq!(state.controller.sensitivity(), Sensitivity::Conservative);
    assert_eq!(state.controller.user_range(), (45, 85));
    assert!(state.controller.is_adaptive_sensitivity_enabled());
    assert_eq!(state.controller.fps_tolerance(), 5000);
    assert!(state.controller.is_sync_frame_limiter_enabled());
}

#[test]
fn set_device_mode_answers_with_the_constraints() {
    let mut state = new_state();
    let response =
        reply(state.handle_command(IpcCommand::SetDeviceMode { mode: "LCD".to_string() }, 0, None));
    match response {
        IpcResponse::DeviceModeSet { mode, effective_sensitivity, min_change_interval_ms } => {
            assert_eq!(mode, "lcd");
            assert_eq!(effective_sensitivity, "conservative");
            assert_eq!(min_change_interval_ms, 2000);
        }
        other => panic!("expected the mode, got {:?}", other),
    }
    assert_eq!(state.controller.device_mode(), DeviceMode::Lcd);
    let response = reply(state.handle_command(
        IpcCommand::SetDeviceMode { mode: "plasma".to_string() },
        0,
        None,
    ));
    match response {
        IpcResponse::Failure { error } => assert_eq!(
            error,
            "Invalid command received: Invalid device mode 'plasma', expected one of: oled, lcd, custom"
        ),
        other => panic!("expected a failure, got {:?}", other),
    }
    assert_eq!(state.controller.device_mode(), DeviceMode::Lcd);
}

#[test]
fn device_modes_have_names() {
    assert_eq!(parse_device_mode("oled").unwrap(), DeviceMode::Oled);
    assert_eq!(parse_device_mode("Lcd").unwrap(), DeviceMode::Lcd);
    assert_eq!(parse_device_mode("CUSTOM").unwrap(), DeviceMode::Custom);
    assert!(matches!(parse_device_mode("crt"), Err(IpcError::InvalidCommand(_))));
    assert_eq!(device_mode_from_name("Lcd"), None);
    assert_eq!(device_mode_to_string(DeviceMode::Oled), "oled");
    assert_eq!(device_mode_to_string(DeviceMode::Lcd), "lcd");
    assert_eq!(device_mode_to_string(DeviceMode::Custom), "custom");
    assert_eq!(DeviceMode::default(), DeviceMode::Oled);
    assert_eq!(AlgorithmState::default(), AlgorithmState::Stable);
    let shown = ConfigResponse::from_config(&Config::default(), true);
    assert_eq!(shown.sensitivity, "balanced");
    assert!(shown.adaptive_sensitivity);
}

#[test]
fn advanced_config_takes_what_is_given() {
    let mut state = new_state();
    let response = reply(state.handle_command(
        IpcCommand::SetAdvancedConfig {
            fps_tolerance: Some(1000),
            resume_cooldown_secs: Some(9),
            sync_frame_limiter: None,
        },
        0,
        None,
    ));
    match response {
        IpcResponse::AdvancedConfigSet { fps_tolerance, resume_cooldown_secs, sync_frame_limiter } => {
            assert_eq!(fps_tolerance, 2000);
            assert_eq!(resume_cooldown_secs, 9);
            assert!(!sync_frame_limiter);
        }
        other => panic!("expected the settings, got {:?}", other),
    }
    state.controller.reset_state_at(1000);
    assert_eq!(state.get_status(4000).resume_cooldown_remaining, 6000);
}

#[test]
fn game_id_applies_the_profile_or_the_default() {
    let mut state = new_state();
    let saved = state.handle_command(
        IpcCommand::SaveProfile {
            app_id: "730".to_string(),
            name: "CS".to_string(),
            min_hz: 60,
            max_hz: 85,
            sensitivity: "aggressive".to_string(),
            adaptive_sensitivity: Some(true),
        },
        0,
        None,
    );
    assert!(matches!(saved, CommandOutcome::SaveProfiles(IpcResponse::Success { .. })));
    assert_eq!(state.controller.user_range(), (40, 90));

    let response = reply(state.handle_command(
        IpcCommand::SetGameId { app_id: "730".to_string(), name: None },
        0,
        None,
    ));
    match response {
        IpcResponse::GameIdSet { profile_applied, profile_name } => {
            assert!(profile_applied);
            assert_eq!(profile_name, Some("CS".to_string()));
        }
        other => panic!("expected the game, got {:?}", other),
    }
    assert_eq!(state.controller.user_range(), (60, 85));
    assert_eq!(state.controller.sensitivity(), Sensitivity::Aggressive);
    assert!(state.controller.is_adaptive_sensitivity_enabled());
    assert_eq!(state.get_status(0).current_app_id, Some("730".to_string()));

    let response = reply(state.handle_command(
        IpcCommand::SetGameId { app_id: "999".to_string(), name: Some("x".to_string()) },
        0,
        None,
    ));
    assert!(matches!(
        response,
        IpcResponse::GameIdSet { profile_applied: false, profile_name: None }
    ));
    assert_eq!(state.controller.user_range(), (40, 90));
    assert_eq!(state.controller.sensitivity(), Sensitivity::Balanced);
    assert!(!state.controller.is_adaptive_sensitivity_enabled());

    for none in ["0", ""] {
        state.handle_command(
            IpcCommand::SetGameId { app_id: "730".to_string(), name: None },
            0,
            None,
        );
        let response = reply(state.handle_command(
            IpcCommand::SetGameId { app_id: none.to_string(), name: None },
            0,
            None,
        ));
        assert!(matches!(
            response,
            IpcResponse::GameIdSet { profile_applied: false, profile_name: None }
        ));
        assert_eq!(state.profile_manager.get_current_game(), None);
        assert_eq!(state.controller.user_range(), (40, 90));
    }
}

#[test]
fn deleting_a_profile_reverts_the_running_game_to_the_default() {
    let mut state = new_state();
    state.handle_command(
        IpcCommand::SaveProfile {
            app_id: "730".to_string(),
            name: "CS".to_string(),
            min_hz: 60,
            max_hz: 85,
            sensitivity: "aggressive".to_string(),
            adaptive_sensitivity: None,
        },
        0,
        None,
    );
    state.handle_command(IpcCommand::SetGameId { app_id: "730".to_string(), name: None }, 0, None);
    assert_eq!(state.controller.user_range(), (60, 85));

    let listed = reply(state.handle_command(IpcCommand::GetProfiles, 0, None));
    match listed {
        IpcResponse::Profiles(list) => {
            assert_eq!(list.profiles.len(), 1);
            assert_eq!(list.profiles[0].name, "CS");
            assert_eq!(list.current_app_id, Some("730".to_string()));
        }
        other => panic!("expected the profiles, got {:?}", other),
    }

    let deleted =
        state.handle_command(IpcCommand::DeleteProfile { app_id: "730".to_string() }, 0, None);
    assert!(matches!(deleted, CommandOutcome::SaveProfiles(IpcResponse::Success { .. })));
    assert_eq!(state.controller.user_range(), (40, 90));

    let again =
        reply(state.handle_command(IpcCommand::DeleteProfile { app_id: "730".to_string() }, 0, None));
    match again {
        IpcResponse::Failure { error } => assert_eq!(error, "Profile not found for app_id: 730"),
        other => panic!("expected a failure, got {:?}", other),
    }
    match DaemonState::profile_save_failed("disk full".to_string()) {
        IpcResponse::Failure { error } => assert_eq!(error, "Failed to save profiles: disk full"),
        other => panic!("expected a failure, got {:?}", other),
    }
}

#[test]
fn metrics_and_battery_are_answered() {
    let mut state = new_state();
    state.metrics.record_switch_at(90, 60, 2000);
    state.battery.record_sample_at(12_000_000, 60, 0);
    match reply(state.handle_command(IpcCommand::GetMetrics, 5000, None)) {
        IpcResponse::Metrics(metrics) => {
            assert_eq!(metrics.total_switches, 1);
            assert_eq!(metrics.drop_count, 1);
            assert_eq!(metrics.uptime_sec, 5);
        }
        other => panic!("expected the metrics, got {:?}", other),
    }
    match reply(state.handle_command(IpcCommand::GetBatteryStatus, 5000, Some(13_000_000))) {
        IpcResponse::Battery(battery) => {
            assert!(battery.available);
            assert_eq!(battery.power_uw, 13_000_000);
            assert_eq!(battery.avg_power_uw, 12_000_000);
            assert_eq!(battery.estimated_savings_micro_minutes, 9_000_000);
        }
        other => panic!("expected the battery, got {:?}", other),
    }
}

#[test]
fn only_twenty_transitions_are_shown() {
    let mut state = new_state();
    for i in 0u32..25 {
        state.record_transition(90, 40 + i, 50_000, i as u64);
    }
    state.record_transition(60, 45, 44_000, 99);
    let status = state.get_status(100);
    assert_eq!(status.transitions.len(), 20);
    assert_eq!(
        status.transitions[0],
        TransitionRecord {
            timestamp: 6,
            from_hz: 90,
            to_hz: 46,
            fps: 50_000,
            direction: Direction::Dropped
        }
    );
    assert_eq!(
        status.transitions[19],
        TransitionRecord {
            timestamp: 99,
            from_hz: 60,
            to_hz: 45,
            fps: 44_000,
            direction: Direction::Dropped
        }
    );
    state.record_transition(45, 50, 51_000, 100);
    assert_eq!(state.get_status(100).transitions[19].direction, Direction::Increased);
    state.set_mangohud_available(true);
    assert!(state.get_status(100).mangohud_available);
}
