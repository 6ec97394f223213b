use smart_refresh::battery::BatteryMonitor;
use smart_refresh::battery::PowerSource;
use smart_refresh::config::ConfigManager;
use smart_refresh::control_loop::battery_tick;
use smart_refresh::control_loop::core_logic_applied;
use smart_refresh::control_loop::core_logic_tick;
use smart_refresh::control_loop::fps_poll_tick;
use smart_refresh::control_loop::monitor_tick;
use smart_refresh::control_loop::sleep_signal;
use smart_refresh::control_loop::TickAction;
use smart_refresh::core_logic::AlgorithmState;
use smart_refresh::display_control::DisplayManager;
use smart_refresh::display_control::HelperOutcome;
use smart_refresh::error::DisplayError;
use smart_refresh::fps_monitor::MangoHudData;
use smart_refresh::fps_monitor::MangoHudReader;
use smart_refresh::ipc_server::DaemonState;
use smart_refresh::ipc_server::Direction;
use smart_refresh::metrics::MetricsCollector;
use smart_refresh::profiles::ProfileManager;

fn new_state() -> DaemonState {
    let config_manager = ConfigManager::load_or_default("config.json".to_string(), None).unwrap();
    DaemonState::new(
        config_manager,
        ProfileManager::default(),
        MetricsCollector::new_at(0),
        BatteryMonitor::new(true),
    )
}

fn ok() -> HelperOutcome {
    HelperOutcome::Exited { success: true, exit_code: Some(0), stderr: String::new() }
}

#[test]
fn control_loop_drops_and_records_the_change() {
    let mut state = new_state();
    let mut display = DisplayManager::new_at(40, 90, 0);
    state.current_fps = 50_000;

    assert_eq!(core_logic_tick(&mut state, &mut display, 0), TickAction::Idle);
    assert_eq!(state.controller.state(), AlgorithmState::Dropping { since: 0 });
    assert_eq!(core_logic_tick(&mut state, &mut display, 500), TickAction::Idle);
    let action = core_logic_tick(&mut state, &mut display, 1000);
    assert_eq!(action, TickAction::Apply { hz: 50, old_hz: 90 });
    assert_eq!(state.current_hz, 90);

    let applied = core_logic_applied(&mut state, &mut display, 90, 50, ok(), 1010);
    assert!(matches!(applied, Ok(true)));
    assert_eq!(state.current_hz, 50);
    assert_eq!(display.get_current_hz(), 50);
    assert_eq!(display.get_last_change(), 1010);
    let status = state.get_status(1010);
    assert_eq!(status.transitions.len(), 1);
    assert_eq!(status.transitions[0].from_hz, 90);
    assert_eq!(status.transitions[0].to_hz, 50);
    assert_eq!(status.transitions[0].fps, 50_000);
    assert_eq!(status.transitions[0].timestamp, 1010);
    assert_eq!(status.transitions[0].direction, Direction::Dropped);
    let metrics = state.metrics.get_metrics_at(1010);
    assert_eq!(metrics.total_switches, 1);
    assert_eq!(metrics.drop_count, 1);

    assert_eq!(core_logic_tick(&mut state, &mut display, 1100), TickAction::Idle);
    assert_eq!(state.controller.state(), AlgorithmState::Stable);
}

#[test]
fn control_loop_skips_while_stopped_or_without_data() {
    let mut state = new_state();
    let mut display = DisplayManager::new_at(40, 90, 0);
    assert_eq!(core_logic_tick(&mut state, &mut display, 0), TickAction::Idle);
    assert_eq!(state.controller.state(), AlgorithmState::Stable);
    state.current_fps = 50_000;
    state.stop();
    assert_eq!(core_logic_tick(&mut state, &mut display, 0), TickAction::Idle);
    assert_eq!(core_logic_tick(&mut state, &mut display, 5000), TickAction::Idle);
    assert_eq!(state.controller.state(), AlgorithmState::Stable);
    assert_eq!(state.controller.get_fps_std_dev(), 0);
}

#[test]
fn control_loop_throttles_after_a_failed_helper() {
    let mut state = new_state();
    let mut display = DisplayManager::new_at(40, 90, 0);
    state.current_fps = 50_000;
    core_logic_tick(&mut state, &mut display, 0);
    assert_eq!(
        core_logic_tick(&mut state, &mut display, 1000),
        TickAction::Apply { hz: 50, old_hz: 90 }
    );
    let failed = core_logic_applied(
        &mut state,
        &mut display,
        90,
        50,
        HelperOutcome::Exited { success: false, exit_code: Some(1), stderr: "x".to_string() },
        1005,
    );
    assert!(matches!(failed, Err(DisplayError::CommandFailed { .. })));
    assert!(matches!(
        core_logic_applied(&mut state, &mut display, 90, 50, HelperOutcome::NotFound, 1005),
        Err(DisplayError::CommandNotFound)
    ));
    assert_eq!(state.current_hz, 90);
    assert_eq!(display.get_current_hz(), 90);
    assert!(state.get_status(1005).transitions.is_empty());
    assert_eq!(state.controller.last_change(), Some(1000));
    // The engine starts to wait anew and tries again once the wait is over.
    assert_eq!(core_logic_tick(&mut state, &mut display, 1100), TickAction::Idle);
    assert_eq!(core_logic_tick(&mut state, &mut display, 1400), TickAction::Idle);
    assert_eq!(
        core_logic_tick(&mut state, &mut display, 2100),
        TickAction::Apply { hz: 50, old_hz: 90 }
    );
}

#[test]
fn control_loop_holds_the_target_inside_the_configured_range() {
    let mut state = new_state();
    let mut display = DisplayManager::new_at(40, 90, 0);
    let mut config = state.config_manager.get();
    config.min_hz = 60;
    state.config_manager.update(config).unwrap();
    state.current_fps = 45_000;
    core_logic_tick(&mut state, &mut display, 0);
    assert_eq!(
        core_logic_tick(&mut state, &mut display, 1000),
        TickAction::Apply { hz: 60, old_hz: 90 }
    );
    assert_eq!(display.get_min_hz(), 60);
    core_logic_applied(&mut state, &mut display, 90, 60, ok(), 1000).unwrap();
    state.current_hz = 70;
    core_logic_tick(&mut state, &mut display, 1100);
    // The engine commands 45 again; held at 60 that is the rate already applied.
    assert_eq!(core_logic_tick(&mut state, &mut display, 2100), TickAction::Idle);
    assert_eq!(state.controller.last_set_hz(), Some(45));
}

#[test]
fn fps_polling_smooths_the_frame_rate() {
    let mut state = new_state();
    let mut reader = MangoHudReader::new();
    let first = fps_poll_tick(&mut state, &mut reader, &MangoHudData::new(60, 16_000).to_bytes(), 0);
    assert_eq!(first.map(|s| s.fps), Some(60));
    assert_eq!(state.current_fps, 60_000);
    fps_poll_tick(&mut state, &mut reader, &MangoHudData::new(0, 0).to_bytes(), 100);
    assert_eq!(state.current_fps, 30_000);
    state.set_mangohud_available(true);
    assert!(fps_poll_tick(&mut state, &mut reader, &[0u8; 4], 200).is_none());
    assert!(!state.mangohud_available);
    assert_eq!(state.current_fps, 30_000);
    state.stop();
    assert!(fps_poll_tick(&mut state, &mut reader, &MangoHudData::new(90, 1).to_bytes(), 300).is_none());
    assert_eq!(reader.get_ring_buffer().len(), 2);
}

#[test]
fn monitor_changes_are_passed_on_once() {
    let mut state = new_state();
    assert!(!monitor_tick(&mut state, false));
    assert!(monitor_tick(&mut state, true));
    assert!(state.controller.is_external_display_detected());
    assert!(!monitor_tick(&mut state, true));
    assert!(monitor_tick(&mut state, false));
    assert!(!state.controller.is_external_display_detected());
}

#[test]
fn waking_arms_the_cooldown() {
    let mut state = new_state();
    state.controller.process_with_time(50_000, 90, 0);
    sleep_signal(&mut state, true, 100);
    assert_eq!(state.controller.state(), AlgorithmState::Dropping { since: 0 });
    assert!(!state.controller.is_in_resume_cooldown_at(100));
    sleep_signal(&mut state, false, 200);
    assert_eq!(state.controller.state(), AlgorithmState::Stable);
    assert!(state.controller.is_in_resume_cooldown_at(5199));
    assert!(!state.controller.is_in_resume_cooldown_at(5200));
}

#[test]
fn battery_readings_are_kept_with_the_rate() {
    let mut state = new_state();
    state.current_hz = 60;
    assert_eq!(battery_tick(&mut state, &PowerSource::Contents("12000000\n".to_string()), 0), Some(12_000_000));
    assert_eq!(battery_tick(&mut state, &PowerSource::Contents("garbage".to_string()), 5000), None);
    assert_eq!(battery_tick(&mut state, &PowerSource::Unreadable, 10_000), None);
    let status = state.battery.get_status(None);
    assert_eq!(status.avg_power_uw, 12_000_000);
    assert_eq!(status.estimated_savings_micro_minutes, 9_000_000);
    assert_eq!(battery_tick(&mut state, &PowerSource::Missing, 15_000), None);
    assert!(!state.battery.get_status(None).available);
}
