use smart_refresh::clock::Clock;
use smart_refresh::core_logic::AlgorithmState;
use smart_refresh::core_logic::DeviceMode;
use smart_refresh::core_logic::FpsSlidingWindow;
use smart_refresh::core_logic::HysteresisController;
use smart_refresh::core_logic::Sensitivity;
use smart_refresh::core_logic::DEFAULT_FPS_TOLERANCE;
use smart_refresh::core_logic::MAX_FPS_TOLERANCE;
use smart_refresh::core_logic::MIN_FPS_TOLERANCE;

#[test]
fn test_sensitivity_thresholds() {
    assert_eq!(Sensitivity::Conservative.drop_threshold(), 2000);
    assert_eq!(Sensitivity::Conservative.increase_threshold(), 5000);
    assert_eq!(Sensitivity::Balanced.drop_threshold(), 1000);
    assert_eq!(Sensitivity::Balanced.increase_threshold(), 3000);
    assert_eq!(Sensitivity::Aggressive.drop_threshold(), 500);
    assert_eq!(Sensitivity::Aggressive.increase_threshold(), 1500);
}

#[test]
fn test_new_controller_starts_stable() {
    let controller = HysteresisController::new(Sensitivity::Balanced);
    assert_eq!(controller.state(), AlgorithmState::Stable);
    assert!(controller.last_change().is_none());
}

#[test]
fn test_fps_jitter_tolerance_sticky_target() {
    let mut controller = HysteresisController::new(Sensitivity::Balanced);
    controller.set_user_range(40, 90);
    let clock = Clock::start();
    let start: u64 = clock.now_ms();

    let result = controller.process_with_time(58_000, 60, start);
    assert!(result.is_none());
    assert_eq!(controller.state(), AlgorithmState::Stable);

    let result = controller.process_with_time(62_000, 60, start);
    assert!(result.is_none());
    assert_eq!(controller.state(), AlgorithmState::Stable);

    let result = controller.process_with_time(55_000, 60, start);
    assert!(result.is_none());
    assert!(matches!(controller.state(), AlgorithmState::Dropping { .. }));
}

#[test]
fn test_reset_state_clears_timestamps() {
    let mut controller = HysteresisController::new(Sensitivity::Balanced);
    controller.set_user_range(40, 90);
    let clock = Clock::start();
    let start: u64 = clock.now_ms();

    // A change, so that the time of the last change is set, and a pending drop.
    assert!(controller.process_with_time(30_000, 90, start).is_none());
    assert_eq!(controller.process_with_time(30_000, 90, start + 1000), Some(40));
    assert!(controller.process_with_time(20_000, 90, start + 1000).is_none());
    assert!(matches!(controller.state(), AlgorithmState::Dropping { .. }));
    assert_eq!(controller.last_change(), Some(start + 1000));

    controller.reset_state(&clock);

    assert_eq!(controller.state(), AlgorithmState::Stable);
    assert!(controller.last_change().is_none());
    assert!(controller.is_in_resume_cooldown(&clock));
}

#[test]
fn test_resume_cooldown_blocks_changes() {
    let mut controller = HysteresisController::new(Sensitivity::Balanced);
    controller.set_user_range(40, 90);
    controller.set_resume_cooldown(2);
    let clock = Clock::start();

    controller.reset_state(&clock);

    let start: u64 = clock.now_ms();

    let result = controller.process_with_time(30_000, 60, start);
    assert!(result.is_none());
    assert_eq!(controller.state(), AlgorithmState::Stable);
    assert!(controller.is_in_resume_cooldown(&clock));
}

#[test]
fn test_configurable_fps_tolerance() {
    let mut controller = HysteresisController::new(Sensitivity::Balanced);
    controller.set_user_range(40, 90);

    assert_eq!(controller.fps_tolerance(), DEFAULT_FPS_TOLERANCE);

    controller.set_fps_tolerance(5000);
    assert_eq!(controller.fps_tolerance(), 5000);

    let start: u64 = 0;

    let result = controller.process_with_time(56_000, 60, start);
    assert!(result.is_none());
    assert_eq!(controller.state(), AlgorithmState::Stable);

    controller.set_fps_tolerance(2000);

    let result = controller.process_with_time(56_000, 60, start);
    assert!(result.is_none());
    assert!(matches!(controller.state(), AlgorithmState::Dropping { .. }));
}

#[test]
fn test_fps_tolerance_clamping() {
    let mut controller = HysteresisController::new(Sensitivity::Balanced);

    controller.set_fps_tolerance(1000);
    assert_eq!(controller.fps_tolerance(), MIN_FPS_TOLERANCE);

    controller.set_fps_tolerance(10_000);
    assert_eq!(controller.fps_tolerance(), MAX_FPS_TOLERANCE);
}

#[test]
fn test_external_display_pauses_processing() {
    let mut controller = HysteresisController::new(Sensitivity::Balanced);
    controller.set_user_range(40, 90);
    controller.set_external_display_detected(true);
    let start: u64 = 0;

    let result = controller.process_with_time(30_000, 60, start);
    assert!(result.is_none());
    assert_eq!(controller.state(), AlgorithmState::Stable);
}

#[test]
fn test_fps_sliding_window() {
    let mut window = FpsSlidingWindow::new(5);

    for i in 1u32..=5 {
        window.push(i * 10_000);
    }

    assert!(window.is_full());
    assert_eq!(window.len(), 5);
    assert_eq!(window.mean(), 30_000);

    // The deviation of 10, 20, 30, 40, 50 is the root of 250, about 15.81.
    let std_dev: u64 = window.std_dev();
    assert!(std_dev.abs_diff(15_810) < 100);
    assert_eq!(std_dev, 15_811);
}

#[test]
fn test_adaptive_sensitivity_unstable_fps() {
    let mut controller = HysteresisController::new(Sensitivity::Aggressive);
    controller.set_user_range(40, 90);
    controller.set_adaptive_sensitivity(true);

    let fps_samples: [u32; 10] =
        [30_000, 60_000, 35_000, 55_000, 40_000, 65_000, 32_000, 58_000, 38_000, 62_000];
    let start: u64 = 0;

    for fps in fps_samples {
        controller.process_with_time(fps, 60, start);
    }

    assert_eq!(controller.effective_sensitivity(), Sensitivity::Conservative);
}

#[test]
fn test_adaptive_sensitivity_stable_fps() {
    let mut controller = HysteresisController::new(Sensitivity::Aggressive);
    controller.set_user_range(40, 90);
    controller.set_adaptive_sensitivity(true);

    let fps_samples: [u32; 10] =
        [60_000, 60_500, 59_500, 60_200, 59_800, 60_100, 59_900, 60_300, 59_700, 60_000];
    let start: u64 = 0;

    for fps in fps_samples {
        controller.process_with_time(fps, 60, start);
    }

    assert_eq!(controller.effective_sensitivity(), Sensitivity::Aggressive);
}

#[test]
fn test_lcd_mode_forces_conservative() {
    let mut controller = HysteresisController::new(Sensitivity::Aggressive);
    assert_eq!(controller.effective_sensitivity(), Sensitivity::Aggressive);

    controller.apply_mode_constraints(DeviceMode::Lcd);

    assert_eq!(controller.sensitivity(), Sensitivity::Aggressive);
    assert_eq!(controller.effective_sensitivity(), Sensitivity::Conservative);
    assert_eq!(controller.min_change_interval(), 2000);
}

#[test]
fn test_quantize_hz() {
    assert_eq!(HysteresisController::quantize_hz(42), 40);
    assert_eq!(HysteresisController::quantize_hz(43), 45);
    assert_eq!(HysteresisController::quantize_hz(47), 45);
    assert_eq!(HysteresisController::quantize_hz(48), 50);
    assert_eq!(HysteresisController::quantize_hz(50), 50);
}

#[test]
fn sticky_target_holds_for_every_rate_on_the_grid() {
    let mut hz: u32 = 45;
    while hz <= 85 {
        let mut offset: u32 = 0;
        while offset < 3000 {
            let mut controller = HysteresisController::new(Sensitivity::Balanced);
            controller.set_user_range(40, 90);
            assert!(controller.process_with_time(hz * 1000 + offset, hz, 0).is_none());
            assert_eq!(controller.state(), AlgorithmState::Stable);
            assert!(controller.process_with_time(hz * 1000 - offset, hz, 0).is_none());
            assert_eq!(controller.state(), AlgorithmState::Stable);
            offset += 725;
        }
        hz += 5;
    }
}

#[test]
fn sticky_target_drops_what_was_pending() {
    let mut controller = HysteresisController::new(Sensitivity::Balanced);
    assert!(controller.process_with_time(50_000, 60, 0).is_none());
    assert_eq!(controller.state(), AlgorithmState::Dropping { since: 0 });
    assert!(controller.process_with_time(58_500, 60, 100).is_none());
    assert_eq!(controller.state(), AlgorithmState::Stable);
}

#[test]
fn commands_are_quantized_and_in_range() {
    let mut fps: u32 = 35_000;
    while fps <= 95_000 {
        let mut hz: u32 = 40;
        while hz <= 90 {
            let mut controller = HysteresisController::new(Sensitivity::Balanced);
            controller.set_user_range(40, 90);
            let _ = controller.process_with_time(fps, hz, 0);
            let result = controller.process_with_time(fps, hz, 5001);
            if let Some(new_hz) = result {
                assert_eq!(new_hz % 5, 0);
                assert!(new_hz >= 40 && new_hz <= 90);
            }
            hz += 5;
        }
        fps += 1700;
    }
}

#[test]
fn no_data_changes_nothing() {
    let mut controller = HysteresisController::new(Sensitivity::Balanced);
    assert!(controller.process_with_time(50_000, 60, 0).is_none());
    assert_eq!(controller.state(), AlgorithmState::Dropping { since: 0 });
    assert!(controller.process_with_time(0, 60, 5000).is_none());
    assert_eq!(controller.state(), AlgorithmState::Dropping { since: 0 });
    assert_eq!(controller.get_fps_std_dev(), 0);
}

#[test]
fn single_rate_range_never_commands() {
    let mut controller = HysteresisController::new(Sensitivity::Aggressive);
    controller.set_user_range(60, 60);
    let mut t: u64 = 0;
    while t < 10_000 {
        assert!(controller.process_with_time(30_000, 60, t).is_none());
        assert_eq!(controller.state(), AlgorithmState::Stable);
        assert!(controller.process_with_time(90_000, 60, t + 50).is_none());
        assert_eq!(controller.state(), AlgorithmState::Stable);
        t += 100;
    }
}

#[test]
fn effective_range_follows_the_panel() {
    let mut controller = HysteresisController::new(Sensitivity::Balanced);
    controller.set_user_range(30, 120);
    assert_eq!(controller.get_effective_range(), (40, 90));
    controller.apply_mode_constraints(DeviceMode::Lcd);
    assert_eq!(controller.get_effective_range(), (40, 60));
    controller.apply_mode_constraints(DeviceMode::Custom);
    assert_eq!(controller.get_effective_range(), (30, 120));
    assert_eq!(controller.clamp_hz(200), 120);
    assert_eq!(controller.clamp_hz(43), 45);
}

#[test]
fn settings_reset_state_and_keep_last_change() {
    let mut controller = HysteresisController::new(Sensitivity::Balanced);
    assert!(controller.process_with_time(50_000, 90, 0).is_none());
    assert_eq!(controller.process_with_time(50_000, 90, 1000), Some(50));
    assert!(controller.process_with_time(30_000, 50, 1100).is_none());
    assert!(matches!(controller.state(), AlgorithmState::Dropping { .. }));
    controller.set_sensitivity(Sensitivity::Aggressive);
    assert_eq!(controller.state(), AlgorithmState::Stable);
    assert_eq!(controller.last_change(), Some(1000));
    assert!(controller.process_with_time(30_000, 50, 1200).is_none());
    controller.set_user_range(45, 85);
    assert_eq!(controller.state(), AlgorithmState::Stable);
    assert_eq!(controller.last_change(), Some(1000));
    assert_eq!(controller.last_set_hz(), Some(50));
    assert_eq!(controller.user_range(), (45, 85));
}

#[test]
fn snapshot_shows_the_engine() {
    let mut controller = HysteresisController::new(Sensitivity::Balanced);
    controller.reset_state_at(1000);
    let snapshot = controller.snapshot(2500);
    assert_eq!(snapshot.state, AlgorithmState::Stable);
    assert_eq!(snapshot.effective_sensitivity, Sensitivity::Balanced);
    assert_eq!(snapshot.effective_min_hz, 40);
    assert_eq!(snapshot.effective_max_hz, 90);
    assert_eq!(snapshot.cooldown_remaining_ms, 3500);
    assert_eq!(snapshot.fps_std_dev, 0);
    assert_eq!(snapshot.last_set_hz, None);
    assert_eq!(controller.resume_cooldown_remaining_at(6000), 0);
    assert!(!controller.is_in_resume_cooldown_at(6000));
    assert!(controller.is_in_resume_cooldown_at(5999));
}

#[test]
fn process_reads_the_clock() {
    let clock = Clock::start();
    let mut controller = HysteresisController::new(Sensitivity::Balanced);
    assert!(controller.process(50_000, 90, &clock).is_none());
    assert!(matches!(controller.state(), AlgorithmState::Dropping { .. }));
    assert_eq!(controller.resume_cooldown_remaining(&clock), 0);
    controller.set_last_hz(75);
    assert_eq!(controller.last_set_hz(), Some(75));
    controller.set_sync_frame_limiter(true);
    assert!(controller.is_sync_frame_limiter_enabled());
    assert_eq!(controller.device_mode(), DeviceMode::Oled);
    assert_eq!(controller.resume_cooldown_secs(), 5);
}

#[test]
fn window_gives_up_its_oldest_sample() {
    let mut window = FpsSlidingWindow::new(3);
    for fps in [1000u32, 2000, 3000, 4000] {
        window.push(fps);
    }
    assert_eq!(window.len(), 3);
    assert_eq!(window.mean(), 3000);
    assert!(window.std_dev_exceeds(999));
    assert!(!window.std_dev_exceeds(1000));
    assert!(window.std_dev_within(1001));
    assert!(!window.std_dev_within(1000));
    window.clear();
    assert_eq!(window.len(), 0);
    assert_eq!(window.mean(), 0);
    assert_eq!(window.std_dev(), 0);
    assert_eq!(FpsSlidingWindow::default().len(), 0);
}
