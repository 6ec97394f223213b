//! What happens on each tick of the daemon's tasks, between the waits and the
//! calls to the outside, which are left to the caller.

use vstd::prelude::*;
use crate::battery::BatteryModel;
use crate::battery::PowerSource;
use crate::core_logic::decide;
use crate::core_logic::EngineModel;
use crate::display_control::normalized_range;
use crate::display_control::DisplayManager;
use crate::display_control::DisplayModel;
use crate::display_control::HelperOutcome;
use crate::display_control::RateRequest;
use crate::error::DisplayError;
use crate::fps_monitor::average_milli;
use crate::fps_monitor::MangoHudData;
use crate::fps_monitor::MangoHudReader;
use crate::fps_monitor::FpsSample;
use crate::fps_monitor::RING_BUFFER_CAPACITY;
use crate::ipc_server::DaemonState;
use crate::ipc_server::Direction;
use crate::ipc_server::TransitionRecord;
use crate::ipc_server::MAX_TRANSITIONS;
use crate::rate::clamp_spec;
use crate::rolling::pushed;
use crate::text::parsed_u64;
use crate::text::trimmed_of;

verus! {

/// Milliseconds between two readings of the frame rate, and between two ticks of
/// the engine.
pub const FPS_POLL_INTERVAL_MS: u64 = 100;

/// Seconds before the shared-memory segment is tried again.
pub const SHM_RETRY_INTERVAL_SECS: u64 = 5;

/// Seconds the tasks are given to stop.
pub const SHUTDOWN_TIMEOUT_SECS: u64 = 2;

/// Seconds between two looks at the connectors.
pub const MONITOR_CHECK_INTERVAL_SECS: u64 = 10;

/// Seconds between two readings of the power draw.
pub const BATTERY_POLL_INTERVAL_SECS: u64 = 5;

/// What the control loop has to do after a tick.
#[derive(Debug, Clone, Copy, PartialEq, Eq, Structural)]
pub enum TickAction {
    /// Nothing.
    Idle,
    /// Run the helper for this rate, then report how it ended to
    /// `core_logic_applied`, with the rate the panel ran at before.
    Apply { hz: u32, old_hz: u32 },
}

/// What a tick of the engine does with the engine as it was, the frame rate and
/// the rate: nothing while the daemon does not run or there is no frame rate, and
/// else one tick of the engine.
pub open spec fn ticked(
    running: bool,
    engine: EngineModel,
    fps: u32,
    hz: u32,
    now: u64,
) -> (EngineModel, Option<u32>) {
    if !running || fps == 0 {
        (engine, None)
    } else {
        decide(engine, fps, hz, now)
    }
}

/// One tick of the control loop at `now`: unless the daemon is stopped or there is
/// no frame rate, the engine is shown the smoothed frame rate and the current
/// rate. Where it commands a rate, the actuator takes the configured range, and the
/// helper is to be run unless the panel already runs at that rate.
pub fn core_logic_tick(state: &mut DaemonState, display: &mut DisplayManager, now: u64) -> (action:
    TickAction)
    requires
        old(state).wf(),
    ensures
        final(state).wf(),
        *final(state) == (DaemonState { controller: final(state).controller, ..*old(state) }),
        final(state).controller@ == ticked(
            old(state).running,
            old(state).controller@,
            old(state).current_fps,
            old(state).current_hz,
            now,
        ).0,
        match ticked(
            old(state).running,
            old(state).controller@,
            old(state).current_fps,
            old(state).current_hz,
            now,
        ).1 {
            Some(target) => {
                let range = normalized_range(
                    old(state).config_manager.config().min_hz,
                    old(state).config_manager.config().max_hz,
                );
                let clamped = clamp_spec(target as int, range.0 as int, range.1 as int);
                &&& final(display)@ == (DisplayModel {
                    min_hz: range.0,
                    max_hz: range.1,
                    ..old(display)@
                })
                &&& action == (if clamped == old(display)@.current_hz {
                    TickAction::Idle
                } else {
                    TickAction::Apply { hz: clamped as u32, old_hz: old(display)@.current_hz }
                })
            },
            None => action == TickAction::Idle && final(display)@ == old(display)@,
        },
{
    if !state.running {
        return TickAction::Idle;
    }
    let fps: u32 = state.current_fps;
    let hz: u32 = state.current_hz;
    if fps == 0 {
        return TickAction::Idle;
    }
    match state.controller.process_with_time(fps, hz, now) {
        Some(target) => {
            let config = state.config_manager.get();
            display.set_range(config.min_hz, config.max_hz);
            let old_hz: u32 = display.get_current_hz();
            match display.set_refresh_rate(target) {
                RateRequest::Invoke { hz } => TickAction::Apply { hz, old_hz },
                RateRequest::NoChange => TickAction::Idle,
            }
        },
        None => TickAction::Idle,
    }
}

/// Takes note of how the helper's run for `hz` ended at `now`. After a run that
/// succeeded the actuator and the daemon's state hold the new rate, the change is
/// counted and shown in the status, and the answer is `Ok(true)`. After any other
/// run nothing changes and the answer is the error.
pub fn core_logic_applied(
    state: &mut DaemonState,
    display: &mut DisplayManager,
    old_hz: u32,
    hz: u32,
    outcome: HelperOutcome,
    now: u64,
) -> (r: Result<bool, DisplayError>)
    requires
        old(state).wf(),
    ensures
        final(state).wf(),
        r is Ok <==> outcome matches HelperOutcome::Exited { success: true, .. },
        r matches Ok(changed) ==> {
            &&& changed
            &&& final(display)@ == (DisplayModel {
                current_hz: hz,
                last_change: now,
                ..old(display)@
            })
            &&& final(state).current_hz == hz
            &&& final(state).metrics@ == old(state).metrics@.after_switch(old_hz, hz, now)
            &&& final(state).transitions@ == pushed(
                old(state).transitions@,
                MAX_TRANSITIONS as int,
                TransitionRecord {
                    timestamp: now,
                    from_hz: old_hz,
                    to_hz: hz,
                    fps: old(state).current_fps,
                    direction: if hz < old_hz {
                        Direction::Dropped
                    } else {
                        Direction::Increased
                    },
                },
            )
            &&& *final(state) == (DaemonState {
                current_hz: hz,
                metrics: final(state).metrics,
                transitions: final(state).transitions,
                ..*old(state)
            })
        },
        r is Err ==> *final(state) == *old(state) && final(display)@ == old(display)@,
        match outcome {
            HelperOutcome::Exited { success, exit_code, stderr } => !success ==> r == Err::<
                bool,
                DisplayError,
            >(DisplayError::CommandFailed { exit_code, stderr }),
            HelperOutcome::NotFound => r == Err::<bool, DisplayError>(DisplayError::CommandNotFound),
            HelperOutcome::Failed(source) => r == Err::<bool, DisplayError>(
                DisplayError::ExecutionFailed(source),
            ),
        },
{
    match display.finish_refresh_rate(hz, outcome, now) {
        Ok(changed) => {
            let applied: u32 = display.get_current_hz();
            let fps: u32 = state.current_fps;
            state.current_hz = applied;
            state.metrics.record_switch_at(old_hz, applied, now);
            state.record_transition(old_hz, applied, fps, now);
            Ok(changed)
        },
        Err(e) => Err(e),
    }
}

/// One reading of the frame rate at `now`: unless the daemon is stopped, the
/// record goes into the reader's window and the smoothed frame rate into the
/// daemon's state. Bytes that are no record mark the overlay as gone.
pub fn fps_poll_tick(
    state: &mut DaemonState,
    reader: &mut MangoHudReader,
    record: &[u8],
    now: u64,
) -> (r: Option<FpsSample>)
    requires
        old(state).wf(),
        old(reader).wf(),
    ensures
        final(state).wf(),
        final(reader).wf(),
        r is Some <==> old(state).running && record@.len() == 16,
        !old(state).running ==> *final(state) == *old(state) && final(reader)@ == old(reader)@,
        old(state).running && record@.len() != 16 ==> *final(state) == (DaemonState {
            mangohud_available: false,
            ..*old(state)
        }) && final(reader)@ == old(reader)@,
        r matches Some(sample) ==> {
            &&& sample == (FpsSample {
                fps: MangoHudData::decoding(record@).fps_val,
                frametime: MangoHudData::decoding(record@).frametime,
                timestamp: now,
            })
            &&& final(reader)@ == pushed(old(reader)@, RING_BUFFER_CAPACITY as int, sample)
            &&& *final(state) == (DaemonState {
                current_fps: final(state).current_fps,
                ..*old(state)
            })
            &&& final(state).current_fps == (if average_milli(final(reader)@) > u32::MAX {
                u32::MAX as int
            } else {
                average_milli(final(reader)@)
            })
        },
{
    if !state.running {
        return None;
    }
    match reader.poll_at(record, now) {
        Ok(sample) => {
            state.current_fps = reader.get_smoothed_fps();
            Some(sample)
        },
        Err(_) => {
            state.mangohud_available = false;
            None
        },
    }
}

/// One look at the connectors: the engine is told whether an external display is
/// connected where that has changed, and the answer says so, for the log.
pub fn monitor_tick(state: &mut DaemonState, detected: bool) -> (changed: bool)
    requires
        old(state).wf(),
    ensures
        final(state).wf(),
        changed == (detected != old(state).controller@.external_display_detected),
        *final(state) == (DaemonState { controller: final(state).controller, ..*old(state) }),
        final(state).controller@ == (if changed {
            old(state).controller@.with_external_display(detected)
        } else {
            old(state).controller@
        }),
{
    let was: bool = state.controller.is_external_display_detected();
    if detected != was {
        state.controller.set_external_display_detected(detected);
        true
    } else {
        false
    }
}

/// A signal that the system goes to sleep or wakes, at `now`: on a wake the engine
/// is put into the state that follows a wake; going to sleep changes nothing.
pub fn sleep_signal(state: &mut DaemonState, going_to_sleep: bool, now: u64)
    requires
        old(state).wf(),
    ensures
        final(state).wf(),
        *final(state) == (DaemonState { controller: final(state).controller, ..*old(state) }),
        final(state).controller@ == (if going_to_sleep {
            old(state).controller@
        } else {
            old(state).controller@.after_wake(now)
        }),
{
    if !going_to_sleep {
        state.controller.reset_state_at(now);
    }
}

/// One reading of the power draw at `now`: a reading that is a number is kept,
/// with the rate the panel runs at.
pub fn battery_tick(state: &mut DaemonState, source: &PowerSource, now: u64) -> (reading: Option<
    u64,
>)
    requires
        old(state).wf(),
    ensures
        final(state).wf(),
        reading == (match source {
            PowerSource::Contents(contents) => parsed_u64(trimmed_of(contents@)),
            _ => None,
        }),
        *final(state) == (DaemonState { battery: final(state).battery, ..*old(state) }),
        final(state).battery@ == ({
            let noted = BatteryModel {
                available: old(state).battery@.available && !(source is Missing),
                ..old(state).battery@
            };
            match reading {
                Some(power) => noted.with_sample(power, old(state).current_hz, now),
                None => noted,
            }
        }),
{
    let hz: u32 = state.current_hz;
    match state.battery.read_power_now(source) {
        Some(power) => {
            state.battery.record_sample_at(power, hz, now);
            Some(power)
        },
        None => None,
    }
}

} // verus!
