//! What holds of the engine on every input, proved over its mathematical value.

use vstd::prelude::*;
use crate::core_logic::decide;
use crate::core_logic::drop_target;
use crate::core_logic::elapsed;
use crate::core_logic::step_up_target;
use crate::core_logic::transition;
use crate::core_logic::within_tolerance;
use crate::core_logic::AlgorithmState;
use crate::core_logic::DeviceMode;
use crate::core_logic::EngineModel;
use crate::core_logic::Sensitivity;
use crate::rate::lemma_quantize_down_floor;
use crate::rate::lemma_quantize_nearest;

verus! {

/// What the engine is shown on one tick.
pub struct Tick {
    /// The frame rate, in thousandths of a frame per second.
    pub fps: u32,
    /// The rate the panel runs at.
    pub hz: u32,
    /// The time of the tick.
    pub now: u64,
}

/// The engine after one tick.
pub open spec fn after_tick(m: EngineModel, tick: Tick) -> EngineModel {
    decide(m, tick.fps, tick.hz, tick.now).0
}

/// The rate the engine commands on one tick, if any.
pub open spec fn command_on(m: EngineModel, tick: Tick) -> Option<u32> {
    decide(m, tick.fps, tick.hz, tick.now).1
}

/// The engine after a run of ticks, first to last.
pub open spec fn run(m: EngineModel, ticks: Seq<Tick>) -> EngineModel
    decreases ticks.len(),
{
    if ticks.len() == 0 {
        m
    } else {
        after_tick(run(m, ticks.drop_last()), ticks.last())
    }
}

/// The engine commands nothing on any tick of the run.
pub open spec fn all_quiet(m: EngineModel, ticks: Seq<Tick>) -> bool
    decreases ticks.len(),
{
    ticks.len() == 0 || (all_quiet(m, ticks.drop_last()) && command_on(
        run(m, ticks.drop_last()),
        ticks.last(),
    ) is None)
}

/// The user's range is one the panel's data sheet admits: both ends on the grid,
/// between 40 and 90, in order.
pub open spec fn user_range_valid(m: EngineModel) -> bool {
    &&& m.user_min_hz % 5 == 0
    &&& m.user_max_hz % 5 == 0
    &&& 40 <= m.user_min_hz <= m.user_max_hz <= 90
}

/// A tick leaves a well-formed engine well-formed, and touches nothing of what the
/// user or the system has set.
pub proof fn lemma_tick_keeps_settings(m: EngineModel, fps: u32, hz: u32, now: u64)
    requires
        m.wf(),
    ensures
        decide(m, fps, hz, now).0.wf(),
        decide(m, fps, hz, now).0.device_mode == m.device_mode,
        decide(m, fps, hz, now).0.user_sensitivity == m.user_sensitivity,
        decide(m, fps, hz, now).0.user_min_hz == m.user_min_hz,
        decide(m, fps, hz, now).0.user_max_hz == m.user_max_hz,
        decide(m, fps, hz, now).0.adaptive_enabled == m.adaptive_enabled,
        decide(m, fps, hz, now).0.external_display_detected == m.external_display_detected,
        decide(m, fps, hz, now).0.fps_tolerance == m.fps_tolerance,
        decide(m, fps, hz, now).0.resume_cooldown_until == m.resume_cooldown_until,
        decide(m, fps, hz, now).0.resume_cooldown_secs == m.resume_cooldown_secs,
        decide(m, fps, hz, now).0.sync_frame_limiter == m.sync_frame_limiter,
{
}

/// The time of the last change moves on a tick exactly when the engine commands a
/// rate, and then to the time of that tick.
pub proof fn lemma_last_change_follows_commands(m: EngineModel, fps: u32, hz: u32, now: u64)
    ensures
        decide(m, fps, hz, now).1 is None ==> decide(m, fps, hz, now).0.last_change
            == m.last_change,
        decide(m, fps, hz, now).1 is Some ==> decide(m, fps, hz, now).0.last_change == Some(now),
        decide(m, fps, hz, now).1 is Some ==> decide(m, fps, hz, now).0.last_set_hz == decide(
            m,
            fps,
            hz,
            now,
        ).1,
        decide(m, fps, hz, now).1 is Some ==> decide(m, fps, hz, now).0.state
            == AlgorithmState::Stable,
{
}

/// The engine commands a rate only when the last change lies the panel's interval
/// back.
pub proof fn lemma_command_needs_interval(m: EngineModel, fps: u32, hz: u32, now: u64)
    requires
        decide(m, fps, hz, now).1 is Some,
    ensures
        m.can_change(now),
        !m.external_display_detected,
        !m.in_cooldown(now),
        fps != 0,
{
}

/// A frame rate within the tolerance of the current rate makes the engine stable and
/// commands nothing, whatever was pending, as long as there is data and neither an
/// external display nor the silence after a wake holds the engine.
pub proof fn lemma_sticky_target(m: EngineModel, fps: u32, hz: u32, now: u64)
    requires
        fps != 0,
        !m.external_display_detected,
        !m.in_cooldown(now),
        within_tolerance(fps, hz, m.fps_tolerance),
    ensures
        decide(m, fps, hz, now).1 is None,
        decide(m, fps, hz, now).0.state == AlgorithmState::Stable,
        decide(m, fps, hz, now).0 == m.observe(fps).with_state(AlgorithmState::Stable),
{
}

/// Every rate the engine commands lies on the grid and inside the range it may
/// command, given a user's range that the data sheet admits, a range left to
/// command in, and a current rate not more than seven below that range.
pub proof fn lemma_command_quantized_in_range(m: EngineModel, fps: u32, hz: u32, now: u64)
    requires
        m.wf(),
        user_range_valid(m),
        m.effective_range().0 <= m.effective_range().1,
        hz + 7 >= m.effective_range().0,
    ensures
        match decide(m, fps, hz, now).1 {
            Some(target) => {
                &&& target % 5 == 0
                &&& m.effective_range().0 <= target <= m.effective_range().1
            },
            None => true,
        },
{
    let (emin, emax) = m.effective_range();
    assert(emin % 5 == 0 && emax % 5 == 0);
    if decide(m, fps, hz, now).1 is Some {
        let noted = m.observe(fps);
        assert(noted.effective_range() == m.effective_range());
        assert(decide(m, fps, hz, now) == transition(noted, fps, hz, now));
        match noted.state {
            AlgorithmState::Stable => {},
            AlgorithmState::Dropping { since } => {
                lemma_quantize_down_floor(fps as int / 1000);
            },
            AlgorithmState::Increasing { since } => {
                let next: int = if hz + 5 <= emax {
                    hz + 5
                } else {
                    emax as int
                };
                lemma_quantize_nearest(next);
                let target = step_up_target(hz, emax);
                assert(target % 5 == 0);
                assert(emin <= target <= emax) by (nonlinear_arith)
                    requires
                        target == ((next + 2) / 5) * 5,
                        emin % 5 == 0,
                        emax % 5 == 0,
                        next <= emax,
                        next + 2 >= emin,
                        0 <= emin,
                ;
            },
        }
    }
}

/// Between two ticks on which the engine commands a rate, with any number of quiet
/// ticks between them, at least the panel's interval passes.
pub proof fn lemma_min_change_interval(m: EngineModel, first: Tick, quiet: Seq<Tick>, second: Tick)
    requires
        command_on(m, first) is Some,
        all_quiet(after_tick(m, first), quiet),
        command_on(run(after_tick(m, first), quiet), second) is Some,
    ensures
        second.now - first.now >= m.device_mode.change_interval(),
{
    let start = after_tick(m, first);
    lemma_last_change_follows_commands(m, first.fps, first.hz, first.now);
    lemma_quiet_run_keeps_last_change(start, quiet);
    let before = run(start, quiet);
    lemma_command_needs_interval(before, second.fps, second.hz, second.now);
    assert(before.last_change == Some(first.now));
    assert(elapsed(second.now, first.now) >= before.device_mode.change_interval());
}

/// A run of quiet ticks changes neither the time of the last change nor the kind of
/// panel.
pub proof fn lemma_quiet_run_keeps_last_change(m: EngineModel, ticks: Seq<Tick>)
    requires
        all_quiet(m, ticks),
    ensures
        run(m, ticks).last_change == m.last_change,
        run(m, ticks).device_mode == m.device_mode,
    decreases ticks.len(),
{
    if ticks.len() > 0 {
        lemma_quiet_run_keeps_last_change(m, ticks.drop_last());
        let before = run(m, ticks.drop_last());
        let tick = ticks.last();
        lemma_last_change_follows_commands(before, tick.fps, tick.hz, tick.now);
    }
}

/// After a wake at `woke`, every tick before the silence ends commands nothing and
/// leaves the engine stable.
pub proof fn lemma_resume_cooldown(m: EngineModel, woke: u64, ticks: Seq<Tick>)
    requires
        forall|i: int|
            0 <= i < ticks.len() ==> (#[trigger] ticks[i]).now < woke + m.resume_cooldown_secs
                * 1000,
    ensures
        all_quiet(m.after_wake(woke), ticks),
        run(m.after_wake(woke), ticks).state == AlgorithmState::Stable,
        run(m.after_wake(woke), ticks).resume_cooldown_until == Some(
            woke + m.resume_cooldown_secs * 1000,
        ),
    decreases ticks.len(),
{
    if ticks.len() > 0 {
        let front = ticks.drop_last();
        assert forall|i: int| 0 <= i < front.len() implies (#[trigger] front[i]).now < woke
            + m.resume_cooldown_secs * 1000 by {
            assert(front[i] == ticks[i]);
        }
        lemma_resume_cooldown(m, woke, front);
        let tick = ticks.last();
        assert(tick == ticks[ticks.len() - 1]);
    }
}

/// While an external display is connected, no tick commands a rate and the engine
/// stays stable.
pub proof fn lemma_external_display_pauses(m: EngineModel, ticks: Seq<Tick>)
    ensures
        all_quiet(m.with_external_display(true), ticks),
        run(m.with_external_display(true), ticks).state == AlgorithmState::Stable,
        run(m.with_external_display(true), ticks).external_display_detected,
    decreases ticks.len(),
{
    if ticks.len() > 0 {
        lemma_external_display_pauses(m, ticks.drop_last());
    }
}

/// A sustained drop under the balanced waits: shown a frame rate six or more below
/// the current rate, a stable engine starts to wait, and a second tick a second or
/// more later commands a rate on the grid at least one step below the current one.
///
/// Adaptation is off, so the waits stay the balanced ones; the ends of the range lie
/// on the grid, the current rate a step or more above the lower end, and the last
/// change does not lie after the first tick.
pub proof fn lemma_sustained_drop(m: EngineModel, fps: u32, hz: u32, t: u64, later: u64)
    requires
        m.wf(),
        m.state == AlgorithmState::Stable,
        m.effective_sensitivity == Sensitivity::Balanced,
        !m.adaptive_enabled,
        !m.external_display_detected,
        !m.in_cooldown(t),
        m.last_change matches Some(last) ==> last <= t,
        m.effective_range().0 % 5 == 0,
        m.effective_range().1 % 5 == 0,
        m.effective_range().0 + 5 <= hz,
        0 < fps,
        fps + 6000 <= hz * 1000,
        later >= t + 1000,
    ensures
        decide(m, fps, hz, t).1 is None,
        decide(m, fps, hz, t).0.state == (AlgorithmState::Dropping { since: t }),
        match decide(decide(m, fps, hz, t).0, fps, hz, later).1 {
            Some(target) => target + 5 <= hz && target % 5 == 0,
            None => false,
        },
{
    let (emin, emax) = m.effective_range();
    let noted = m.observe(fps);
    assert(noted.effective_sensitivity == Sensitivity::Balanced);
    assert(noted.effective_range() == m.effective_range());
    let waiting = decide(m, fps, hz, t).0;
    assert(waiting == noted.with_state(AlgorithmState::Dropping { since: t }));
    let renoted = waiting.observe(fps);
    assert(renoted.effective_sensitivity == Sensitivity::Balanced);
    assert(renoted.effective_range() == m.effective_range());
    assert(renoted.state == (AlgorithmState::Dropping { since: t }));
    assert(renoted.device_mode != DeviceMode::Lcd);
    assert(renoted.can_change(later));
    lemma_quantize_down_floor(fps as int / 1000);
    let target = drop_target(fps, emin, emax);
    assert(fps as int / 1000 <= hz - 6);
    assert(target <= hz - 5);
    assert(target % 5 == 0);
    assert(decide(waiting, fps, hz, later) == transition(renoted, fps, hz, later));
}

/// A sustained rise under the balanced waits: shown a frame rate six or more above
/// a current rate on the grid, a stable engine starts to wait, and a second tick
/// three seconds or more later commands the next step up.
///
/// Adaptation is off, the range leaves room for one more step, and the last change
/// does not lie after the first tick.
pub proof fn lemma_sustained_rise(m: EngineModel, fps: u32, hz: u32, t: u64, later: u64)
    requires
        m.wf(),
        m.state == AlgorithmState::Stable,
        m.effective_sensitivity == Sensitivity::Balanced,
        !m.adaptive_enabled,
        !m.external_display_detected,
        !m.in_cooldown(t),
        m.last_change matches Some(last) ==> last <= t,
        hz % 5 == 0,
        hz + 5 <= m.effective_range().1,
        fps >= hz * 1000 + 6000,
        later >= t + 3000,
    ensures
        decide(m, fps, hz, t).1 is None,
        decide(m, fps, hz, t).0.state == (AlgorithmState::Increasing { since: t }),
        decide(decide(m, fps, hz, t).0, fps, hz, later).1 == Some((hz + 5) as u32),
{
    let (emin, emax) = m.effective_range();
    let noted = m.observe(fps);
    assert(noted.effective_sensitivity == Sensitivity::Balanced);
    assert(noted.effective_range() == m.effective_range());
    let waiting = decide(m, fps, hz, t).0;
    assert(waiting == noted.with_state(AlgorithmState::Increasing { since: t }));
    let renoted = waiting.observe(fps);
    assert(renoted.effective_sensitivity == Sensitivity::Balanced);
    assert(renoted.effective_range() == m.effective_range());
    assert(renoted.state == (AlgorithmState::Increasing { since: t }));
    assert(renoted.device_mode != DeviceMode::Lcd);
    assert(renoted.can_change(later));
    lemma_quantize_nearest(hz + 5);
    assert(step_up_target(hz, emax) == hz + 5);
    assert(decide(waiting, fps, hz, later) == transition(renoted, fps, hz, later));
}

/// With no room between the ends of the range the engine never leaves `Stable` and
/// never commands a rate.
pub proof fn lemma_single_rate_range_is_silent(m: EngineModel, fps: u32, hz: u32, now: u64)
    requires
        m.state == AlgorithmState::Stable,
        m.effective_range().0 == m.effective_range().1,
        hz == m.effective_range().0,
    ensures
        decide(m, fps, hz, now).1 is None,
        decide(m, fps, hz, now).0.state == AlgorithmState::Stable,
{
}

/// Setting the sensitivity, the kind of panel or the range drops what was pending
/// and keeps the time of the last change.
pub proof fn lemma_settings_keep_last_change(
    m: EngineModel,
    sensitivity: Sensitivity,
    mode: DeviceMode,
    min_hz: u32,
    max_hz: u32,
)
    ensures
        m.with_sensitivity(sensitivity).state == AlgorithmState::Stable,
        m.with_sensitivity(sensitivity).last_change == m.last_change,
        m.with_device_mode(mode).state == AlgorithmState::Stable,
        m.with_device_mode(mode).last_change == m.last_change,
        m.with_user_range(min_hz, max_hz).state == AlgorithmState::Stable,
        m.with_user_range(min_hz, max_hz).last_change == m.last_change,
{
}

/// On a slow panel the conservative waits are in force whatever the user chose.
pub proof fn lemma_lcd_forces_conservative(m: EngineModel)
    ensures
        m.with_device_mode(DeviceMode::Lcd).effective_sensitivity == Sensitivity::Conservative,
        m.with_device_mode(DeviceMode::Lcd).user_sensitivity == m.user_sensitivity,
        m.with_device_mode(DeviceMode::Lcd).device_mode.change_interval() == 2000,
{
}

} // verus!
