//! The hysteresis engine: from a stream of frame-rate samples to refresh-rate changes.
//!
//! Frame rates are given in thousandths of a frame per second and times in
//! milliseconds on one monotonic clock. The engine is a plain value; what it does on a
//! tick is the spec function [`decide`] applied to its view.

use vstd::prelude::*;
use std::collections::VecDeque;
use crate::clock::Clock;
use crate::rate::abs_diff_spec;
use crate::rate::abs_diff_u32;
use crate::rate::clamp_spec;
use crate::rate::clamp_u32;
use crate::rate::quantize_down_spec;
use crate::rate::quantize_spec;
use crate::rate::HZ_STEP_SIZE;
use crate::rolling::pushed;
use crate::stats::is_floor_sqrt;
use crate::stats::mean_floor;
use crate::stats::std_dev_above;
use crate::stats::std_dev_below;
use crate::stats::variance_floor;
use crate::stats::MAX_WINDOW_CAPACITY;

verus! {

/// One frame per second in the unit that frame rates are given in.
pub const FPS_UNIT: u32 = 1000;

/// The tolerance around the current rate inside which the engine holds still.
pub const DEFAULT_FPS_TOLERANCE: u32 = 3000;

/// The narrowest tolerance that can be set.
pub const MIN_FPS_TOLERANCE: u32 = 2000;

/// The widest tolerance that can be set.
pub const MAX_FPS_TOLERANCE: u32 = 5000;

/// The number of samples the engine keeps for its estimate of the deviation.
pub const ADAPTIVE_WINDOW_SIZE: usize = 10;

/// Below this standard deviation the frame rate counts as steady.
pub const STD_DEV_STABLE: u32 = 2000;

/// Above this standard deviation the frame rate counts as unsteady.
pub const STD_DEV_UNSTABLE: u32 = 5000;

/// Seconds of silence after the system wakes, unless set otherwise.
pub const DEFAULT_RESUME_COOLDOWN_SECS: u64 = 5;

/// Shortest time between two rate changes on a panel that switches fast.
pub const MIN_CHANGE_INTERVAL_OLED_MS: u64 = 500;

/// Shortest time between two rate changes on a panel that flickers when switched.
pub const MIN_CHANGE_INTERVAL_LCD_MS: u64 = 2000;

/// Lowest rate the engine commands on any panel.
pub const PANEL_MIN_HZ: u32 = 40;

/// Highest rate the engine commands on a fast panel.
pub const PANEL_MAX_HZ: u32 = 90;

/// Highest rate the engine commands on a slow panel.
pub const LCD_MAX_HZ: u32 = 60;

/// Where the engine stands between two rate changes.
#[derive(Debug, Clone, Copy, PartialEq, Eq, Structural)]
pub enum AlgorithmState {
    /// No change is pending.
    Stable,
    /// The frame rate has been low since `since`; a decrease is pending.
    Dropping { since: u64 },
    /// The frame rate has been high since `since`; an increase is pending.
    Increasing { since: u64 },
}

impl Default for AlgorithmState {
    fn default() -> (r: Self)
        ensures
            r == AlgorithmState::Stable,
    {
        AlgorithmState::Stable
    }
}

/// How long a condition must last before the engine acts on it.
#[derive(Debug, Clone, Copy, PartialEq, Eq, Structural)]
pub enum Sensitivity {
    /// Two seconds before a decrease, five before an increase.
    Conservative,
    /// One second before a decrease, three before an increase.
    Balanced,
    /// Half a second before a decrease, one and a half before an increase.
    Aggressive,
}

impl Default for Sensitivity {
    fn default() -> (r: Self)
        ensures
            r == Sensitivity::Balanced,
    {
        Sensitivity::Balanced
    }
}

/// The kind of panel, which decides how often and how far the rate may change.
#[derive(Debug, Clone, Copy, PartialEq, Eq, Structural)]
pub enum DeviceMode {
    /// Switches fast: changes half a second apart, rates from 40 to 90.
    Oled,
    /// Flickers when switched: changes two seconds apart, rates from 40 to 60,
    /// and always the conservative waits.
    Lcd,
    /// Changes half a second apart, and the range is the user's own.
    Custom,
}

impl Default for DeviceMode {
    fn default() -> (r: Self)
        ensures
            r == DeviceMode::Oled,
    {
        DeviceMode::Oled
    }
}

impl Sensitivity {
    /// Milliseconds the frame rate must stay low before the rate is decreased.
    pub open spec fn drop_wait(self) -> u64 {
        match self {
            Sensitivity::Conservative => 2000,
            Sensitivity::Balanced => 1000,
            Sensitivity::Aggressive => 500,
        }
    }

    /// Milliseconds the frame rate must stay high before the rate is increased.
    pub open spec fn rise_wait(self) -> u64 {
        match self {
            Sensitivity::Conservative => 5000,
            Sensitivity::Balanced => 3000,
            Sensitivity::Aggressive => 1500,
        }
    }

    /// Milliseconds the frame rate must stay low before the rate is decreased.
    pub fn drop_threshold(&self) -> (ms: u64)
        ensures
            ms == self.drop_wait(),
    {
        match self {
            Sensitivity::Conservative => 2000,
            Sensitivity::Balanced => 1000,
            Sensitivity::Aggressive => 500,
        }
    }

    /// Milliseconds the frame rate must stay high before the rate is increased.
    pub fn increase_threshold(&self) -> (ms: u64)
        ensures
            ms == self.rise_wait(),
    {
        match self {
            Sensitivity::Conservative => 5000,
            Sensitivity::Balanced => 3000,
            Sensitivity::Aggressive => 1500,
        }
    }
}

impl DeviceMode {
    /// Milliseconds that must pass between two rate changes.
    pub open spec fn change_interval(self) -> u64 {
        match self {
            DeviceMode::Lcd => MIN_CHANGE_INTERVAL_LCD_MS,
            _ => MIN_CHANGE_INTERVAL_OLED_MS,
        }
    }

    /// Milliseconds that must pass between two rate changes.
    pub fn min_change_interval(&self) -> (ms: u64)
        ensures
            ms == self.change_interval(),
    {
        match self {
            DeviceMode::Lcd => MIN_CHANGE_INTERVAL_LCD_MS,
            _ => MIN_CHANGE_INTERVAL_OLED_MS,
        }
    }
}

/// Milliseconds from `since` to `now`; zero where `now` lies before `since`.
pub open spec fn elapsed(now: u64, since: u64) -> int {
    if now >= since {
        now - since
    } else {
        0
    }
}

/// The rate a decrease aims at: the frame rate in whole hertz, rounded down to the
/// grid and held inside the range.
pub open spec fn drop_target(fps: u32, emin: u32, emax: u32) -> int {
    clamp_spec(quantize_down_spec(fps as int / 1000), emin as int, emax as int)
}

/// The rate an increase aims at: one step above `hz`, held below the range's upper
/// end and rounded to the grid.
pub open spec fn step_up_target(hz: u32, emax: u32) -> int {
    quantize_spec(
        if hz + 5 <= emax {
            hz + 5
        } else {
            emax as int
        },
    )
}

/// The engine as a mathematical value.
#[verifier::ext_equal]
pub struct EngineModel {
    /// Where the engine stands between two changes.
    pub state: AlgorithmState,
    /// When the engine last commanded a change.
    pub last_change: Option<u64>,
    /// The sensitivity the user chose.
    pub user_sensitivity: Sensitivity,
    /// The sensitivity in force, after the panel's and the deviation's say.
    pub effective_sensitivity: Sensitivity,
    /// The kind of panel.
    pub device_mode: DeviceMode,
    /// Lower end of the user's range.
    pub user_min_hz: u32,
    /// Upper end of the user's range.
    pub user_max_hz: u32,
    /// The most recent frame rates, oldest first.
    pub window: Seq<u32>,
    /// Whether the deviation of the frame rate may change the sensitivity.
    pub adaptive_enabled: bool,
    /// Whether an external display is connected.
    pub external_display_detected: bool,
    /// Half-width of the band around the current rate in which nothing happens.
    pub fps_tolerance: u32,
    /// The time before which the engine stays silent after a wake.
    pub resume_cooldown_until: Option<int>,
    /// Seconds of silence that the next wake arms.
    pub resume_cooldown_secs: u64,
    /// Whether the frame limiter follows the rate.
    pub sync_frame_limiter: bool,
    /// The rate the engine last commanded or was told of.
    pub last_set_hz: Option<u32>,
}

impl EngineModel {
    /// What every engine value satisfies.
    pub open spec fn wf(self) -> bool {
        &&& MIN_FPS_TOLERANCE <= self.fps_tolerance <= MAX_FPS_TOLERANCE
        &&& self.window.len() <= ADAPTIVE_WINDOW_SIZE
        &&& self.device_mode == DeviceMode::Lcd ==> self.effective_sensitivity
            == Sensitivity::Conservative
        &&& self.effective_sensitivity == self.user_sensitivity || self.effective_sensitivity
            == Sensitivity::Conservative
    }

    /// The engine as it is made, with the given sensitivity.
    pub open spec fn initial(sensitivity: Sensitivity) -> EngineModel {
        EngineModel {
            state: AlgorithmState::Stable,
            last_change: None,
            user_sensitivity: sensitivity,
            effective_sensitivity: sensitivity,
            device_mode: DeviceMode::Oled,
            user_min_hz: PANEL_MIN_HZ,
            user_max_hz: PANEL_MAX_HZ,
            window: Seq::empty(),
            adaptive_enabled: false,
            external_display_detected: false,
            fps_tolerance: DEFAULT_FPS_TOLERANCE,
            resume_cooldown_until: None,
            resume_cooldown_secs: DEFAULT_RESUME_COOLDOWN_SECS,
            sync_frame_limiter: false,
            last_set_hz: None,
        }
    }

    /// The sensitivity that the panel alone asks for.
    pub open spec fn base_sensitivity(self) -> Sensitivity {
        if self.device_mode == DeviceMode::Lcd {
            Sensitivity::Conservative
        } else {
            self.user_sensitivity
        }
    }

    /// The range of rates the engine may command: the user's range, cut to what the
    /// panel takes.
    pub open spec fn effective_range(self) -> (u32, u32) {
        match self.device_mode {
            DeviceMode::Oled => (
                if self.user_min_hz >= PANEL_MIN_HZ {
                    self.user_min_hz
                } else {
                    PANEL_MIN_HZ
                },
                if self.user_max_hz <= PANEL_MAX_HZ {
                    self.user_max_hz
                } else {
                    PANEL_MAX_HZ
                },
            ),
            DeviceMode::Lcd => (
                if self.user_min_hz >= PANEL_MIN_HZ {
                    self.user_min_hz
                } else {
                    PANEL_MIN_HZ
                },
                if self.user_max_hz <= LCD_MAX_HZ {
                    self.user_max_hz
                } else {
                    LCD_MAX_HZ
                },
            ),
            DeviceMode::Custom => (self.user_min_hz, self.user_max_hz),
        }
    }

    /// Whether the silence after a wake still lasts at `now`.
    pub open spec fn in_cooldown(self, now: u64) -> bool {
        match self.resume_cooldown_until {
            Some(until) => now < until,
            None => false,
        }
    }

    /// Milliseconds of silence left at `now`.
    pub open spec fn cooldown_remaining(self, now: u64) -> int {
        match self.resume_cooldown_until {
            Some(until) => if now < until {
                until - now
            } else {
                0
            },
            None => 0,
        }
    }

    /// Whether the last change lies far enough back at `now` for another one.
    pub open spec fn can_change(self, now: u64) -> bool {
        match self.last_change {
            Some(last) => elapsed(now, last) >= self.device_mode.change_interval(),
            None => true,
        }
    }

    /// The engine with another state and nothing else changed.
    pub open spec fn with_state(self, state: AlgorithmState) -> EngineModel {
        EngineModel { state, ..self }
    }

    /// The engine after the user's range was set: the range is taken as given and
    /// any pending change is dropped.
    pub open spec fn with_user_range(self, min_hz: u32, max_hz: u32) -> EngineModel {
        EngineModel {
            user_min_hz: min_hz,
            user_max_hz: max_hz,
            state: AlgorithmState::Stable,
            ..self
        }
    }

    /// The engine after the user's sensitivity was set.
    pub open spec fn with_sensitivity(self, sensitivity: Sensitivity) -> EngineModel {
        let chosen = EngineModel { user_sensitivity: sensitivity, ..self };
        EngineModel {
            effective_sensitivity: chosen.base_sensitivity(),
            state: AlgorithmState::Stable,
            ..chosen
        }
    }

    /// The engine after the kind of panel was set.
    pub open spec fn with_device_mode(self, mode: DeviceMode) -> EngineModel {
        let chosen = EngineModel { device_mode: mode, ..self };
        EngineModel {
            effective_sensitivity: chosen.base_sensitivity(),
            state: AlgorithmState::Stable,
            ..chosen
        }
    }

    /// The engine after the tolerance was set: values outside the admitted band are
    /// moved to its nearer end.
    pub open spec fn with_fps_tolerance(self, tolerance: u32) -> EngineModel {
        EngineModel {
            fps_tolerance: clamp_spec(
                tolerance as int,
                MIN_FPS_TOLERANCE as int,
                MAX_FPS_TOLERANCE as int,
            ) as u32,
            ..self
        }
    }

    /// The engine after adaptation was switched on or off; switching it off undoes
    /// what adaptation did to the sensitivity.
    pub open spec fn with_adaptive(self, enabled: bool) -> EngineModel {
        EngineModel {
            adaptive_enabled: enabled,
            effective_sensitivity: if enabled {
                self.effective_sensitivity
            } else {
                self.base_sensitivity()
            },
            ..self
        }
    }

    /// The engine after it was told whether an external display is connected.
    pub open spec fn with_external_display(self, detected: bool) -> EngineModel {
        EngineModel {
            external_display_detected: detected,
            state: if detected {
                AlgorithmState::Stable
            } else {
                self.state
            },
            ..self
        }
    }

    /// The engine after the length of the silence that follows a wake was set.
    pub open spec fn with_resume_cooldown(self, secs: u64) -> EngineModel {
        EngineModel { resume_cooldown_secs: secs, ..self }
    }

    /// The engine after the frame limiter was tied to the rate or untied from it.
    pub open spec fn with_sync_frame_limiter(self, enabled: bool) -> EngineModel {
        EngineModel { sync_frame_limiter: enabled, ..self }
    }

    /// The engine after it was told which rate is set.
    pub open spec fn with_last_hz(self, hz: u32) -> EngineModel {
        EngineModel { last_set_hz: Some(hz), ..self }
    }

    /// The engine after the system woke at `now`: nothing pending, no memory of the
    /// last change or of past frame rates, and silence for the set number of seconds.
    pub open spec fn after_wake(self, now: u64) -> EngineModel {
        EngineModel {
            state: AlgorithmState::Stable,
            last_change: None,
            window: Seq::empty(),
            resume_cooldown_until: Some(now + self.resume_cooldown_secs * 1000),
            ..self
        }
    }

    /// The sensitivity after the deviation of the window has had its say.
    pub open spec fn adapted_sensitivity(self) -> Sensitivity {
        if self.adaptive_enabled && self.device_mode != DeviceMode::Lcd && self.window.len()
            >= ADAPTIVE_WINDOW_SIZE {
            if std_dev_above(self.window, STD_DEV_UNSTABLE as int) {
                Sensitivity::Conservative
            } else if std_dev_below(self.window, STD_DEV_STABLE as int) {
                self.user_sensitivity
            } else {
                self.effective_sensitivity
            }
        } else {
            self.effective_sensitivity
        }
    }

    /// The engine after it has taken note of a frame rate.
    pub open spec fn observe(self, fps: u32) -> EngineModel {
        let noted = EngineModel {
            window: pushed(self.window, ADAPTIVE_WINDOW_SIZE as int, fps),
            ..self
        };
        EngineModel { effective_sensitivity: noted.adapted_sensitivity(), ..noted }
    }

    /// The engine after it has commanded `target` at `now`.
    pub open spec fn record(self, now: u64, target: u32) -> EngineModel {
        EngineModel {
            state: AlgorithmState::Stable,
            last_change: Some(now),
            last_set_hz: Some(target),
            ..self
        }
    }
}

/// Whether `fps` lies inside the band of `tolerance` around `hz`.
pub open spec fn within_tolerance(fps: u32, hz: u32, tolerance: u32) -> bool {
    abs_diff_spec(fps as int, hz * 1000) < tolerance
}

/// Whether `fps` lies more than one frame per second below `hz`.
pub open spec fn fps_below(fps: u32, hz: u32) -> bool {
    fps < hz * 1000 - 1000
}

/// Whether `fps` has reached `hz`.
pub open spec fn fps_at_or_above(fps: u32, hz: u32) -> bool {
    fps >= hz * 1000
}

/// What the engine does once the gates are passed, the frame rate is noted and it
/// lies outside the tolerance: the next engine and the rate commanded, if any.
pub open spec fn transition(m: EngineModel, fps: u32, hz: u32, now: u64) -> (
    EngineModel,
    Option<u32>,
) {
    let (emin, emax) = m.effective_range();
    let below = fps_below(fps, hz);
    let at_or_above = fps_at_or_above(fps, hz);
    match m.state {
        AlgorithmState::Stable => {
            if below && hz > emin {
                (m.with_state(AlgorithmState::Dropping { since: now }), None)
            } else if at_or_above && hz < emax {
                (m.with_state(AlgorithmState::Increasing { since: now }), None)
            } else {
                (m, None)
            }
        },
        AlgorithmState::Dropping { since } => {
            if !below {
                (m.with_state(AlgorithmState::Stable), None)
            } else if elapsed(now, since) < m.effective_sensitivity.drop_wait() {
                (m, None)
            } else if !m.can_change(now) {
                (m, None)
            } else {
                let target = drop_target(fps, emin, emax);
                if abs_diff_spec(hz as int, target) < HZ_STEP_SIZE {
                    (m.with_state(AlgorithmState::Stable), None)
                } else {
                    (m.record(now, target as u32), Some(target as u32))
                }
            }
        },
        AlgorithmState::Increasing { since } => {
            if below {
                (m.with_state(AlgorithmState::Dropping { since: now }), None)
            } else if !at_or_above {
                (m.with_state(AlgorithmState::Stable), None)
            } else if elapsed(now, since) < m.effective_sensitivity.rise_wait() {
                (m, None)
            } else if !m.can_change(now) {
                (m, None)
            } else {
                let target = step_up_target(hz, emax);
                if target <= hz {
                    (m.with_state(AlgorithmState::Stable), None)
                } else {
                    (m.record(now, target as u32), Some(target as u32))
                }
            }
        },
    }
}

/// One tick of the engine: the engine after it has been shown the frame rate `fps`
/// while the panel runs at `hz` at time `now`, and the rate it commands, if any.
///
/// A frame rate of zero stands for no data and changes nothing. While an external
/// display is connected, or the silence after a wake lasts, the engine falls back to
/// `Stable` and commands nothing. Otherwise it notes the frame rate, holds still if
/// the frame rate lies within the tolerance of the current rate, and else follows
/// [`transition`].
pub open spec fn decide(m: EngineModel, fps: u32, hz: u32, now: u64) -> (
    EngineModel,
    Option<u32>,
) {
    if fps == 0 {
        (m, None)
    } else if m.external_display_detected || m.in_cooldown(now) {
        (m.with_state(AlgorithmState::Stable), None)
    } else {
        let noted = m.observe(fps);
        if within_tolerance(fps, hz, noted.fps_tolerance) {
            (noted.with_state(AlgorithmState::Stable), None)
        } else {
            transition(noted, fps, hz, now)
        }
    }
}

/// A bounded window of recent frame rates, for the mean and the deviation.
#[derive(Debug)]
pub struct FpsSlidingWindow {
    samples: VecDeque<u32>,
    capacity: usize,
}

impl View for FpsSlidingWindow {
    type V = Seq<u32>;

    closed spec fn view(&self) -> Seq<u32> {
        self.samples@
    }
}

impl FpsSlidingWindow {
    /// The number of samples the window was made for.
    pub closed spec fn limit(&self) -> usize {
        self.capacity
    }

    /// The window was made for no more than `MAX_WINDOW_CAPACITY` samples and holds
    /// no more than it was made for; one made for none may still hold one.
    pub closed spec fn wf(&self) -> bool {
        &&& self.capacity <= MAX_WINDOW_CAPACITY
        &&& self.samples@.len() <= self.capacity || self.samples@.len() <= 1
    }

    /// A well-formed window holds no more than it was made for.
    pub proof fn lemma_len_bound(&self)
        requires
            self.wf(),
        ensures
            self.limit() <= MAX_WINDOW_CAPACITY,
            self@.len() <= self.limit() || self@.len() <= 1,
    {
    }

    /// An empty window for `capacity` samples.
    pub fn new(capacity: usize) -> (w: Self)
        requires
            capacity <= MAX_WINDOW_CAPACITY,
        ensures
            w.wf(),
            w@ == Seq::<u32>::empty(),
            w.limit() == capacity,
    {
        Self { samples: VecDeque::with_capacity(capacity), capacity }
    }

    /// Adds a sample; a window that is full gives up its oldest sample for it.
    pub fn push(&mut self, fps: u32)
        requires
            old(self).wf(),
        ensures
            final(self).wf(),
            final(self)@ == pushed(old(self)@, old(self).limit() as int, fps),
            final(self).limit() == old(self).limit(),
    {
        if self.samples.len() >= self.capacity {
            let _ = self.samples.pop_front();
        }
        self.samples.push_back(fps);
        proof {
            assert(old(self)@.len() > 0 ==> old(self)@.drop_first() =~= old(self)@.subrange(
                1,
                old(self)@.len() as int,
            ));
        }
    }

    /// Forgets every sample.
    pub fn clear(&mut self)
        requires
            old(self).wf(),
        ensures
            final(self).wf(),
            final(self)@ == Seq::<u32>::empty(),
            final(self).limit() == old(self).limit(),
    {
        self.samples.clear();
    }

    /// The number of samples held.
    pub fn len(&self) -> (n: usize)
        ensures
            n == self@.len(),
    {
        self.samples.len()
    }

    /// Whether the window holds as many samples as it was made for.
    pub fn is_full(&self) -> (full: bool)
        ensures
            full == (self@.len() >= self.limit()),
    {
        self.samples.len() >= self.capacity
    }

    /// The mean of the samples, rounded down; zero for an empty window.
    pub fn mean(&self) -> (m: u32)
        requires
            self.wf(),
        ensures
            m == mean_floor(self@),
    {
        let n: usize = self.samples.len();
        if n == 0 {
            return 0;
        }
        let total: u64 = crate::stats::total_of(&self.samples);
        proof {
            crate::stats::lemma_sum_bound(self.samples@);
            assert(total / (n as u64) <= 0xffff_ffff) by (nonlinear_arith)
                requires
                    total <= n * 0xffff_ffff,
                    n >= 1,
            ;
        }
        (total / (n as u64)) as u32
    }

    /// The sample standard deviation, rounded down; zero for fewer than two samples.
    pub fn std_dev(&self) -> (dev: u64)
        requires
            self.wf(),
        ensures
            is_floor_sqrt(dev as int, variance_floor(self@)),
    {
        crate::stats::std_dev_floor_of(&self.samples)
    }

    /// Whether the sample standard deviation is greater than `limit`.
    pub fn std_dev_exceeds(&self, limit: u32) -> (above: bool)
        requires
            self.wf(),
        ensures
            above == std_dev_above(self@, limit as int),
    {
        crate::stats::std_dev_exceeds(&self.samples, limit)
    }

    /// Whether the sample standard deviation is less than `limit`.
    pub fn std_dev_within(&self, limit: u32) -> (below: bool)
        requires
            self.wf(),
        ensures
            below == std_dev_below(self@, limit as int),
    {
        crate::stats::std_dev_within(&self.samples, limit)
    }
}

impl Default for FpsSlidingWindow {
    fn default() -> (w: Self)
        ensures
            w.wf(),
            w@ == Seq::<u32>::empty(),
            w.limit() == ADAPTIVE_WINDOW_SIZE,
    {
        Self::new(ADAPTIVE_WINDOW_SIZE)
    }
}

/// What the engine shows of itself at one moment.
#[derive(Debug, Clone, Copy, PartialEq, Eq, Structural)]
pub struct EngineSnapshot {
    /// Where the engine stands between two changes.
    pub state: AlgorithmState,
    /// The sensitivity in force.
    pub effective_sensitivity: Sensitivity,
    /// Lower end of the range of rates the engine may command.
    pub effective_min_hz: u32,
    /// Upper end of the range of rates the engine may command.
    pub effective_max_hz: u32,
    /// Milliseconds of silence left after a wake.
    pub cooldown_remaining_ms: u128,
    /// Standard deviation of the recent frame rates, rounded down.
    pub fps_std_dev: u64,
    /// The rate the engine last commanded or was told of.
    pub last_set_hz: Option<u32>,
}

/// The hysteresis engine.
///
/// It turns frame-rate samples into refresh-rate changes, and keeps the rate from
/// swinging by asking that a condition last before it acts on it.
#[derive(Debug)]
pub struct HysteresisController {
    state: AlgorithmState,
    last_change: Option<u64>,
    user_sensitivity: Sensitivity,
    effective_sensitivity: Sensitivity,
    device_mode: DeviceMode,
    user_min_hz: u32,
    user_max_hz: u32,
    fps_window: FpsSlidingWindow,
    adaptive_sensitivity_enabled: bool,
    external_display_detected: bool,
    fps_tolerance: u32,
    resume_cooldown_until: Option<u128>,
    resume_cooldown_secs: u64,
    sync_frame_limiter: bool,
    last_set_hz: Option<u32>,
}

impl View for HysteresisController {
    type V = EngineModel;

    closed spec fn view(&self) -> EngineModel {
        EngineModel {
            state: self.state,
            last_change: self.last_change,
            user_sensitivity: self.user_sensitivity,
            effective_sensitivity: self.effective_sensitivity,
            device_mode: self.device_mode,
            user_min_hz: self.user_min_hz,
            user_max_hz: self.user_max_hz,
            window: self.fps_window@,
            adaptive_enabled: self.adaptive_sensitivity_enabled,
            external_display_detected: self.external_display_detected,
            fps_tolerance: self.fps_tolerance,
            resume_cooldown_until: match self.resume_cooldown_until {
                Some(until) => Some(until as int),
                None => None,
            },
            resume_cooldown_secs: self.resume_cooldown_secs,
            sync_frame_limiter: self.sync_frame_limiter,
            last_set_hz: self.last_set_hz,
        }
    }
}

impl HysteresisController {
    /// The engine's value is well-formed and its window is one for
    /// `ADAPTIVE_WINDOW_SIZE` samples.
    pub closed spec fn wf(&self) -> bool {
        &&& self@.wf()
        &&& self.fps_window.wf()
        &&& self.fps_window.limit() == ADAPTIVE_WINDOW_SIZE
    }

    /// The value of a well-formed engine is well-formed.
    pub proof fn lemma_view_wf(&self)
        requires
            self.wf(),
        ensures
            self@.wf(),
    {
    }

    /// An engine with the given sensitivity, for a fast panel and the full range.
    pub fn new(sensitivity: Sensitivity) -> (c: Self)
        ensures
            c.wf(),
            c@ == EngineModel::initial(sensitivity),
    {
        Self {
            state: AlgorithmState::Stable,
            last_change: None,
            user_sensitivity: sensitivity,
            effective_sensitivity: sensitivity,
            device_mode: DeviceMode::Oled,
            user_min_hz: PANEL_MIN_HZ,
            user_max_hz: PANEL_MAX_HZ,
            fps_window: FpsSlidingWindow::new(ADAPTIVE_WINDOW_SIZE),
            adaptive_sensitivity_enabled: false,
            external_display_detected: false,
            fps_tolerance: DEFAULT_FPS_TOLERANCE,
            resume_cooldown_until: None,
            resume_cooldown_secs: DEFAULT_RESUME_COOLDOWN_SECS,
            sync_frame_limiter: false,
            last_set_hz: None,
        }
    }

    /// Where the engine stands between two changes.
    pub fn state(&self) -> (s: AlgorithmState)
        ensures
            s == self@.state,
    {
        self.state
    }

    /// The sensitivity the user chose.
    pub fn sensitivity(&self) -> (s: Sensitivity)
        ensures
            s == self@.user_sensitivity,
    {
        self.user_sensitivity
    }

    /// The sensitivity in force.
    pub fn effective_sensitivity(&self) -> (s: Sensitivity)
        ensures
            s == self@.effective_sensitivity,
    {
        self.effective_sensitivity
    }

    /// The kind of panel.
    pub fn device_mode(&self) -> (m: DeviceMode)
        ensures
            m == self@.device_mode,
    {
        self.device_mode
    }

    /// When the engine last commanded a change.
    pub fn last_change(&self) -> (t: Option<u64>)
        ensures
            t == self@.last_change,
    {
        self.last_change
    }

    /// The user's range, lower end first.
    pub fn user_range(&self) -> (r: (u32, u32))
        ensures
            r == (self@.user_min_hz, self@.user_max_hz),
    {
        (self.user_min_hz, self.user_max_hz)
    }

    /// Milliseconds that must pass between two changes on the present panel.
    pub fn min_change_interval(&self) -> (ms: u64)
        ensures
            ms == self@.device_mode.change_interval(),
    {
        self.device_mode.min_change_interval()
    }

    /// Sets the user's range and drops any pending change.
    pub fn set_user_range(&mut self, min_hz: u32, max_hz: u32)
        requires
            old(self).wf(),
        ensures
            final(self).wf(),
            final(self)@ == old(self)@.with_user_range(min_hz, max_hz),
    {
        self.user_min_hz = min_hz;
        self.user_max_hz = max_hz;
        self.state = AlgorithmState::Stable;
    }

    /// Switches adaptation on or off; switching it off undoes what it did to the
    /// sensitivity.
    pub fn set_adaptive_sensitivity(&mut self, enabled: bool)
        requires
            old(self).wf(),
        ensures
            final(self).wf(),
            final(self)@ == old(self)@.with_adaptive(enabled),
    {
        self.adaptive_sensitivity_enabled = enabled;
        if !enabled {
            self.update_effective_sensitivity();
        }
    }

    /// Whether adaptation is switched on.
    pub fn is_adaptive_sensitivity_enabled(&self) -> (b: bool)
        ensures
            b == self@.adaptive_enabled,
    {
        self.adaptive_sensitivity_enabled
    }

    /// Tells the engine whether an external display is connected; while one is, the
    /// engine commands nothing.
    pub fn set_external_display_detected(&mut self, detected: bool)
        requires
            old(self).wf(),
        ensures
            final(self).wf(),
            final(self)@ == old(self)@.with_external_display(detected),
    {
        self.external_display_detected = detected;
        if detected {
            self.state = AlgorithmState::Stable;
        }
    }

    /// Whether an external display is connected.
    pub fn is_external_display_detected(&self) -> (b: bool)
        ensures
            b == self@.external_display_detected,
    {
        self.external_display_detected
    }

    /// Standard deviation of the recent frame rates, rounded down.
    pub fn get_fps_std_dev(&self) -> (dev: u64)
        requires
            self.wf(),
        ensures
            is_floor_sqrt(dev as int, variance_floor(self@.window)),
    {
        self.fps_window.std_dev()
    }

    /// Puts the engine into the state that follows a wake at `now`.
    pub fn reset_state_at(&mut self, now: u64)
        requires
            old(self).wf(),
        ensures
            final(self).wf(),
            final(self)@ == old(self)@.after_wake(now),
    {
        self.state = AlgorithmState::Stable;
        self.last_change = None;
        self.fps_window.clear();
        self.resume_cooldown_until = Some(now as u128 + self.resume_cooldown_secs as u128 * 1000);
    }

    /// Puts the engine into the state that follows a wake at the clock's present
    /// reading.
    pub fn reset_state(&mut self, clock: &Clock)
        requires
            old(self).wf(),
        ensures
            final(self).wf(),
            exists|now: u64| final(self)@ == old(self)@.after_wake(now),
    {
        let now: u64 = clock.now_ms();
        self.reset_state_at(now);
    }

    /// Whether the silence after a wake still lasts at `now`.
    pub fn is_in_resume_cooldown_at(&self, now: u64) -> (b: bool)
        ensures
            b == self@.in_cooldown(now),
    {
        match self.resume_cooldown_until {
            Some(until) => (now as u128) < until,
            None => false,
        }
    }

    /// Whether the silence after a wake still lasts at the clock's present reading.
    pub fn is_in_resume_cooldown(&self, clock: &Clock) -> (b: bool)
        ensures
            exists|now: u64| b == self@.in_cooldown(now),
    {
        let now: u64 = clock.now_ms();
        self.is_in_resume_cooldown_at(now)
    }

    /// Milliseconds of silence left at `now`.
    pub fn resume_cooldown_remaining_at(&self, now: u64) -> (ms: u128)
        ensures
            ms == self@.cooldown_remaining(now),
    {
        match self.resume_cooldown_until {
            Some(until) => {
                if (now as u128) < until {
                    until - now as u128
                } else {
                    0
                }
            },
            None => 0,
        }
    }

    /// Milliseconds of silence left at the clock's present reading.
    pub fn resume_cooldown_remaining(&self, clock: &Clock) -> (ms: u128)
        ensures
            exists|now: u64| ms == self@.cooldown_remaining(now),
    {
        let now: u64 = clock.now_ms();
        self.resume_cooldown_remaining_at(now)
    }

    /// Sets the seconds of silence that the next wake arms.
    pub fn set_resume_cooldown(&mut self, secs: u64)
        requires
            old(self).wf(),
        ensures
            final(self).wf(),
            final(self)@ == old(self)@.with_resume_cooldown(secs),
    {
        self.resume_cooldown_secs = secs;
    }

    /// The seconds of silence that the next wake arms.
    pub fn resume_cooldown_secs(&self) -> (secs: u64)
        ensures
            secs == self@.resume_cooldown_secs,
    {
        self.resume_cooldown_secs
    }

    /// Half-width of the band around the current rate in which nothing happens.
    pub fn fps_tolerance(&self) -> (t: u32)
        ensures
            t == self@.fps_tolerance,
    {
        self.fps_tolerance
    }

    /// Sets the tolerance, moved into the admitted band where it lies outside.
    pub fn set_fps_tolerance(&mut self, tolerance: u32)
        requires
            old(self).wf(),
        ensures
            final(self).wf(),
            final(self)@ == old(self)@.with_fps_tolerance(tolerance),
    {
        self.fps_tolerance = clamp_u32(tolerance, MIN_FPS_TOLERANCE, MAX_FPS_TOLERANCE);
    }

    /// Ties the frame limiter to the rate or unties it.
    pub fn set_sync_frame_limiter(&mut self, enabled: bool)
        requires
            old(self).wf(),
        ensures
            final(self).wf(),
            final(self)@ == old(self)@.with_sync_frame_limiter(enabled),
    {
        self.sync_frame_limiter = enabled;
    }

    /// Whether the frame limiter follows the rate.
    pub fn is_sync_frame_limiter_enabled(&self) -> (b: bool)
        ensures
            b == self@.sync_frame_limiter,
    {
        self.sync_frame_limiter
    }

    /// The rate the engine last commanded or was told of.
    pub fn last_set_hz(&self) -> (hz: Option<u32>)
        ensures
            hz == self@.last_set_hz,
    {
        self.last_set_hz
    }

    /// Tells the engine which rate is set.
    pub fn set_last_hz(&mut self, hz: u32)
        requires
            old(self).wf(),
        ensures
            final(self).wf(),
            final(self)@ == old(self)@.with_last_hz(hz),
    {
        self.last_set_hz = Some(hz);
    }

    /// Whether the last change lies far enough back at `now` for another one.
    fn can_change(&self, now: u64) -> (b: bool)
        ensures
            b == self@.can_change(now),
    {
        match self.last_change {
            Some(last) => {
                let gone: u64 = if now >= last {
                    now - last
                } else {
                    0
                };
                gone >= self.device_mode.min_change_interval()
            },
            None => true,
        }
    }

    /// Brings the sensitivity in force back to what the panel alone asks for.
    fn update_effective_sensitivity(&mut self)
        ensures
            final(self)@ == (EngineModel {
                effective_sensitivity: old(self)@.base_sensitivity(),
                ..old(self)@
            }),
            final(self).fps_window == old(self).fps_window,
    {
        if self.device_mode == DeviceMode::Lcd {
            self.effective_sensitivity = Sensitivity::Conservative;
        } else {
            self.effective_sensitivity = self.user_sensitivity;
        }
    }

    /// Sets the user's sensitivity and drops any pending change.
    pub fn set_sensitivity(&mut self, sensitivity: Sensitivity)
        requires
            old(self).wf(),
        ensures
            final(self).wf(),
            final(self)@ == old(self)@.with_sensitivity(sensitivity),
    {
        self.user_sensitivity = sensitivity;
        self.update_effective_sensitivity();
        self.state = AlgorithmState::Stable;
    }

    /// Sets the kind of panel and drops any pending change.
    pub fn apply_mode_constraints(&mut self, mode: DeviceMode)
        requires
            old(self).wf(),
        ensures
            final(self).wf(),
            final(self)@ == old(self)@.with_device_mode(mode),
    {
        self.device_mode = mode;
        self.update_effective_sensitivity();
        self.state = AlgorithmState::Stable;
    }

    /// The range of rates the engine may command, lower end first.
    pub fn get_effective_range(&self) -> (r: (u32, u32))
        ensures
            r == self@.effective_range(),
    {
        match self.device_mode {
            DeviceMode::Oled => (
                if self.user_min_hz >= PANEL_MIN_HZ {
                    self.user_min_hz
                } else {
                    PANEL_MIN_HZ
                },
                if self.user_max_hz <= PANEL_MAX_HZ {
                    self.user_max_hz
                } else {
                    PANEL_MAX_HZ
                },
            ),
            DeviceMode::Lcd => (
                if self.user_min_hz >= PANEL_MIN_HZ {
                    self.user_min_hz
                } else {
                    PANEL_MIN_HZ
                },
                if self.user_max_hz <= LCD_MAX_HZ {
                    self.user_max_hz
                } else {
                    LCD_MAX_HZ
                },
            ),
            DeviceMode::Custom => (self.user_min_hz, self.user_max_hz),
        }
    }

    /// Rounds `hz` to the nearest multiple of five.
    pub fn quantize_hz(hz: u32) -> (r: u32)
        ensures
            r == quantize_spec(hz as int),
            r % 5 == 0,
    {
        crate::rate::quantize_hz(hz)
    }

    /// Rounds `hz` down to a multiple of five.
    pub fn quantize_hz_down(hz: u32) -> (r: u32)
        ensures
            r == quantize_down_spec(hz as int),
            r % 5 == 0,
    {
        crate::rate::quantize_hz_down(hz)
    }

    /// `hz` held inside the range the engine may command, then rounded to the grid.
    pub fn clamp_hz(&self, hz: u32) -> (r: u32)
        ensures
            r == quantize_spec(
                clamp_spec(
                    hz as int,
                    self@.effective_range().0 as int,
                    self@.effective_range().1 as int,
                ),
            ),
    {
        let (emin, emax) = self.get_effective_range();
        crate::rate::quantize_hz(clamp_u32(hz, emin, emax))
    }

    /// The rate an increase from `current_hz` aims at.
    fn next_step_up(&self, current_hz: u32) -> (r: u32)
        ensures
            r == step_up_target(current_hz, self@.effective_range().1),
    {
        let (_, emax) = self.get_effective_range();
        let next: u32 = if current_hz as u64 + 5 <= emax as u64 {
            current_hz + 5
        } else {
            emax
        };
        crate::rate::quantize_hz(next)
    }

    /// The rate a decrease at the frame rate `fps` aims at.
    fn target_hz_for_drop(&self, fps: u32) -> (r: u32)
        ensures
            r == drop_target(fps, self@.effective_range().0, self@.effective_range().1),
    {
        let (emin, emax) = self.get_effective_range();
        let target: u32 = crate::rate::quantize_hz_down(fps / FPS_UNIT);
        clamp_u32(target, emin, emax)
    }

    /// Lets the deviation of the window decide on the sensitivity in force.
    fn apply_adaptive_sensitivity(&mut self)
        requires
            old(self).wf(),
        ensures
            final(self).wf(),
            final(self)@ == (EngineModel {
                effective_sensitivity: old(self)@.adapted_sensitivity(),
                ..old(self)@
            }),
    {
        if !self.adaptive_sensitivity_enabled || self.device_mode == DeviceMode::Lcd {
            return ;
        }
        if !self.fps_window.is_full() {
            return ;
        }
        if self.fps_window.std_dev_exceeds(STD_DEV_UNSTABLE) {
            self.effective_sensitivity = Sensitivity::Conservative;
        } else if self.fps_window.std_dev_within(STD_DEV_STABLE) {
            self.effective_sensitivity = self.user_sensitivity;
        }
    }

    /// Takes note of a frame rate.
    fn observe(&mut self, fps: u32)
        requires
            old(self).wf(),
        ensures
            final(self).wf(),
            final(self)@ == old(self)@.observe(fps),
    {
        self.fps_window.push(fps);
        self.apply_adaptive_sensitivity();
    }

    /// Records that `target` was commanded at `now`.
    fn record_change(&mut self, now: u64, target: u32)
        requires
            old(self).wf(),
        ensures
            final(self).wf(),
            final(self)@ == old(self)@.record(now, target),
    {
        self.state = AlgorithmState::Stable;
        self.last_change = Some(now);
        self.last_set_hz = Some(target);
    }

    /// Follows the table of transitions for a frame rate outside the tolerance.
    fn step(&mut self, current_fps: u32, current_hz: u32, now: u64) -> (r: Option<u32>)
        requires
            old(self).wf(),
        ensures
            final(self).wf(),
            final(self)@ == transition(old(self)@, current_fps, current_hz, now).0,
            r == transition(old(self)@, current_fps, current_hz, now).1,
    {
        let (emin, emax) = self.get_effective_range();
        let fps_wide: u64 = current_fps as u64;
        let hz_wide: u64 = current_hz as u64 * 1000;
        let below: bool = fps_wide + 1000 < hz_wide;
        let at_or_above: bool = fps_wide >= hz_wide;
        match self.state {
            AlgorithmState::Stable => {
                if below && current_hz > emin {
                    self.state = AlgorithmState::Dropping { since: now };
                } else if at_or_above && current_hz < emax {
                    self.state = AlgorithmState::Increasing { since: now };
                }
                None
            },
            AlgorithmState::Dropping { since } => {
                let waited: u64 = if now >= since {
                    now - since
                } else {
                    0
                };
                if !below {
                    self.state = AlgorithmState::Stable;
                    None
                } else if waited < self.effective_sensitivity.drop_threshold() {
                    None
                } else if !self.can_change(now) {
                    None
                } else {
                    let target: u32 = self.target_hz_for_drop(current_fps);
                    if abs_diff_u32(current_hz, target) < HZ_STEP_SIZE {
                        self.state = AlgorithmState::Stable;
                        None
                    } else {
                        self.record_change(now, target);
                        Some(target)
                    }
                }
            },
            AlgorithmState::Increasing { since } => {
                let waited: u64 = if now >= since {
                    now - since
                } else {
                    0
                };
                if below {
                    self.state = AlgorithmState::Dropping { since: now };
                    None
                } else if !at_or_above {
                    self.state = AlgorithmState::Stable;
                    None
                } else if waited < self.effective_sensitivity.increase_threshold() {
                    None
                } else if !self.can_change(now) {
                    None
                } else {
                    let target: u32 = self.next_step_up(current_hz);
                    if target <= current_hz {
                        self.state = AlgorithmState::Stable;
                        None
                    } else {
                        self.record_change(now, target);
                        Some(target)
                    }
                }
            },
        }
    }

    /// One tick: shows the engine the frame rate `current_fps`, in thousandths of a
    /// frame per second, while the panel runs at `current_hz` at time `now`, and
    /// returns the rate to change to, if the engine commands a change.
    pub fn process_with_time(&mut self, current_fps: u32, current_hz: u32, now: u64) -> (r:
        Option<u32>)
        requires
            old(self).wf(),
        ensures
            final(self).wf(),
            final(self)@ == decide(old(self)@, current_fps, current_hz, now).0,
            r == decide(old(self)@, current_fps, current_hz, now).1,
    {
        if current_fps == 0 {
            return None;
        }
        if self.external_display_detected || self.is_in_resume_cooldown_at(now) {
            self.state = AlgorithmState::Stable;
            return None;
        }
        self.observe(current_fps);
        let fps_wide: u64 = current_fps as u64;
        let hz_wide: u64 = current_hz as u64 * 1000;
        let apart: u64 = if fps_wide >= hz_wide {
            fps_wide - hz_wide
        } else {
            hz_wide - fps_wide
        };
        if apart < self.fps_tolerance as u64 {
            self.state = AlgorithmState::Stable;
            return None;
        }
        self.step(current_fps, current_hz, now)
    }

    /// One tick at the clock's present reading; see [`Self::process_with_time`].
    pub fn process(&mut self, current_fps: u32, current_hz: u32, clock: &Clock) -> (r: Option<
        u32,
    >)
        requires
            old(self).wf(),
        ensures
            final(self).wf(),
            exists|now: u64|
                final(self)@ == decide(old(self)@, current_fps, current_hz, now).0 && r == decide(
                    old(self)@,
                    current_fps,
                    current_hz,
                    now,
                ).1,
    {
        let now: u64 = clock.now_ms();
        self.process_with_time(current_fps, current_hz, now)
    }

    /// What the engine shows of itself at `now`.
    pub fn snapshot(&self, now: u64) -> (s: EngineSnapshot)
        requires
            self.wf(),
        ensures
            s.state == self@.state,
            s.effective_sensitivity == self@.effective_sensitivity,
            (s.effective_min_hz, s.effective_max_hz) == self@.effective_range(),
            s.cooldown_remaining_ms == self@.cooldown_remaining(now),
            is_floor_sqrt(s.fps_std_dev as int, variance_floor(self@.window)),
            s.last_set_hz == self@.last_set_hz,
    {
        let (emin, emax) = self.get_effective_range();
        EngineSnapshot {
            state: self.state,
            effective_sensitivity: self.effective_sensitivity,
            effective_min_hz: emin,
            effective_max_hz: emax,
            cooldown_remaining_ms: self.resume_cooldown_remaining_at(now),
            fps_std_dev: self.fps_window.std_dev(),
            last_set_hz: self.last_set_hz,
        }
    }
}

} // verus!
