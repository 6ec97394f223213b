//! The request router: what each request does to the daemon's state, and what is
//! answered. Reading requests from the socket and writing answers to it, as JSON,
//! is left to the caller, and so is writing files.

use vstd::prelude::*;
use vstd::string::StrSliceExecFns;
use vstd::string::StringExecFns;
use std::collections::VecDeque;
use crate::battery::status_of;
use crate::battery::BatteryMonitor;
use crate::battery::BatteryResponse;
use crate::config::sensitivity_named;
use crate::config::Config;
use crate::config::ConfigManager;
use crate::core_logic::AlgorithmState;
use crate::core_logic::DeviceMode;
use crate::core_logic::EngineModel;
use crate::core_logic::HysteresisController;
use crate::core_logic::Sensitivity;
use crate::error::ConfigError;
use crate::error::IpcError;
use crate::error::ProfileError;
use crate::metrics::MetricsCollector;
use crate::metrics::MetricsResponse;
use crate::profiles::GameProfile;
use crate::profiles::ProfileListResponse;
use crate::profiles::ProfileManager;
use crate::rolling::pushed;
use crate::stats::is_floor_sqrt;
use crate::stats::variance_floor;
use crate::text::join;
use crate::text::lowercase_of;
use crate::text::same_text;
use crate::text::to_lowercase;

verus! {

/// Where the control socket is bound.
pub const DEFAULT_SOCKET_PATH: &'static str = "/tmp/smart-refresh.sock";

/// The number of rate changes that the status shows.
pub const MAX_TRANSITIONS: usize = 20;

/// The kind of panel that a lower-case name stands for, if it is one of the three.
pub open spec fn device_mode_named(name: Seq<char>) -> Option<DeviceMode> {
    if name == "oled"@ {
        Some(DeviceMode::Oled)
    } else if name == "lcd"@ {
        Some(DeviceMode::Lcd)
    } else if name == "custom"@ {
        Some(DeviceMode::Custom)
    } else {
        None
    }
}

/// The name of a kind of panel.
pub open spec fn device_mode_name(mode: DeviceMode) -> Seq<char> {
    match mode {
        DeviceMode::Oled => "oled"@,
        DeviceMode::Lcd => "lcd"@,
        DeviceMode::Custom => "custom"@,
    }
}

/// The name of a state of the engine.
pub open spec fn algorithm_state_name(state: AlgorithmState) -> Seq<char> {
    match state {
        AlgorithmState::Stable => "Stable"@,
        AlgorithmState::Dropping { .. } => "Dropping"@,
        AlgorithmState::Increasing { .. } => "Increasing"@,
    }
}

/// Whether a text names a state of the engine.
pub open spec fn is_state_name(name: Seq<char>) -> bool {
    name == "Stable"@ || name == "Dropping"@ || name == "Increasing"@
}

/// Whether a text names a sensitivity.
pub open spec fn is_sensitivity_name(name: Seq<char>) -> bool {
    name == "conservative"@ || name == "balanced"@ || name == "aggressive"@
}

/// Whether a text names a kind of panel.
pub open spec fn is_device_mode_name(name: Seq<char>) -> bool {
    name == "oled"@ || name == "lcd"@ || name == "custom"@
}

/// The name of a sensitivity.
pub fn sensitivity_to_string(sensitivity: Sensitivity) -> (s: String)
    ensures
        s@ == sensitivity.name_text(),
        is_sensitivity_name(s@),
{
    String::from_str(sensitivity.name())
}

/// The sensitivity that a text names, whatever the case of its letters.
pub fn parse_sensitivity(s: &str) -> (r: Result<Sensitivity, IpcError>)
    ensures
        match r {
            Ok(sensitivity) => sensitivity_named(lowercase_of(s@)) == Some(sensitivity),
            Err(e) => {
                &&& sensitivity_named(lowercase_of(s@)) is None
                &&& e matches IpcError::InvalidCommand(detail)
                &&& detail@ == "Invalid sensitivity '"@ + s@
                    + "', expected one of: conservative, balanced, aggressive"@
            },
        },
{
    let lower: String = to_lowercase(s);
    match Sensitivity::from_name(lower.as_str()) {
        Some(sensitivity) => Ok(sensitivity),
        None => {
            let mut detail: String = join("Invalid sensitivity '", s);
            detail.append("', expected one of: conservative, balanced, aggressive");
            Err(IpcError::InvalidCommand(detail))
        },
    }
}

/// The kind of panel that a lower-case name stands for.
pub fn device_mode_from_name(name: &str) -> (r: Option<DeviceMode>)
    ensures
        r == device_mode_named(name@),
{
    if same_text(name, "oled") {
        Some(DeviceMode::Oled)
    } else if same_text(name, "lcd") {
        Some(DeviceMode::Lcd)
    } else if same_text(name, "custom") {
        Some(DeviceMode::Custom)
    } else {
        None
    }
}

/// The kind of panel that a text names, whatever the case of its letters.
pub fn parse_device_mode(s: &str) -> (r: Result<DeviceMode, IpcError>)
    ensures
        match r {
            Ok(mode) => device_mode_named(lowercase_of(s@)) == Some(mode),
            Err(e) => {
                &&& device_mode_named(lowercase_of(s@)) is None
                &&& e matches IpcError::InvalidCommand(detail)
                &&& detail@ == "Invalid device mode '"@ + s@
                    + "', expected one of: oled, lcd, custom"@
            },
        },
{
    let lower: String = to_lowercase(s);
    match device_mode_from_name(lower.as_str()) {
        Some(mode) => Ok(mode),
        None => {
            let mut detail: String = join("Invalid device mode '", s);
            detail.append("', expected one of: oled, lcd, custom");
            Err(IpcError::InvalidCommand(detail))
        },
    }
}

/// The name of a kind of panel.
pub fn device_mode_to_string(mode: DeviceMode) -> (s: String)
    ensures
        s@ == device_mode_name(mode),
        is_device_mode_name(s@),
{
    match mode {
        DeviceMode::Oled => String::from_str("oled"),
        DeviceMode::Lcd => String::from_str("lcd"),
        DeviceMode::Custom => String::from_str("custom"),
    }
}

/// The name of a state of the engine.
pub fn algorithm_state_to_string(state: AlgorithmState) -> (s: String)
    ensures
        s@ == algorithm_state_name(state),
        is_state_name(s@),
{
    match state {
        AlgorithmState::Stable => String::from_str("Stable"),
        AlgorithmState::Dropping { .. } => String::from_str("Dropping"),
        AlgorithmState::Increasing { .. } => String::from_str("Increasing"),
    }
}

/// A request to the daemon.
#[derive(Debug, Clone, PartialEq, Eq)]
pub enum IpcCommand {
    /// Let the daemon change the rate.
    Start,
    /// Keep the daemon from changing the rate.
    Stop,
    /// Set the range and the sensitivity, and what else is given. The tolerance is
    /// in thousandths of a frame per second.
    SetConfig {
        min_hz: u32,
        max_hz: u32,
        sensitivity: String,
        adaptive_sensitivity: Option<bool>,
        fps_tolerance: Option<u32>,
        sync_frame_limiter: Option<bool>,
    },
    /// Set what is given of the tolerance, the silence after a wake and the tie of
    /// the frame limiter.
    SetAdvancedConfig {
        fps_tolerance: Option<u32>,
        resume_cooldown_secs: Option<u64>,
        sync_frame_limiter: Option<bool>,
    },
    /// Set the kind of panel.
    SetDeviceMode { mode: String },
    /// Ask for the status.
    GetStatus,
    /// Ask for the figures on rate changes.
    GetMetrics,
    /// Say which game runs; an empty identifier or `0` says that none does.
    SetGameId { app_id: String, name: Option<String> },
    /// Give a game a profile.
    SaveProfile {
        app_id: String,
        name: String,
        min_hz: u32,
        max_hz: u32,
        sensitivity: String,
        adaptive_sensitivity: Option<bool>,
    },
    /// Take a game's profile away.
    DeleteProfile { app_id: String },
    /// Ask for the profiles.
    GetProfiles,
    /// Ask for the battery's figures.
    GetBatteryStatus,
}

/// The configuration as the status shows it.
#[derive(Debug, Clone, PartialEq, Eq)]
pub struct ConfigResponse {
    /// Lower end of the range.
    pub min_hz: u32,
    /// Upper end of the range.
    pub max_hz: u32,
    /// Name of the sensitivity.
    pub sensitivity: String,
    /// Whether the daemon changes the rate at all.
    pub enabled: bool,
    /// Whether the deviation of the frame rate may change the sensitivity.
    pub adaptive_sensitivity: bool,
}

impl ConfigResponse {
    /// The configuration as the status shows it.
    pub fn from_config(config: &Config, adaptive_sensitivity: bool) -> (r: Self)
        ensures
            r.min_hz == config.min_hz,
            r.max_hz == config.max_hz,
            r.sensitivity@ == config.sensitivity.name_text(),
            r.enabled == config.enabled,
            r.adaptive_sensitivity == adaptive_sensitivity,
    {
        Self {
            min_hz: config.min_hz,
            max_hz: config.max_hz,
            sensitivity: sensitivity_to_string(config.sensitivity),
            enabled: config.enabled,
            adaptive_sensitivity,
        }
    }
}

/// Which way the rate went.
#[derive(Debug, Clone, Copy, PartialEq, Eq, Structural)]
pub enum Direction {
    /// To a lower rate.
    Dropped,
    /// To a higher rate.
    Increased,
}

/// One rate change, as the status shows it.
#[derive(Debug, Clone, Copy, PartialEq, Eq, Structural)]
pub struct TransitionRecord {
    /// When the rate changed.
    pub timestamp: u64,
    /// The rate before.
    pub from_hz: u32,
    /// The rate after.
    pub to_hz: u32,
    /// The frame rate at the time, in thousandths of a frame per second.
    pub fps: u32,
    /// Which way the rate went.
    pub direction: Direction,
}

/// The daemon's status.
#[derive(Debug, Clone)]
pub struct StatusResponse {
    /// Whether the daemon changes the rate.
    pub running: bool,
    /// The smoothed frame rate, in thousandths of a frame per second.
    pub current_fps: u32,
    /// The rate the panel runs at.
    pub current_hz: u32,
    /// Name of the engine's state.
    pub state: String,
    /// Name of the kind of panel.
    pub device_mode: String,
    /// The configuration.
    pub config: ConfigResponse,
    /// Whether the overlay publishes frame rates.
    pub mangohud_available: bool,
    /// Whether an external display is connected.
    pub external_display_detected: bool,
    /// Standard deviation of the recent frame rates, rounded down.
    pub fps_std_dev: u64,
    /// The game that runs, if any.
    pub current_app_id: Option<String>,
    /// The most recent rate changes, oldest first.
    pub transitions: Vec<TransitionRecord>,
    /// Half-width of the band in which nothing happens.
    pub fps_tolerance: u32,
    /// Milliseconds of silence left after a wake.
    pub resume_cooldown_remaining: u128,
    /// Whether the frame limiter follows the rate.
    pub sync_frame_limiter: bool,
}

impl StatusResponse {
    /// The names in the status are names of a state, of a sensitivity and of a kind
    /// of panel, and no more rate changes are shown than are kept.
    pub open spec fn complete(self) -> bool {
        &&& is_state_name(self.state@)
        &&& is_sensitivity_name(self.config.sensitivity@)
        &&& is_device_mode_name(self.device_mode@)
    }

    /// Whether the names in the status are names of a state, of a sensitivity and
    /// of a kind of panel.
    pub fn is_complete(&self) -> (complete: bool)
        ensures
            complete == self.complete(),
    {
        let state: &str = self.state.as_str();
        let sensitivity: &str = self.config.sensitivity.as_str();
        let mode: &str = self.device_mode.as_str();
        let state_valid: bool = same_text(state, "Stable") || same_text(state, "Dropping")
            || same_text(state, "Increasing");
        let sensitivity_valid: bool = same_text(sensitivity, "conservative") || same_text(
            sensitivity,
            "balanced",
        ) || same_text(sensitivity, "aggressive");
        let mode_valid: bool = same_text(mode, "oled") || same_text(mode, "lcd") || same_text(
            mode,
            "custom",
        );
        state_valid && sensitivity_valid && mode_valid
    }
}

/// What is answered to a request.
#[derive(Debug)]
pub enum IpcResponse {
    /// The request was carried out.
    Success { message: String },
    /// The request was refused or failed.
    Failure { error: String },
    /// The kind of panel was set.
    DeviceModeSet { mode: String, effective_sensitivity: String, min_change_interval_ms: u64 },
    /// The advanced settings, as they stand after the request.
    AdvancedConfigSet { fps_tolerance: u32, resume_cooldown_secs: u64, sync_frame_limiter: bool },
    /// The status.
    Status(StatusResponse),
    /// The figures on rate changes.
    Metrics(MetricsResponse),
    /// The running game was set.
    GameIdSet { profile_applied: bool, profile_name: Option<String> },
    /// The profiles.
    Profiles(ProfileListResponse),
    /// The battery's figures.
    Battery(BatteryResponse),
}

/// What a request to set the configuration asks for, once it was found valid.
#[derive(Debug, Clone, Copy, PartialEq, Eq, Structural)]
pub struct ConfigChange {
    /// The configuration to store.
    pub config: Config,
    /// Whether adaptation is to be on, where the request says.
    pub adaptive_sensitivity: Option<bool>,
    /// The tolerance, where the request gives one.
    pub fps_tolerance: Option<u32>,
    /// Whether the frame limiter is to follow the rate, where the request says.
    pub sync_frame_limiter: Option<bool>,
}

/// How far a request got: answered, or waiting for a file to be written.
#[derive(Debug)]
pub enum CommandOutcome {
    /// The answer.
    Reply(IpcResponse),
    /// The configuration is to be written; `complete_set_config` gives the answer.
    SaveConfig(ConfigChange),
    /// The profiles are to be written; the answer is this one if that works, and
    /// that of `profile_save_failed` if it does not.
    SaveProfiles(IpcResponse),
}

/// The state that the router and the control loop share.
#[derive(Debug)]
pub struct DaemonState {
    /// Whether the daemon changes the rate.
    pub running: bool,
    /// The smoothed frame rate, in thousandths of a frame per second.
    pub current_fps: u32,
    /// The rate the panel runs at.
    pub current_hz: u32,
    /// The engine.
    pub controller: HysteresisController,
    /// The configuration.
    pub config_manager: ConfigManager,
    /// The profiles.
    pub profile_manager: ProfileManager,
    /// The figures on rate changes.
    pub metrics: MetricsCollector,
    /// The battery's readings.
    pub battery: BatteryMonitor,
    /// Whether the overlay publishes frame rates.
    pub mangohud_available: bool,
    /// The most recent rate changes, oldest first.
    pub transitions: VecDeque<TransitionRecord>,
}

/// Whether an identifier says that no game runs.
pub open spec fn is_no_game(app_id: Seq<char>) -> bool {
    app_id.len() == 0 || app_id == "0"@
}

impl DaemonState {
    /// The parts of the state are well-formed.
    pub open spec fn wf(&self) -> bool {
        &&& self.controller.wf()
        &&& self.profile_manager.wf()
        &&& self.battery.wf()
    }

    /// The daemon's state at its start: running if the configuration says so, at the
    /// upper end of the range, with an engine of the configured sensitivity.
    pub fn new(
        config_manager: ConfigManager,
        profile_manager: ProfileManager,
        metrics: MetricsCollector,
        battery: BatteryMonitor,
    ) -> (state: Self)
        requires
            profile_manager.wf(),
            battery.wf(),
        ensures
            state.wf(),
            state.running == config_manager.config().enabled,
            state.current_fps == 0,
            state.current_hz == config_manager.config().max_hz,
            state.controller@ == EngineModel::initial(
                config_manager.config().sensitivity,
            ),
            state.config_manager == config_manager,
            state.profile_manager == profile_manager,
            state.metrics == metrics,
            state.battery == battery,
            !state.mangohud_available,
            state.transitions@ == Seq::<TransitionRecord>::empty(),
    {
        let config: Config = config_manager.get();
        Self {
            running: config.enabled,
            current_fps: 0,
            current_hz: config.max_hz,
            controller: HysteresisController::new(config.sensitivity),
            config_manager,
            profile_manager,
            metrics,
            battery,
            mangohud_available: false,
            transitions: VecDeque::new(),
        }
    }

    /// Lets the daemon change the rate.
    pub fn start(&mut self)
        ensures
            final(self).running,
            *final(self) == (DaemonState { running: true, ..*old(self) }),
    {
        self.running = true;
    }

    /// Keeps the daemon from changing the rate.
    pub fn stop(&mut self)
        ensures
            !final(self).running,
            *final(self) == (DaemonState { running: false, ..*old(self) }),
    {
        self.running = false;
    }

    /// Whether the daemon changes the rate.
    pub fn is_running(&self) -> (running: bool)
        ensures
            running == self.running,
    {
        self.running
    }

    /// Takes note of whether the overlay publishes frame rates.
    pub fn set_mangohud_available(&mut self, available: bool)
        ensures
            *final(self) == (DaemonState { mangohud_available: available, ..*old(self) }),
    {
        self.mangohud_available = available;
    }

    /// Takes note of a rate change at `now`; of more than twenty the oldest is
    /// forgotten. A change to the same rate counts as an increase.
    pub fn record_transition(&mut self, from_hz: u32, to_hz: u32, fps: u32, now: u64)
        ensures
            final(self).transitions@ == pushed(
                old(self).transitions@,
                MAX_TRANSITIONS as int,
                TransitionRecord {
                    timestamp: now,
                    from_hz,
                    to_hz,
                    fps,
                    direction: if to_hz < from_hz {
                        Direction::Dropped
                    } else {
                        Direction::Increased
                    },
                },
            ),
            *final(self) == (DaemonState { transitions: final(self).transitions, ..*old(self) }),
    {
        let direction: Direction = if to_hz < from_hz {
            Direction::Dropped
        } else {
            Direction::Increased
        };
        if self.transitions.len() >= MAX_TRANSITIONS {
            let _ = self.transitions.pop_front();
        }
        self.transitions.push_back(
            TransitionRecord { timestamp: now, from_hz, to_hz, fps, direction },
        );
        proof {
            assert(old(self).transitions@.len() > 0 ==> old(self).transitions@.drop_first()
                =~= old(self).transitions@.subrange(1, old(self).transitions@.len() as int));
        }
    }

    /// What the status shows of the state at `now`.
    pub open spec fn shown_by(self, now: u64, status: StatusResponse) -> bool {
        &&& status.complete()
        &&& status.running == self.running
        &&& status.current_fps == self.current_fps
        &&& status.current_hz == self.current_hz
        &&& status.state@ == algorithm_state_name(self.controller@.state)
        &&& status.device_mode@ == device_mode_name(self.controller@.device_mode)
        &&& status.config.min_hz == self.config_manager.config().min_hz
        &&& status.config.max_hz == self.config_manager.config().max_hz
        &&& status.config.sensitivity@ == self.config_manager.config().sensitivity.name_text()
        &&& status.config.enabled == self.config_manager.config().enabled
        &&& status.config.adaptive_sensitivity == self.controller@.adaptive_enabled
        &&& status.mangohud_available == self.mangohud_available
        &&& status.external_display_detected == self.controller@.external_display_detected
        &&& is_floor_sqrt(status.fps_std_dev as int, variance_floor(self.controller@.window))
        &&& match status.current_app_id {
            Some(id) => self.profile_manager@.current_app_id == Some(id@),
            None => self.profile_manager@.current_app_id is None,
        }
        &&& status.transitions@ == self.transitions@
        &&& status.fps_tolerance == self.controller@.fps_tolerance
        &&& status.resume_cooldown_remaining == self.controller@.cooldown_remaining(now)
        &&& status.sync_frame_limiter == self.controller@.sync_frame_limiter
    }

    /// The status at `now`.
    pub fn get_status(&self, now: u64) -> (status: StatusResponse)
        requires
            self.wf(),
        ensures
            self.shown_by(now, status),
    {
        let config: Config = self.config_manager.get();
        let n: usize = self.transitions.len();
        let mut transitions: Vec<TransitionRecord> = Vec::new();
        let mut i: usize = 0;
        while i < n
            invariant
                n == self.transitions@.len(),
                i <= n,
                transitions@ == self.transitions@.take(i as int),
            decreases n - i,
        {
            transitions.push(self.transitions[i]);
            assert(transitions@ =~= self.transitions@.take(i as int + 1));
            i = i + 1;
        }
        assert(self.transitions@.take(n as int) =~= self.transitions@);
        let current_app_id: Option<String> = match self.profile_manager.get_current_game() {
            Some(id) => Some(id.clone()),
            None => None,
        };
        StatusResponse {
            running: self.running,
            current_fps: self.current_fps,
            current_hz: self.current_hz,
            state: algorithm_state_to_string(self.controller.state()),
            device_mode: device_mode_to_string(self.controller.device_mode()),
            config: ConfigResponse::from_config(
                &config,
                self.controller.is_adaptive_sensitivity_enabled(),
            ),
            mangohud_available: self.mangohud_available,
            external_display_detected: self.controller.is_external_display_detected(),
            fps_std_dev: self.controller.get_fps_std_dev(),
            current_app_id,
            transitions,
            fps_tolerance: self.controller.fps_tolerance(),
            resume_cooldown_remaining: self.controller.resume_cooldown_remaining_at(now),
            sync_frame_limiter: self.controller.is_sync_frame_limiter_enabled(),
        }
    }

    /// The engine after the settings in force were put into it.
    pub open spec fn engine_with_settings(
        engine: EngineModel,
        settings: (u32, u32, Sensitivity, bool),
    ) -> EngineModel {
        engine.with_user_range(settings.0, settings.1).with_sensitivity(settings.2).with_adaptive(
            settings.3,
        )
    }

    /// Puts the settings in force into the engine: those of the running game's
    /// profile, where it has one, and the global ones otherwise.
    pub fn apply_current_settings(&mut self)
        requires
            old(self).wf(),
        ensures
            final(self).wf(),
            final(self).controller@ == Self::engine_with_settings(
                old(self).controller@,
                old(self).profile_manager@.current_settings(),
            ),
            *final(self) == (DaemonState { controller: final(self).controller, ..*old(self) }),
    {
        let (min_hz, max_hz, sensitivity, adaptive) = self.profile_manager.get_current_settings();
        self.controller.set_user_range(min_hz, max_hz);
        self.controller.set_sensitivity(sensitivity);
        self.controller.set_adaptive_sensitivity(adaptive);
    }

    /// What a request to set the configuration does. An unknown sensitivity or a
    /// range that is not valid is answered with a failure and changes nothing.
    /// Otherwise the configuration is taken and is to be written.
    pub open spec fn config_set(
        pre: DaemonState,
        post: DaemonState,
        min_hz: u32,
        max_hz: u32,
        sensitivity: Seq<char>,
        adaptive_sensitivity: Option<bool>,
        fps_tolerance: Option<u32>,
        sync_frame_limiter: Option<bool>,
        outcome: CommandOutcome,
    ) -> bool {
        &&& post == (DaemonState { config_manager: post.config_manager, ..pre })
        &&& post.config_manager.location() == pre.config_manager.location()
        &&& match sensitivity_named(lowercase_of(sensitivity)) {
            Some(chosen) => {
                let config = Config {
                    min_hz,
                    max_hz,
                    sensitivity: chosen,
                    enabled: pre.config_manager.config().enabled,
                };
                if config.valid() {
                    &&& outcome == CommandOutcome::SaveConfig(
                        ConfigChange {
                            config,
                            adaptive_sensitivity,
                            fps_tolerance,
                            sync_frame_limiter,
                        },
                    )
                    &&& post.config_manager.config() == config
                } else {
                    &&& outcome matches CommandOutcome::Reply(IpcResponse::Failure { error })
                    &&& error@ == "Configuration validation failed: "@ + config.complaint()
                    &&& post.config_manager.config() == pre.config_manager.config()
                }
            },
            None => {
                &&& outcome matches CommandOutcome::Reply(IpcResponse::Failure { error })
                &&& error@ == "Invalid command received: "@ + ("Invalid sensitivity '"@
                    + sensitivity + "', expected one of: conservative, balanced, aggressive"@)
                &&& post.config_manager.config() == pre.config_manager.config()
            },
        }
    }

    /// A request to set the configuration; see [`Self::config_set`].
    pub fn handle_set_config(
        &mut self,
        min_hz: u32,
        max_hz: u32,
        sensitivity: &str,
        adaptive_sensitivity: Option<bool>,
        fps_tolerance: Option<u32>,
        sync_frame_limiter: Option<bool>,
    ) -> (outcome: CommandOutcome)
        requires
            old(self).wf(),
        ensures
            final(self).wf(),
            Self::config_set(
                *old(self),
                *final(self),
                min_hz,
                max_hz,
                sensitivity@,
                adaptive_sensitivity,
                fps_tolerance,
                sync_frame_limiter,
                outcome,
            ),
    {
        let chosen: Sensitivity = match parse_sensitivity(sensitivity) {
            Ok(chosen) => chosen,
            Err(e) => {
                return CommandOutcome::Reply(IpcResponse::Failure { error: e.message() });
            },
        };
        let mut config: Config = self.config_manager.get();
        config.min_hz = min_hz;
        config.max_hz = max_hz;
        config.sensitivity = chosen;
        match self.config_manager.update(config) {
            Ok(()) => CommandOutcome::SaveConfig(
                ConfigChange { config, adaptive_sensitivity, fps_tolerance, sync_frame_limiter },
            ),
            Err(e) => CommandOutcome::Reply(IpcResponse::Failure { error: e.message() }),
        }
    }

    /// The engine after it has taken a change of the configuration.
    pub open spec fn engine_with_change(engine: EngineModel, change: ConfigChange) -> EngineModel {
        let ranged = engine.with_user_range(change.config.min_hz, change.config.max_hz);
        let tuned = ranged.with_sensitivity(change.config.sensitivity);
        let adapted = match change.adaptive_sensitivity {
            Some(enabled) => tuned.with_adaptive(enabled),
            None => tuned,
        };
        let tolerant = match change.fps_tolerance {
            Some(tolerance) => adapted.with_fps_tolerance(tolerance),
            None => adapted,
        };
        match change.sync_frame_limiter {
            Some(enabled) => tolerant.with_sync_frame_limiter(enabled),
            None => tolerant,
        }
    }

    /// The answer to a request to set the configuration, once the configuration was
    /// written or could not be. After it was written the engine takes the range and
    /// the sensitivity, and what else the request gave; after it was not, the engine
    /// stays as it is and the answer is a failure with the error's message.
    pub fn complete_set_config(&mut self, change: ConfigChange, saved: Result<(), ConfigError>) -> (
        response: IpcResponse
    )
        requires
            old(self).wf(),
        ensures
            final(self).wf(),
            *final(self) == (DaemonState { controller: final(self).controller, ..*old(self) }),
            match saved {
                Ok(()) => {
                    &&& response matches IpcResponse::Success { message }
                    &&& message@ == "Configuration updated"@
                    &&& final(self).controller@ == Self::engine_with_change(
                        old(self).controller@,
                        change,
                    )
                },
                Err(e) => {
                    &&& response matches IpcResponse::Failure { error }
                    &&& e is WriteError ==> e.text().is_prefix_of(error@)
                    &&& !(e is WriteError) ==> error@ == e.text()
                    &&& final(self).controller@ == old(self).controller@
                },
            },
    {
        match saved {
            Ok(()) => {
                self.controller.set_user_range(change.config.min_hz, change.config.max_hz);
                self.controller.set_sensitivity(change.config.sensitivity);
                match change.adaptive_sensitivity {
                    Some(enabled) => {
                        self.controller.set_adaptive_sensitivity(enabled);
                    },
                    None => {},
                }
                match change.fps_tolerance {
                    Some(tolerance) => {
                        self.controller.set_fps_tolerance(tolerance);
                    },
                    None => {},
                }
                match change.sync_frame_limiter {
                    Some(enabled) => {
                        self.controller.set_sync_frame_limiter(enabled);
                    },
                    None => {},
                }
                IpcResponse::Success { message: String::from_str("Configuration updated") }
            },
            Err(e) => IpcResponse::Failure { error: e.message() },
        }
    }

    /// The engine after it has taken what a request for the advanced settings gave.
    pub open spec fn engine_with_advanced(
        engine: EngineModel,
        fps_tolerance: Option<u32>,
        resume_cooldown_secs: Option<u64>,
        sync_frame_limiter: Option<bool>,
    ) -> EngineModel {
        let tolerant = match fps_tolerance {
            Some(tolerance) => engine.with_fps_tolerance(tolerance),
            None => engine,
        };
        let cooled = match resume_cooldown_secs {
            Some(secs) => tolerant.with_resume_cooldown(secs),
            None => tolerant,
        };
        match sync_frame_limiter {
            Some(enabled) => cooled.with_sync_frame_limiter(enabled),
            None => cooled,
        }
    }

    /// What a request for the advanced settings does: the engine takes what is
    /// given, and the answer shows the settings as they stand then.
    pub open spec fn advanced_config_set(
        pre: DaemonState,
        post: DaemonState,
        fps_tolerance: Option<u32>,
        resume_cooldown_secs: Option<u64>,
        sync_frame_limiter: Option<bool>,
        response: IpcResponse,
    ) -> bool {
        &&& post == (DaemonState { controller: post.controller, ..pre })
        &&& post.controller@ == Self::engine_with_advanced(
            pre.controller@,
            fps_tolerance,
            resume_cooldown_secs,
            sync_frame_limiter,
        )
        &&& response == (IpcResponse::AdvancedConfigSet {
            fps_tolerance: post.controller@.fps_tolerance,
            resume_cooldown_secs: post.controller@.resume_cooldown_secs,
            sync_frame_limiter: post.controller@.sync_frame_limiter,
        })
    }

    /// A request for the advanced settings; see [`Self::advanced_config_set`].
    pub fn handle_set_advanced_config(
        &mut self,
        fps_tolerance: Option<u32>,
        resume_cooldown_secs: Option<u64>,
        sync_frame_limiter: Option<bool>,
    ) -> (response: IpcResponse)
        requires
            old(self).wf(),
        ensures
            final(self).wf(),
            Self::advanced_config_set(
                *old(self),
                *final(self),
                fps_tolerance,
                resume_cooldown_secs,
                sync_frame_limiter,
                response,
            ),
    {
        match fps_tolerance {
            Some(tolerance) => {
                self.controller.set_fps_tolerance(tolerance);
            },
            None => {},
        }
        match resume_cooldown_secs {
            Some(secs) => {
                self.controller.set_resume_cooldown(secs);
            },
            None => {},
        }
        match sync_frame_limiter {
            Some(enabled) => {
                self.controller.set_sync_frame_limiter(enabled);
            },
            None => {},
        }
        IpcResponse::AdvancedConfigSet {
            fps_tolerance: self.controller.fps_tolerance(),
            resume_cooldown_secs: self.controller.resume_cooldown_secs(),
            sync_frame_limiter: self.controller.is_sync_frame_limiter_enabled(),
        }
    }

    /// What a request to set the kind of panel does. An unknown kind is answered
    /// with a failure and changes nothing; otherwise the engine takes the kind, and
    /// the answer names it, the sensitivity in force and the panel's interval.
    pub open spec fn device_mode_set(
        pre: DaemonState,
        post: DaemonState,
        mode: Seq<char>,
        response: IpcResponse,
    ) -> bool {
        &&& post == (DaemonState { controller: post.controller, ..pre })
        &&& match device_mode_named(lowercase_of(mode)) {
            Some(chosen) => {
                &&& post.controller@ == pre.controller@.with_device_mode(chosen)
                &&& response matches IpcResponse::DeviceModeSet {
                    mode: name,
                    effective_sensitivity,
                    min_change_interval_ms,
                }
                &&& name@ == device_mode_name(chosen)
                &&& effective_sensitivity@ == post.controller@.effective_sensitivity.name_text()
                &&& min_change_interval_ms == chosen.change_interval()
            },
            None => {
                &&& post.controller@ == pre.controller@
                &&& response matches IpcResponse::Failure { error }
                &&& error@ == "Invalid command received: "@ + ("Invalid device mode '"@ + mode
                    + "', expected one of: oled, lcd, custom"@)
            },
        }
    }

    /// A request to set the kind of panel; see [`Self::device_mode_set`].
    pub fn handle_set_device_mode(&mut self, mode: &str) -> (response: IpcResponse)
        requires
            old(self).wf(),
        ensures
            final(self).wf(),
            Self::device_mode_set(*old(self), *final(self), mode@, response),
    {
        match parse_device_mode(mode) {
            Ok(chosen) => {
                self.controller.apply_mode_constraints(chosen);
                IpcResponse::DeviceModeSet {
                    mode: device_mode_to_string(chosen),
                    effective_sensitivity: sensitivity_to_string(
                        self.controller.effective_sensitivity(),
                    ),
                    min_change_interval_ms: self.controller.min_change_interval(),
                }
            },
            Err(e) => IpcResponse::Failure { error: e.message() },
        }
    }

    /// What a request that says which game runs does. The game is noted, or that
    /// none runs; the settings of its profile, or the global ones where it has none
    /// or no game runs, go into the engine; the answer says whether a profile was
    /// applied, and its name.
    pub open spec fn game_id_set(
        pre: DaemonState,
        post: DaemonState,
        app_id: Seq<char>,
        response: IpcResponse,
    ) -> bool {
        &&& post == (DaemonState {
            controller: post.controller,
            profile_manager: post.profile_manager,
            ..pre
        })
        &&& post.profile_manager@ == (crate::profiles::ProfileStore {
            current_app_id: if is_no_game(app_id) {
                None
            } else {
                Some(app_id)
            },
            ..pre.profile_manager@
        })
        &&& post.controller@ == Self::engine_with_settings(
            pre.controller@,
            post.profile_manager@.current_settings(),
        )
        &&& response matches IpcResponse::GameIdSet { profile_applied, profile_name }
        &&& profile_applied <==> !is_no_game(app_id) && pre.profile_manager@.profiles.contains_key(
            app_id,
        )
        &&& profile_applied ==> (profile_name matches Some(name) && name@
            == pre.profile_manager@.profiles[app_id].name@)
        &&& !profile_applied ==> profile_name is None
    }

    /// A request that says which game runs; see [`Self::game_id_set`].
    pub fn handle_set_game_id(&mut self, app_id: String) -> (response: IpcResponse)
        requires
            old(self).wf(),
        ensures
            final(self).wf(),
            Self::game_id_set(*old(self), *final(self), app_id@, response),
    {
        let none: bool = app_id.as_str().unicode_len() == 0 || same_text(app_id.as_str(), "0");
        let profile_name: Option<String> = if none {
            None
        } else {
            match self.profile_manager.get_profile(app_id.as_str()) {
                Some(profile) => Some(profile.name.clone()),
                None => None,
            }
        };
        let current: Option<String> = if none {
            None
        } else {
            Some(app_id)
        };
        self.profile_manager.set_current_game(current);
        self.apply_current_settings();
        IpcResponse::GameIdSet { profile_applied: profile_name.is_some(), profile_name }
    }

    /// What a request that gives a game a profile does. The profile is taken and is
    /// to be written; the settings in force go into the engine anew.
    pub open spec fn profile_saved(
        pre: DaemonState,
        post: DaemonState,
        profile: GameProfile,
        outcome: CommandOutcome,
    ) -> bool {
        &&& post == (DaemonState {
            controller: post.controller,
            profile_manager: post.profile_manager,
            ..pre
        })
        &&& post.profile_manager@ == (crate::profiles::ProfileStore {
            profiles: pre.profile_manager@.profiles.insert(profile.app_id@, profile),
            ..pre.profile_manager@
        })
        &&& post.controller@ == Self::engine_with_settings(
            pre.controller@,
            post.profile_manager@.current_settings(),
        )
        &&& outcome matches CommandOutcome::SaveProfiles(IpcResponse::Success { message })
        &&& message@ == "Profile saved"@
    }

    /// A request that gives a game a profile; see [`Self::profile_saved`].
    pub fn handle_save_profile(&mut self, profile: GameProfile) -> (outcome: CommandOutcome)
        requires
            old(self).wf(),
        ensures
            final(self).wf(),
            Self::profile_saved(*old(self), *final(self), profile, outcome),
    {
        self.profile_manager.set_profile(profile);
        self.apply_current_settings();
        CommandOutcome::SaveProfiles(
            IpcResponse::Success { message: String::from_str("Profile saved") },
        )
    }

    /// What a request that takes a game's profile away does. Where the game has
    /// none the answer is a failure and nothing changes; otherwise the profile goes,
    /// the profiles are to be written, and the settings in force go into the engine
    /// anew.
    pub open spec fn profile_deleted(
        pre: DaemonState,
        post: DaemonState,
        app_id: Seq<char>,
        outcome: CommandOutcome,
    ) -> bool {
        &&& post == (DaemonState {
            controller: post.controller,
            profile_manager: post.profile_manager,
            ..pre
        })
        &&& post.profile_manager@ == (crate::profiles::ProfileStore {
            profiles: pre.profile_manager@.profiles.remove(app_id),
            ..pre.profile_manager@
        })
        &&& if pre.profile_manager@.profiles.contains_key(app_id) {
            &&& outcome matches CommandOutcome::SaveProfiles(IpcResponse::Success { message })
            &&& message@ == "Profile deleted"@
            &&& post.controller@ == Self::engine_with_settings(
                pre.controller@,
                post.profile_manager@.current_settings(),
            )
        } else {
            &&& outcome matches CommandOutcome::Reply(IpcResponse::Failure { error })
            &&& error@ == "Profile not found for app_id: "@ + app_id
            &&& post.controller@ == pre.controller@
        }
    }

    /// A request that takes a game's profile away; see [`Self::profile_deleted`].
    pub fn handle_delete_profile(&mut self, app_id: &str) -> (outcome: CommandOutcome)
        requires
            old(self).wf(),
        ensures
            final(self).wf(),
            Self::profile_deleted(*old(self), *final(self), app_id@, outcome),
    {
        match self.profile_manager.remove_profile(app_id) {
            Some(_) => {
                self.apply_current_settings();
                CommandOutcome::SaveProfiles(
                    IpcResponse::Success { message: String::from_str("Profile deleted") },
                )
            },
            None => {
                let e: ProfileError = ProfileError::NotFound(String::from_str(app_id));
                CommandOutcome::Reply(IpcResponse::Failure { error: e.message() })
            },
        }
    }

    /// The answer after the profiles could not be written.
    pub fn profile_save_failed(detail: String) -> (response: IpcResponse)
        ensures
            ({
                &&& response matches IpcResponse::Failure { error }
                &&& error@ == "Failed to save profiles: "@ + detail@
            }),
    {
        let e: ProfileError = ProfileError::SaveFailed(detail);
        IpcResponse::Failure { error: e.message() }
    }

    /// The profile that a request to save one describes; adaptation is off where
    /// the request does not say.
    pub open spec fn requested_profile(
        app_id: String,
        name: String,
        min_hz: u32,
        max_hz: u32,
        sensitivity: String,
        adaptive_sensitivity: Option<bool>,
    ) -> GameProfile {
        GameProfile {
            app_id,
            name,
            min_hz,
            max_hz,
            sensitivity,
            adaptive_sensitivity: match adaptive_sensitivity {
                Some(enabled) => enabled,
                None => false,
            },
        }
    }

    /// What a request does to the state, and how far it gets, at `now` and with the
    /// present power draw `battery_power`.
    pub open spec fn handled(
        pre: DaemonState,
        post: DaemonState,
        command: IpcCommand,
        now: u64,
        battery_power: Option<u64>,
        outcome: CommandOutcome,
    ) -> bool {
        match command {
            IpcCommand::Start => {
                &&& post == (DaemonState { running: true, ..pre })
                &&& outcome matches CommandOutcome::Reply(IpcResponse::Success { message })
                &&& message@ == "Daemon started"@
            },
            IpcCommand::Stop => {
                &&& post == (DaemonState { running: false, ..pre })
                &&& outcome matches CommandOutcome::Reply(IpcResponse::Success { message })
                &&& message@ == "Daemon stopped"@
            },
            IpcCommand::SetConfig {
                min_hz,
                max_hz,
                sensitivity,
                adaptive_sensitivity,
                fps_tolerance,
                sync_frame_limiter,
            } => Self::config_set(
                pre,
                post,
                min_hz,
                max_hz,
                sensitivity@,
                adaptive_sensitivity,
                fps_tolerance,
                sync_frame_limiter,
                outcome,
            ),
            IpcCommand::SetAdvancedConfig {
                fps_tolerance,
                resume_cooldown_secs,
                sync_frame_limiter,
            } => {
                &&& outcome matches CommandOutcome::Reply(response)
                &&& Self::advanced_config_set(
                    pre,
                    post,
                    fps_tolerance,
                    resume_cooldown_secs,
                    sync_frame_limiter,
                    response,
                )
            },
            IpcCommand::SetDeviceMode { mode } => {
                &&& outcome matches CommandOutcome::Reply(response)
                &&& Self::device_mode_set(pre, post, mode@, response)
            },
            IpcCommand::GetStatus => {
                &&& post == pre
                &&& outcome matches CommandOutcome::Reply(IpcResponse::Status(status))
                &&& pre.shown_by(now, status)
            },
            IpcCommand::GetMetrics => {
                &&& post == pre
                &&& outcome == CommandOutcome::Reply(IpcResponse::Metrics(pre.metrics@.figures(now)))
            },
            IpcCommand::SetGameId { app_id, name } => {
                &&& outcome matches CommandOutcome::Reply(response)
                &&& Self::game_id_set(pre, post, app_id@, response)
            },
            IpcCommand::SaveProfile {
                app_id,
                name,
                min_hz,
                max_hz,
                sensitivity,
                adaptive_sensitivity,
            } => Self::profile_saved(
                pre,
                post,
                Self::requested_profile(
                    app_id,
                    name,
                    min_hz,
                    max_hz,
                    sensitivity,
                    adaptive_sensitivity,
                ),
                outcome,
            ),
            IpcCommand::DeleteProfile { app_id } => Self::profile_deleted(
                pre,
                post,
                app_id@,
                outcome,
            ),
            IpcCommand::GetProfiles => {
                &&& post == pre
                &&& outcome matches CommandOutcome::Reply(IpcResponse::Profiles(list))
                &&& list.profiles@ == pre.profile_manager.entries()
                &&& match list.current_app_id {
                    Some(id) => pre.profile_manager@.current_app_id == Some(id@),
                    None => pre.profile_manager@.current_app_id is None,
                }
                &&& list.global_default == pre.profile_manager@.global_default
            },
            IpcCommand::GetBatteryStatus => {
                &&& post == pre
                &&& outcome == CommandOutcome::Reply(
                    IpcResponse::Battery(
                        status_of(
                            pre.battery@.samples,
                            pre.battery@.max_hz,
                            pre.battery@.available,
                            battery_power,
                        ),
                    ),
                )
            },
        }
    }

    /// Carries out a request at `now`. `battery_power` is the present power draw in
    /// microwatts, where it could be read.
    pub fn handle_command(&mut self, command: IpcCommand, now: u64, battery_power: Option<u64>) -> (
        outcome: CommandOutcome
    )
        requires
            old(self).wf(),
        ensures
            final(self).wf(),
            Self::handled(*old(self), *final(self), command, now, battery_power, outcome),
    {
        match command {
            IpcCommand::Start => {
                self.start();
                CommandOutcome::Reply(
                    IpcResponse::Success { message: String::from_str("Daemon started") },
                )
            },
            IpcCommand::Stop => {
                self.stop();
                CommandOutcome::Reply(
                    IpcResponse::Success { message: String::from_str("Daemon stopped") },
                )
            },
            IpcCommand::SetConfig {
                min_hz,
                max_hz,
                sensitivity,
                adaptive_sensitivity,
                fps_tolerance,
                sync_frame_limiter,
            } => self.handle_set_config(
                min_hz,
                max_hz,
                sensitivity.as_str(),
                adaptive_sensitivity,
                fps_tolerance,
                sync_frame_limiter,
            ),
            IpcCommand::SetAdvancedConfig {
                fps_tolerance,
                resume_cooldown_secs,
                sync_frame_limiter,
            } => CommandOutcome::Reply(
                self.handle_set_advanced_config(
                    fps_tolerance,
                    resume_cooldown_secs,
                    sync_frame_limiter,
                ),
            ),
            IpcCommand::SetDeviceMode { mode } => CommandOutcome::Reply(
                self.handle_set_device_mode(mode.as_str()),
            ),
            IpcCommand::GetStatus => CommandOutcome::Reply(
                IpcResponse::Status(self.get_status(now)),
            ),
            IpcCommand::GetMetrics => CommandOutcome::Reply(
                IpcResponse::Metrics(self.metrics.get_metrics_at(now)),
            ),
            IpcCommand::SetGameId { app_id, name } => CommandOutcome::Reply(
                self.handle_set_game_id(app_id),
            ),
            IpcCommand::SaveProfile {
                app_id,
                name,
                min_hz,
                max_hz,
                sensitivity,
                adaptive_sensitivity,
            } => {
                let adaptive: bool = match adaptive_sensitivity {
                    Some(enabled) => enabled,
                    None => false,
                };
                self.handle_save_profile(
                    GameProfile {
                        app_id,
                        name,
                        min_hz,
                        max_hz,
                        sensitivity,
                        adaptive_sensitivity: adaptive,
                    },
                )
            },
            IpcCommand::DeleteProfile { app_id } => self.handle_delete_profile(app_id.as_str()),
            IpcCommand::GetProfiles => CommandOutcome::Reply(
                IpcResponse::Profiles(ProfileListResponse::from_manager(&self.profile_manager)),
            ),
            IpcCommand::GetBatteryStatus => CommandOutcome::Reply(
                IpcResponse::Battery(self.battery.get_status(battery_power)),
            ),
        }
    }
}

} // verus!
