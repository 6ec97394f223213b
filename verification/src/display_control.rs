//! The actuator's bookkeeping: the range, the rate last applied, and what to make of
//! the helper's answer. Running the helper is left to the caller.

use vstd::prelude::*;
use vstd::string::StringExecFns;
use crate::clock::Clock;
use crate::error::DisplayError;
use crate::rate::clamp_spec;
use crate::rate::clamp_u32;
use crate::text::decimal;
use crate::text::decimal_string;

verus! {

/// Lowest refresh rate the panel takes.
pub const MIN_ALLOWED_HZ: u32 = 40;

/// Highest refresh rate the panel takes.
pub const MAX_ALLOWED_HZ: u32 = 90;

/// The program that sets the refresh rate.
pub const HELPER_PROGRAM: &'static str = "gamescope-cmd";

/// The range that two requested ends give: each end is moved into the interval from
/// 40 to 90, and the two are put in order.
pub open spec fn normalized_range(min_hz: u32, max_hz: u32) -> (u32, u32) {
    let low = clamp_spec(min_hz as int, MIN_ALLOWED_HZ as int, MAX_ALLOWED_HZ as int) as u32;
    let high = clamp_spec(max_hz as int, MIN_ALLOWED_HZ as int, MAX_ALLOWED_HZ as int) as u32;
    if low > high {
        (high, low)
    } else {
        (low, high)
    }
}

/// Puts two requested ends into the admitted interval and in order.
pub fn normalize_range(min_hz: u32, max_hz: u32) -> (r: (u32, u32))
    ensures
        r == normalized_range(min_hz, max_hz),
        MIN_ALLOWED_HZ <= r.0 <= r.1 <= MAX_ALLOWED_HZ,
{
    let low: u32 = clamp_u32(min_hz, MIN_ALLOWED_HZ, MAX_ALLOWED_HZ);
    let high: u32 = clamp_u32(max_hz, MIN_ALLOWED_HZ, MAX_ALLOWED_HZ);
    if low > high {
        (high, low)
    } else {
        (low, high)
    }
}

/// What the caller has to do to apply a rate.
#[derive(Debug, Clone, Copy, PartialEq, Eq, Structural)]
pub enum RateRequest {
    /// The panel already runs at the rate: nothing to do.
    NoChange,
    /// Run the helper for this rate.
    Invoke { hz: u32 },
}

/// How a run of the helper ended.
#[derive(Debug)]
pub enum HelperOutcome {
    /// The helper ran to its end.
    Exited { success: bool, exit_code: Option<i32>, stderr: String },
    /// There is no helper to run.
    NotFound,
    /// The helper could not be started.
    Failed(std::io::Error),
}

/// The state of the actuator as a mathematical value.
pub struct DisplayModel {
    /// The rate last applied.
    pub current_hz: u32,
    /// Lower end of the range.
    pub min_hz: u32,
    /// Upper end of the range.
    pub max_hz: u32,
    /// When the rate was last applied.
    pub last_change: u64,
}

/// Keeps the range and the rate last applied, so that nothing is asked of the panel
/// twice.
#[derive(Debug)]
pub struct DisplayManager {
    current_hz: u32,
    min_hz: u32,
    max_hz: u32,
    last_change: u64,
}

impl View for DisplayManager {
    type V = DisplayModel;

    closed spec fn view(&self) -> DisplayModel {
        DisplayModel {
            current_hz: self.current_hz,
            min_hz: self.min_hz,
            max_hz: self.max_hz,
            last_change: self.last_change,
        }
    }
}

impl DisplayManager {
    /// A manager for the given range at time `now`; it starts at the upper end.
    pub fn new_at(min_hz: u32, max_hz: u32, now: u64) -> (m: Self)
        ensures
            (m@.min_hz, m@.max_hz) == normalized_range(min_hz, max_hz),
            m@.current_hz == m@.max_hz,
            m@.last_change == now,
            MIN_ALLOWED_HZ <= m@.min_hz <= m@.max_hz <= MAX_ALLOWED_HZ,
    {
        let (low, high) = normalize_range(min_hz, max_hz);
        Self { current_hz: high, min_hz: low, max_hz: high, last_change: now }
    }

    /// A manager for the given range at the clock's present reading.
    pub fn new(min_hz: u32, max_hz: u32, clock: &Clock) -> (m: Self)
        ensures
            (m@.min_hz, m@.max_hz) == normalized_range(min_hz, max_hz),
            m@.current_hz == m@.max_hz,
            MIN_ALLOWED_HZ <= m@.min_hz <= m@.max_hz <= MAX_ALLOWED_HZ,
    {
        let now: u64 = clock.now_ms();
        Self::new_at(min_hz, max_hz, now)
    }

    /// `hz` held inside the range.
    pub fn clamp_hz(&self, hz: u32) -> (r: u32)
        ensures
            r == clamp_spec(hz as int, self@.min_hz as int, self@.max_hz as int),
    {
        clamp_u32(hz, self.min_hz, self.max_hz)
    }

    /// What has to be done to make the panel run at `hz`: nothing, where the rate
    /// held inside the range is the one last applied, and else a run of the helper.
    pub fn set_refresh_rate(&self, hz: u32) -> (request: RateRequest)
        ensures
            request == (if clamp_spec(hz as int, self@.min_hz as int, self@.max_hz as int)
                == self@.current_hz {
                RateRequest::NoChange
            } else {
                RateRequest::Invoke {
                    hz: clamp_spec(hz as int, self@.min_hz as int, self@.max_hz as int) as u32,
                }
            }),
    {
        let clamped: u32 = self.clamp_hz(hz);
        if clamped == self.current_hz {
            RateRequest::NoChange
        } else {
            RateRequest::Invoke { hz: clamped }
        }
    }

    /// The arguments to run the helper with for the rate `hz`.
    pub fn helper_arguments(hz: u32) -> (args: Vec<String>)
        ensures
            args@.len() == 2,
            args@[0]@ == "-r"@,
            args@[1]@ == decimal(hz as nat),
    {
        let mut args: Vec<String> = Vec::new();
        args.push(String::from_str("-r"));
        args.push(decimal_string(hz as u64));
        args
    }

    /// What a run of the helper amounts to: success, or the error to report.
    pub fn execute_gamescope_cmd(outcome: HelperOutcome) -> (r: Result<(), DisplayError>)
        ensures
            r is Ok <==> outcome matches HelperOutcome::Exited { success: true, .. },
            match outcome {
                HelperOutcome::Exited { success, exit_code, stderr } => !success ==> r == Err::<
                    (),
                    DisplayError,
                >(DisplayError::CommandFailed { exit_code, stderr }),
                HelperOutcome::NotFound => r == Err::<(), DisplayError>(
                    DisplayError::CommandNotFound,
                ),
                HelperOutcome::Failed(source) => r == Err::<(), DisplayError>(
                    DisplayError::ExecutionFailed(source),
                ),
            },
    {
        match outcome {
            HelperOutcome::Exited { success, exit_code, stderr } => {
                if success {
                    Ok(())
                } else {
                    Err(DisplayError::CommandFailed { exit_code, stderr })
                }
            },
            HelperOutcome::NotFound => Err(DisplayError::CommandNotFound),
            HelperOutcome::Failed(source) => Err(DisplayError::ExecutionFailed(source)),
        }
    }

    /// Takes note of how the helper's run for `hz` ended at `now`. After a run that
    /// succeeded the rate and the time are kept and the answer is `Ok(true)`; after
    /// any other nothing changes and the answer is the error.
    pub fn finish_refresh_rate(&mut self, hz: u32, outcome: HelperOutcome, now: u64) -> (r:
        Result<bool, DisplayError>)
        ensures
            r is Ok <==> outcome matches HelperOutcome::Exited { success: true, .. },
            r matches Ok(changed) ==> changed && final(self)@ == (DisplayModel {
                current_hz: hz,
                last_change: now,
                ..old(self)@
            }),
            r is Err ==> final(self)@ == old(self)@,
            match outcome {
                HelperOutcome::Exited { success, exit_code, stderr } => !success ==> r == Err::<
                    bool,
                    DisplayError,
                >(DisplayError::CommandFailed { exit_code, stderr }),
                HelperOutcome::NotFound => r == Err::<bool, DisplayError>(
                    DisplayError::CommandNotFound,
                ),
                HelperOutcome::Failed(source) => r == Err::<bool, DisplayError>(
                    DisplayError::ExecutionFailed(source),
                ),
            },
    {
        match Self::execute_gamescope_cmd(outcome) {
            Ok(()) => {
                self.current_hz = hz;
                self.last_change = now;
                Ok(true)
            },
            Err(e) => Err(e),
        }
    }

    /// The rate last applied.
    pub fn get_current_hz(&self) -> (hz: u32)
        ensures
            hz == self@.current_hz,
    {
        self.current_hz
    }

    /// Lower end of the range.
    pub fn get_min_hz(&self) -> (hz: u32)
        ensures
            hz == self@.min_hz,
    {
        self.min_hz
    }

    /// Upper end of the range.
    pub fn get_max_hz(&self) -> (hz: u32)
        ensures
            hz == self@.max_hz,
    {
        self.max_hz
    }

    /// Sets the range: each end is moved into the interval from 40 to 90, and the two
    /// are put in order.
    pub fn set_range(&mut self, min: u32, max: u32)
        ensures
            (final(self)@.min_hz, final(self)@.max_hz) == normalized_range(min, max),
            MIN_ALLOWED_HZ <= final(self)@.min_hz <= final(self)@.max_hz <= MAX_ALLOWED_HZ,
            final(self)@.current_hz == old(self)@.current_hz,
            final(self)@.last_change == old(self)@.last_change,
    {
        let (low, high) = normalize_range(min, max);
        self.min_hz = low;
        self.max_hz = high;
    }

    /// When the rate was last applied; the time of making where it never was.
    pub fn get_last_change(&self) -> (t: u64)
        ensures
            t == self@.last_change,
    {
        self.last_change
    }
}

} // verus!
