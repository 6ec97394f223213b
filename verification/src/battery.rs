//! Power draw: the recent readings, their mean, and an estimate of what running
//! below the highest rate saves.
//!
//! Power is in microwatts. The estimate takes power to grow in proportion to the
//! refresh rate and the battery to hold 40 watt-hours; it is an estimate, not a
//! measurement.

use vstd::prelude::*;
use std::collections::VecDeque;
use crate::clock::Clock;
use crate::rolling::pushed;
use crate::text::parse_u64;
use crate::text::parsed_u64;
use crate::text::trim;
use crate::text::trimmed_of;

verus! {

/// Where the kernel shows the battery's power draw.
pub const POWER_NOW_PATH: &'static str = "/sys/class/power_supply/BAT1/power_now";

/// Where the kernel shows it on machines that number their batteries from zero.
pub const POWER_NOW_PATH_ALT: &'static str = "/sys/class/power_supply/BAT0/power_now";

/// The number of readings the mean is taken over.
pub const POWER_SAMPLE_COUNT: usize = 12;

/// One reading of the power draw, and the rate the panel ran at.
#[derive(Debug, Clone, Copy, PartialEq, Eq, Structural)]
pub struct PowerSample {
    /// Power draw in microwatts.
    pub power_uw: u64,
    /// The refresh rate at the time.
    pub hz: u32,
    /// When the reading was taken.
    pub timestamp: u64,
}

/// The battery's figures as they are sent to a client.
#[derive(Debug, Clone, Copy, PartialEq, Eq, Structural)]
pub struct BatteryResponse {
    /// Present power draw in microwatts.
    pub power_uw: u64,
    /// Mean power draw in microwatts, rounded down.
    pub avg_power_uw: u64,
    /// Estimated minutes of battery saved per hour of use, in millionths of a
    /// minute, rounded down.
    pub estimated_savings_micro_minutes: u128,
    /// Whether the kernel shows the power draw at all.
    pub available: bool,
}

/// What was found where the kernel shows the power draw.
#[derive(Debug)]
pub enum PowerSource {
    /// Neither place exists.
    Missing,
    /// A place exists and could not be read.
    Unreadable,
    /// What was read.
    Contents(String),
}

/// The sum of the power draws.
pub open spec fn power_total(s: Seq<PowerSample>) -> int
    decreases s.len(),
{
    if s.len() == 0 {
        0
    } else {
        power_total(s.drop_last()) + s.last().power_uw
    }
}

/// The sum of the refresh rates.
pub open spec fn hz_total(s: Seq<PowerSample>) -> int
    decreases s.len(),
{
    if s.len() == 0 {
        0
    } else {
        hz_total(s.drop_last()) + s.last().hz
    }
}

/// The estimated saving in millionths of a minute per hour of use.
///
/// With mean power `P` and mean rate `h` below the highest rate `H`, running at `H`
/// would draw `P * H / h`; the difference, over a battery of 40 watt-hours, is
/// `(P * H / h - P) * 60 / 40` minutes. There is no saving where the mean rate is
/// zero or not below the highest.
pub open spec fn estimated_savings(s: Seq<PowerSample>, max_hz: u32) -> int {
    let rates = hz_total(s);
    if s.len() == 0 || rates == 0 || rates >= max_hz * s.len() {
        0
    } else {
        (power_total(s) * (max_hz * s.len() - rates) * 3) / (s.len() * rates * 2)
    }
}

/// The figures for the given readings, the present draw and the highest rate.
pub open spec fn status_of(
    s: Seq<PowerSample>,
    max_hz: u32,
    available: bool,
    current_power: Option<u64>,
) -> BatteryResponse {
    let present = match current_power {
        Some(power) => power,
        None => 0,
    };
    if !available {
        BatteryResponse {
            power_uw: 0,
            avg_power_uw: 0,
            estimated_savings_micro_minutes: 0,
            available: false,
        }
    } else if s.len() == 0 {
        BatteryResponse {
            power_uw: present,
            avg_power_uw: present,
            estimated_savings_micro_minutes: 0,
            available: true,
        }
    } else {
        BatteryResponse {
            power_uw: present,
            avg_power_uw: (power_total(s) / (s.len() as int)) as u64,
            estimated_savings_micro_minutes: estimated_savings(s, max_hz) as u128,
            available: true,
        }
    }
}

/// The monitor as a mathematical value.
#[verifier::ext_equal]
pub struct BatteryModel {
    /// The most recent readings, oldest first.
    pub samples: Seq<PowerSample>,
    /// The highest refresh rate, against which the saving is estimated.
    pub max_hz: u32,
    /// Whether the kernel shows the power draw at all.
    pub available: bool,
}

impl BatteryModel {
    /// The monitor after a reading taken at `now`; the oldest of twelve makes room.
    pub open spec fn with_sample(self, power_uw: u64, hz: u32, now: u64) -> BatteryModel {
        BatteryModel {
            samples: pushed(
                self.samples,
                POWER_SAMPLE_COUNT as int,
                PowerSample { power_uw, hz, timestamp: now },
            ),
            ..self
        }
    }
}

/// Keeps the recent readings of the power draw.
#[derive(Debug)]
pub struct BatteryMonitor {
    samples: VecDeque<PowerSample>,
    max_hz: u32,
    available: bool,
}

impl View for BatteryMonitor {
    type V = BatteryModel;

    closed spec fn view(&self) -> BatteryModel {
        BatteryModel { samples: self.samples@, max_hz: self.max_hz, available: self.available }
    }
}

impl BatteryMonitor {
    /// The monitor holds no more readings than the mean is taken over.
    pub closed spec fn wf(&self) -> bool {
        self.samples@.len() <= POWER_SAMPLE_COUNT
    }

    /// A monitor without readings, for a highest rate of 90. `available` says
    /// whether the kernel shows the power draw.
    pub fn new(available: bool) -> (m: Self)
        ensures
            m.wf(),
            m@ == (BatteryModel { samples: Seq::empty(), max_hz: 90, available }),
    {
        Self { samples: VecDeque::new(), max_hz: 90, available }
    }

    /// Sets the highest rate, against which the saving is estimated.
    pub fn set_max_hz(&mut self, hz: u32)
        requires
            old(self).wf(),
        ensures
            final(self).wf(),
            final(self)@ == (BatteryModel { max_hz: hz, ..old(self)@ }),
    {
        self.max_hz = hz;
    }

    /// Makes a number of what was found where the kernel shows the power draw: the
    /// number that the contents, without the white space round them, stand for.
    /// Where neither place exists the monitor notes that there is nothing to read.
    pub fn read_power_now(&mut self, source: &PowerSource) -> (r: Option<u64>)
        requires
            old(self).wf(),
        ensures
            final(self).wf(),
            r == (match source {
                PowerSource::Contents(contents) => parsed_u64(trimmed_of(contents@)),
                _ => None,
            }),
            final(self)@ == (BatteryModel {
                available: old(self)@.available && !(source is Missing),
                ..old(self)@
            }),
    {
        match source {
            PowerSource::Missing => {
                self.available = false;
                None
            },
            PowerSource::Unreadable => None,
            PowerSource::Contents(contents) => {
                let trimmed: String = trim(contents.as_str());
                parse_u64(trimmed.as_str())
            },
        }
    }

    /// Takes note of a reading taken at `now`; the oldest of twelve makes room.
    pub fn record_sample_at(&mut self, power_uw: u64, hz: u32, now: u64)
        requires
            old(self).wf(),
        ensures
            final(self).wf(),
            final(self)@ == old(self)@.with_sample(power_uw, hz, now),
    {
        if self.samples.len() >= POWER_SAMPLE_COUNT {
            let _ = self.samples.pop_front();
        }
        self.samples.push_back(PowerSample { power_uw, hz, timestamp: now });
        proof {
            assert(old(self)@.samples.len() > 0 ==> old(self)@.samples.drop_first()
                =~= old(self)@.samples.subrange(1, old(self)@.samples.len() as int));
        }
    }

    /// Takes note of a reading taken at the clock's present reading.
    pub fn record_sample(&mut self, power_uw: u64, hz: u32, clock: &Clock)
        requires
            old(self).wf(),
        ensures
            final(self).wf(),
            exists|now: u64| final(self)@ == old(self)@.with_sample(power_uw, hz, now),
    {
        let now: u64 = clock.now_ms();
        self.record_sample_at(power_uw, hz, now);
    }

    /// The battery's figures, given the present power draw where it could be read.
    pub fn get_status(&self, current_power: Option<u64>) -> (r: BatteryResponse)
        requires
            self.wf(),
        ensures
            r == status_of(self@.samples, self@.max_hz, self@.available, current_power),
    {
        if !self.available {
            return BatteryResponse {
                power_uw: 0,
                avg_power_uw: 0,
                estimated_savings_micro_minutes: 0,
                available: false,
            };
        }
        let present: u64 = match current_power {
            Some(power) => power,
            None => 0,
        };
        let n: usize = self.samples.len();
        if n == 0 {
            return BatteryResponse {
                power_uw: present,
                avg_power_uw: present,
                estimated_savings_micro_minutes: 0,
                available: true,
            };
        }
        let mut power: u128 = 0;
        let mut rates: u64 = 0;
        let mut i: usize = 0;
        while i < n
            invariant
                n == self.samples@.len(),
                n <= POWER_SAMPLE_COUNT,
                i <= n,
                power == power_total(self.samples@.take(i as int)),
                rates == hz_total(self.samples@.take(i as int)),
                power <= i * 0xffff_ffff_ffff_ffff,
                rates <= i * 0xffff_ffff,
                rates <= 12 * 0xffff_ffff,
            decreases n - i,
        {
            let sample: PowerSample = self.samples[i];
            proof {
                assert(self.samples@.take(i as int + 1).drop_last() =~= self.samples@.take(
                    i as int,
                ));
            }
            power = power + sample.power_uw as u128;
            rates = rates + sample.hz as u64;
            i = i + 1;
        }
        assert(self.samples@.take(n as int) =~= self.samples@);
        let count: u128 = n as u128;
        assert(self.max_hz * count <= 0xffff_ffff * 12) by (nonlinear_arith)
            requires
                self.max_hz <= 0xffff_ffff,
                count <= 12,
        ;
        let ceiling: u128 = self.max_hz as u128 * count;
        assert(power / count <= 0xffff_ffff_ffff_ffff) by (nonlinear_arith)
            requires
                power <= count * 0xffff_ffff_ffff_ffff,
                count >= 1,
        ;
        let savings: u128 = if rates == 0 || rates as u128 >= ceiling {
            0
        } else {
            let room: u128 = ceiling - rates as u128;
            assert(power <= 12 * 0xffff_ffff_ffff_ffff) by (nonlinear_arith)
                requires
                    power <= count * 0xffff_ffff_ffff_ffff,
                    count <= 12,
            ;
            assert(power * room <= (12 * 0xffff_ffff_ffff_ffff) * (12 * 0xffff_ffff))
                by (nonlinear_arith)
                requires
                    power <= 12 * 0xffff_ffff_ffff_ffff,
                    room <= 12 * 0xffff_ffff,
            ;
            assert(1 <= count * rates <= 12 * (12 * 0xffff_ffff)) by (nonlinear_arith)
                requires
                    1 <= count <= 12,
                    1 <= rates <= 12 * 0xffff_ffff,
            ;
            (power * room * 3) / (count * rates as u128 * 2)
        };
        BatteryResponse {
            power_uw: present,
            avg_power_uw: (power / count) as u64,
            estimated_savings_micro_minutes: savings,
            available: true,
        }
    }
}

} // verus!
