//! Counts of rate changes and how long the rate stayed put between them.

use vstd::prelude::*;
use crate::clock::Clock;
use crate::core_logic::elapsed;

verus! {

/// Milliseconds in an hour.
pub const HOUR_MS: u64 = 3_600_000;

/// The number of stays of which the lengths are kept.
pub const MAX_STABLE_DURATIONS: usize = 100;

/// The figures as they are sent to a client.
#[derive(Debug, Clone, Copy, PartialEq, Eq, Structural)]
pub struct MetricsResponse {
    /// Rate changes since the daemon started.
    pub total_switches: u64,
    /// Rate changes within the last hour.
    pub switches_per_hour: u64,
    /// Mean time between two changes in milliseconds, rounded down.
    pub avg_time_in_stable_ms: u64,
    /// Whole seconds since the daemon started.
    pub uptime_sec: u64,
    /// Changes to a lower rate.
    pub drop_count: u64,
    /// Changes to a higher rate.
    pub increase_count: u64,
}

/// Whether the time `t` lies less than an hour before `now`.
pub open spec fn within_last_hour(t: u64, now: u64) -> bool {
    t + HOUR_MS > now
}

/// The times out of `times` that lie less than an hour before `now`.
pub open spec fn recent(times: Seq<u64>, now: u64) -> Seq<u64> {
    times.filter(|t: u64| within_last_hour(t, now))
}

/// The sum of some lengths of time.
pub open spec fn total(lengths: Seq<u64>) -> int
    decreases lengths.len(),
{
    if lengths.len() == 0 {
        0
    } else {
        total(lengths.drop_last()) + lengths.last()
    }
}

/// The mean of some lengths of time, rounded down; zero for none.
pub open spec fn mean_length(lengths: Seq<u64>) -> int {
    if lengths.len() == 0 {
        0
    } else {
        total(lengths) / (lengths.len() as int)
    }
}

/// A counter one further, starting again from zero after the largest number.
pub open spec fn next_count(n: u64) -> u64 {
    if n == u64::MAX {
        0
    } else {
        (n + 1) as u64
    }
}

/// The lengths kept after one more was noted: the most recent hundred.
pub open spec fn with_length(lengths: Seq<u64>, length: u64) -> Seq<u64> {
    if lengths.len() + 1 > MAX_STABLE_DURATIONS {
        lengths.push(length).drop_first()
    } else {
        lengths.push(length)
    }
}

/// The collector as a mathematical value.
#[verifier::ext_equal]
pub struct MetricsModel {
    /// When the daemon started.
    pub start_time: u64,
    /// Rate changes since the daemon started.
    pub total_switches: u64,
    /// Changes to a lower rate.
    pub drop_count: u64,
    /// Changes to a higher rate.
    pub increase_count: u64,
    /// Times of the changes within the hour before the last one.
    pub recent_switches: Seq<u64>,
    /// Lengths of the most recent stays.
    pub stable_durations: Seq<u64>,
    /// Time of the last change, or of the start.
    pub last_state_change: Option<u64>,
}

impl MetricsModel {
    /// The collector as it is made at `now`.
    pub open spec fn initial(now: u64) -> MetricsModel {
        MetricsModel {
            start_time: now,
            total_switches: 0,
            drop_count: 0,
            increase_count: 0,
            recent_switches: Seq::empty(),
            stable_durations: Seq::empty(),
            last_state_change: Some(now),
        }
    }

    /// The collector after a change from `old_hz` to `new_hz` at `now`.
    pub open spec fn after_switch(self, old_hz: u32, new_hz: u32, now: u64) -> MetricsModel {
        MetricsModel {
            start_time: self.start_time,
            total_switches: next_count(self.total_switches),
            drop_count: if new_hz < old_hz {
                next_count(self.drop_count)
            } else {
                self.drop_count
            },
            increase_count: if new_hz > old_hz {
                next_count(self.increase_count)
            } else {
                self.increase_count
            },
            recent_switches: recent(self.recent_switches.push(now), now),
            stable_durations: match self.last_state_change {
                Some(last) => with_length(self.stable_durations, elapsed(now, last) as u64),
                None => self.stable_durations,
            },
            last_state_change: Some(now),
        }
    }

    /// The figures at `now`.
    pub open spec fn figures(self, now: u64) -> MetricsResponse {
        MetricsResponse {
            total_switches: self.total_switches,
            switches_per_hour: recent(self.recent_switches, now).len() as u64,
            avg_time_in_stable_ms: mean_length(self.stable_durations) as u64,
            uptime_sec: (elapsed(now, self.start_time) / 1000) as u64,
            drop_count: self.drop_count,
            increase_count: self.increase_count,
        }
    }
}

/// The times out of `times` that lie less than an hour before `now`.
pub fn recent_of(times: &Vec<u64>, now: u64) -> (kept: Vec<u64>)
    ensures
        kept@ == recent(times@, now),
{
    let n: usize = times.len();
    let mut kept: Vec<u64> = Vec::new();
    let mut i: usize = 0;
    let ghost keep = |t: u64| within_last_hour(t, now);
    assert(times@.take(0).filter(keep) =~= Seq::<u64>::empty()) by {
        times@.take(0).lemma_filter_len(keep);
    }
    while i < n
        invariant
            n == times@.len(),
            i <= n,
            keep == |t: u64| within_last_hour(t, now),
            kept@ == times@.take(i as int).filter(keep),
        decreases n - i,
    {
        let t: u64 = times[i];
        proof {
            let before = times@.take(i as int);
            assert(times@.take(i as int + 1) =~= before + seq![t]);
            Seq::filter_distributes_over_add(before, seq![t], keep);
            reveal(Seq::filter);
            assert(seq![t].drop_last() =~= Seq::<u64>::empty());
            assert(Seq::<u64>::empty().filter(keep) =~= Seq::<u64>::empty());
            assert(seq![t].filter(keep) =~= if keep(t) {
                seq![t]
            } else {
                Seq::<u64>::empty()
            });
        }
        if t as u128 + HOUR_MS as u128 > now as u128 {
            kept.push(t);
        }
        assert(kept@ =~= times@.take(i as int + 1).filter(keep));
        i = i + 1;
    }
    assert(times@.take(n as int) =~= times@);
    kept
}

/// The mean of some lengths of time, rounded down; zero for none.
pub fn mean_length_of(lengths: &Vec<u64>) -> (mean: u64)
    ensures
        mean == mean_length(lengths@),
{
    let n: usize = lengths.len();
    if n == 0 {
        return 0;
    }
    let mut sum: u128 = 0;
    let mut i: usize = 0;
    while i < n
        invariant
            n == lengths@.len(),
            i <= n,
            sum == total(lengths@.take(i as int)),
            sum <= i * 0xffff_ffff_ffff_ffff,
        decreases n - i,
    {
        proof {
            assert(lengths@.take(i as int + 1).drop_last() =~= lengths@.take(i as int));
            assert(i * 0xffff_ffff_ffff_ffff + 0xffff_ffff_ffff_ffff == (i + 1)
                * 0xffff_ffff_ffff_ffff) by (nonlinear_arith);
            assert((i + 1) * 0xffff_ffff_ffff_ffff <= 0xffff_ffff_ffff_ffff
                * 0xffff_ffff_ffff_ffff) by (nonlinear_arith)
                requires
                    i + 1 <= 0xffff_ffff_ffff_ffff,
            ;
        }
        sum = sum + lengths[i] as u128;
        i = i + 1;
    }
    assert(lengths@.take(n as int) =~= lengths@);
    let count: u128 = n as u128;
    assert(sum / count <= 0xffff_ffff_ffff_ffff) by (nonlinear_arith)
        requires
            sum <= count * 0xffff_ffff_ffff_ffff,
            count >= 1,
    ;
    (sum / count) as u64
}

/// Counts the rate changes and measures the stays between them.
#[derive(Debug)]
pub struct MetricsCollector {
    start_time: u64,
    total_switches: u64,
    drop_count: u64,
    increase_count: u64,
    recent_switches: Vec<u64>,
    stable_durations: Vec<u64>,
    last_state_change: Option<u64>,
}

impl View for MetricsCollector {
    type V = MetricsModel;

    closed spec fn view(&self) -> MetricsModel {
        MetricsModel {
            start_time: self.start_time,
            total_switches: self.total_switches,
            drop_count: self.drop_count,
            increase_count: self.increase_count,
            recent_switches: self.recent_switches@,
            stable_durations: self.stable_durations@,
            last_state_change: self.last_state_change,
        }
    }
}

impl MetricsCollector {
    /// A collector for a daemon that starts at `now`.
    pub fn new_at(now: u64) -> (c: Self)
        ensures
            c@ == MetricsModel::initial(now),
    {
        Self {
            start_time: now,
            total_switches: 0,
            drop_count: 0,
            increase_count: 0,
            recent_switches: Vec::new(),
            stable_durations: Vec::new(),
            last_state_change: Some(now),
        }
    }

    /// A collector for a daemon that starts at the clock's present reading.
    pub fn new(clock: &Clock) -> (c: Self)
        ensures
            exists|now: u64| c@ == MetricsModel::initial(now),
    {
        let now: u64 = clock.now_ms();
        Self::new_at(now)
    }

    /// Takes note of a change from `old_hz` to `new_hz` at `now`.
    pub fn record_switch_at(&mut self, old_hz: u32, new_hz: u32, now: u64)
        ensures
            final(self)@ == old(self)@.after_switch(old_hz, new_hz, now),
    {
        self.total_switches = self.total_switches.wrapping_add(1);
        if new_hz < old_hz {
            self.drop_count = self.drop_count.wrapping_add(1);
        } else if new_hz > old_hz {
            self.increase_count = self.increase_count.wrapping_add(1);
        }
        self.recent_switches.push(now);
        self.recent_switches = recent_of(&self.recent_switches, now);
        match self.last_state_change {
            Some(last) => {
                let stayed: u64 = if now >= last {
                    now - last
                } else {
                    0
                };
                self.stable_durations.push(stayed);
                if self.stable_durations.len() > MAX_STABLE_DURATIONS {
                    let _ = self.stable_durations.remove(0);
                }
                assert(self.stable_durations@ =~= with_length(old(self)@.stable_durations, stayed));
            },
            None => {},
        }
        self.last_state_change = Some(now);
    }

    /// Takes note of a change from `old_hz` to `new_hz` at the clock's present
    /// reading.
    pub fn record_switch(&mut self, old_hz: u32, new_hz: u32, clock: &Clock)
        ensures
            exists|now: u64| final(self)@ == old(self)@.after_switch(old_hz, new_hz, now),
    {
        let now: u64 = clock.now_ms();
        self.record_switch_at(old_hz, new_hz, now);
    }

    /// The figures at `now`.
    pub fn get_metrics_at(&self, now: u64) -> (r: MetricsResponse)
        ensures
            r == self@.figures(now),
    {
        let kept: Vec<u64> = recent_of(&self.recent_switches, now);
        let uptime_ms: u64 = if now >= self.start_time {
            now - self.start_time
        } else {
            0
        };
        MetricsResponse {
            total_switches: self.total_switches,
            switches_per_hour: kept.len() as u64,
            avg_time_in_stable_ms: mean_length_of(&self.stable_durations),
            uptime_sec: uptime_ms / 1000,
            drop_count: self.drop_count,
            increase_count: self.increase_count,
        }
    }

    /// The figures at the clock's present reading.
    pub fn get_metrics(&self, clock: &Clock) -> (r: MetricsResponse)
        ensures
            exists|now: u64| r == self@.figures(now),
    {
        let now: u64 = clock.now_ms();
        self.get_metrics_at(now)
    }
}

} // verus!
