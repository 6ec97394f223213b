//! A monotonic clock that counts milliseconds from the moment it was started.

use vstd::prelude::*;
use std::time::Duration;
use std::time::Instant;

verus! {

/// `std::time::Instant`, carried as an opaque value.
#[verifier::external_type_specification]
#[verifier::external_body]
pub struct ExInstant(std::time::Instant);

/// `Instant::now` reads the system's monotonic clock; nothing is claimed of the reading.
pub assume_specification[ std::time::Instant::now ]() -> (t: Instant);

/// `Instant::elapsed` gives the time since the instant was taken; nothing is claimed
/// of its length.
pub assume_specification[ std::time::Instant::elapsed ](t: &Instant) -> (d: Duration);

/// `Duration::as_millis` gives the whole milliseconds in a duration; the duration is
/// opaque here, so nothing is claimed of the number.
pub assume_specification[ std::time::Duration::as_millis ](d: &Duration) -> (ms: u128);

/// A source of timestamps: milliseconds since the clock was started.
pub struct Clock {
    origin: Instant,
}

impl Clock {
    /// Starts a clock at the present moment.
    pub fn start() -> Clock {
        Clock { origin: Instant::now() }
    }

    /// Milliseconds since the clock was started, held at `u64::MAX` beyond that.
    pub fn now_ms(&self) -> u64 {
        let elapsed: Duration = self.origin.elapsed();
        millis_held(elapsed.as_millis())
    }
}

/// A count of milliseconds as the clock reports it: the count itself, held at
/// `u64::MAX` where it is greater.
pub open spec fn held_millis(ms: u128) -> u64 {
    if ms > u64::MAX {
        u64::MAX
    } else {
        ms as u64
    }
}

/// Brings a count of milliseconds into 64 bits, holding it at `u64::MAX`.
pub fn millis_held(ms: u128) -> (r: u64)
    ensures
        r == held_millis(ms),
{
    if ms > 0xffff_ffff_ffff_ffff {
        u64::MAX
    } else {
        ms as u64
    }
}

} // verus!
