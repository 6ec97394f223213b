//! Integer statistics over a short run of frame-rate samples.
//!
//! Frame rates are carried in thousandths of a frame per second, so every quantity
//! here is an exact integer: the mean is a floored quotient and the sample standard
//! deviation is compared with a limit by cross-multiplying, never by taking a root.

use vstd::prelude::*;
use std::collections::VecDeque;

verus! {

/// The most samples a window may hold; it keeps the sums below inside 128 bits.
pub const MAX_WINDOW_CAPACITY: usize = 65536;

/// The sum of the samples.
pub open spec fn sum(s: Seq<u32>) -> int
    decreases s.len(),
{
    if s.len() == 0 {
        0
    } else {
        sum(s.drop_last()) + s.last()
    }
}

/// The sum over `s` of `(n * x - total)` squared.
///
/// With `n` the number of samples and `total` their sum this is `n * n` times the
/// sum of the squared deviations from the mean.
pub open spec fn scaled_sq_dev(s: Seq<u32>, n: int, total: int) -> int
    decreases s.len(),
{
    if s.len() == 0 {
        0
    } else {
        scaled_sq_dev(s.drop_last(), n, total) + (n * s.last() - total) * (n * s.last() - total)
    }
}

/// The mean of the samples, rounded down; zero for no samples.
pub open spec fn mean_floor(s: Seq<u32>) -> int {
    if s.len() == 0 {
        0
    } else {
        sum(s) / (s.len() as int)
    }
}

/// Numerator of the sample variance: `n * n` times the sum of squared deviations.
pub open spec fn variance_numer(s: Seq<u32>) -> int {
    scaled_sq_dev(s, s.len() as int, sum(s))
}

/// Denominator of the sample variance that goes with `variance_numer`.
pub open spec fn variance_denom(s: Seq<u32>) -> int {
    s.len() * s.len() * (s.len() - 1)
}

/// The sample standard deviation of `s` is greater than `limit`.
///
/// Fewer than two samples have deviation zero.
pub open spec fn std_dev_above(s: Seq<u32>, limit: int) -> bool {
    s.len() >= 2 && variance_numer(s) > limit * limit * variance_denom(s)
}

/// The sample standard deviation of `s` is less than `limit`.
pub open spec fn std_dev_below(s: Seq<u32>, limit: int) -> bool {
    if s.len() >= 2 {
        variance_numer(s) < limit * limit * variance_denom(s)
    } else {
        0 < limit
    }
}

/// `r` is the square root of `x`, rounded down.
pub open spec fn is_floor_sqrt(r: int, x: int) -> bool {
    0 <= r && r * r <= x < (r + 1) * (r + 1)
}

/// The sample variance of `s`, rounded down; zero for fewer than two samples.
pub open spec fn variance_floor(s: Seq<u32>) -> int {
    if s.len() >= 2 {
        variance_numer(s) / variance_denom(s)
    } else {
        0
    }
}

/// Adding a sample adds it to the sum.
pub proof fn lemma_sum_push(s: Seq<u32>, x: u32)
    ensures
        sum(s.push(x)) == sum(s) + x,
{
    assert(s.push(x).drop_last() =~= s);
}

/// Adding a sample adds its squared deviation.
pub proof fn lemma_scaled_sq_dev_push(s: Seq<u32>, x: u32, n: int, total: int)
    ensures
        scaled_sq_dev(s.push(x), n, total) == scaled_sq_dev(s, n, total) + (n * x - total) * (n * x
            - total),
{
    assert(s.push(x).drop_last() =~= s);
}

/// The sum of `s` is at most its length times the largest sample value.
pub proof fn lemma_sum_bound(s: Seq<u32>)
    ensures
        0 <= sum(s) <= s.len() * 0xffff_ffff,
    decreases s.len(),
{
    if s.len() > 0 {
        lemma_sum_bound(s.drop_last());
        assert((s.len() - 1) * 0xffff_ffff + 0xffff_ffff == s.len() * 0xffff_ffff)
            by (nonlinear_arith);
    }
}

/// The square root of `x`, rounded down.
pub fn isqrt(x: u128) -> (r: u64)
    ensures
        is_floor_sqrt(r as int, x as int),
{
    let mut lo: u128 = 0;
    let mut hi: u128 = 0x1_0000_0000_0000_0000;
    assert(x < hi * hi) by (nonlinear_arith)
        requires
            hi == 0x1_0000_0000_0000_0000,
            x <= 0xffff_ffff_ffff_ffff_ffff_ffff_ffff_ffff,
    ;
    while hi - lo > 1
        invariant
            lo < hi <= 0x1_0000_0000_0000_0000,
            lo * lo <= x < hi * hi,
        decreases hi - lo,
    {
        let mid: u128 = lo + (hi - lo) / 2;
        assert(mid * mid <= 0xffff_ffff_ffff_ffff * 0xffff_ffff_ffff_ffff) by (nonlinear_arith)
            requires
                mid <= 0xffff_ffff_ffff_ffff,
        ;
        if mid * mid <= x {
            lo = mid;
        } else {
            hi = mid;
        }
    }
    lo as u64
}

/// The sum of the samples held in `samples`.
pub fn total_of(samples: &VecDeque<u32>) -> (total: u64)
    requires
        samples@.len() <= MAX_WINDOW_CAPACITY,
    ensures
        total == sum(samples@),
{
    let n: usize = samples.len();
    let mut total: u64 = 0;
    let mut i: usize = 0;
    while i < n
        invariant
            n == samples@.len(),
            n <= MAX_WINDOW_CAPACITY,
            i <= n,
            total == sum(samples@.take(i as int)),
            total <= i * 0xffff_ffff,
        decreases n - i,
    {
        let x: u32 = samples[i];
        proof {
            assert(samples@.take(i as int + 1) =~= samples@.take(i as int).push(x));
            lemma_sum_push(samples@.take(i as int), x);
            assert(i * 0xffff_ffff + 0xffff_ffff == (i + 1) * 0xffff_ffff) by (nonlinear_arith);
            assert((i + 1) * 0xffff_ffff <= 65536 * 0xffff_ffff) by (nonlinear_arith)
                requires
                    i + 1 <= 65536,
            ;
        }
        total = total + x as u64;
        i = i + 1;
    }
    assert(samples@.take(n as int) =~= samples@);
    total
}

/// The numerator of the sample variance of the samples held in `samples`.
pub fn variance_numer_of(samples: &VecDeque<u32>) -> (numer: u128)
    requires
        samples@.len() <= MAX_WINDOW_CAPACITY,
    ensures
        numer == variance_numer(samples@),
        numer <= samples@.len() * 0x1_0000_0000_0000_0000_0000_0000,
{
    let n: usize = samples.len();
    let total: u64 = total_of(samples);
    proof {
        lemma_sum_bound(samples@);
        assert(n * 0xffff_ffff <= 65536 * 0xffff_ffff) by (nonlinear_arith)
            requires
                n <= 65536,
        ;
    }
    let mut numer: u128 = 0;
    let mut i: usize = 0;
    while i < n
        invariant
            n == samples@.len(),
            n <= MAX_WINDOW_CAPACITY,
            i <= n,
            total == sum(samples@),
            total <= 65536 * 0xffff_ffff,
            numer == scaled_sq_dev(samples@.take(i as int), n as int, total as int),
            numer <= i * 0x1_0000_0000_0000_0000_0000_0000,
        decreases n - i,
    {
        let x: u32 = samples[i];
        assert(n * x <= 65536 * 0xffff_ffff) by (nonlinear_arith)
            requires
                n <= 65536,
                x <= 0xffff_ffff,
        ;
        let scaled: u64 = n as u64 * x as u64;
        let dev: u64 = if scaled >= total {
            scaled - total
        } else {
            total - scaled
        };
        assert(dev * dev == (n * x - total) * (n * x - total)) by (nonlinear_arith)
            requires
                dev == n * x - total || dev == total - n * x,
        ;
        assert(dev * dev <= 0x1_0000_0000_0000_0000_0000_0000) by (nonlinear_arith)
            requires
                dev <= 65536 * 0xffff_ffff,
        ;
        proof {
            assert(samples@.take(i as int + 1) =~= samples@.take(i as int).push(x));
            lemma_scaled_sq_dev_push(samples@.take(i as int), x, n as int, total as int);
            assert(i * 0x1_0000_0000_0000_0000_0000_0000 + 0x1_0000_0000_0000_0000_0000_0000 == (i
                + 1) * 0x1_0000_0000_0000_0000_0000_0000) by (nonlinear_arith);
            assert((i + 1) * 0x1_0000_0000_0000_0000_0000_0000 <= 65536
                * 0x1_0000_0000_0000_0000_0000_0000) by (nonlinear_arith)
                requires
                    i + 1 <= 65536,
            ;
        }
        numer = numer + dev as u128 * dev as u128;
        i = i + 1;
    }
    assert(samples@.take(n as int) =~= samples@);
    numer
}

/// The denominator of the sample variance for `n` samples.
pub fn variance_denom_of(n: usize) -> (denom: u128)
    requires
        1 <= n <= MAX_WINDOW_CAPACITY,
    ensures
        denom == n * n * (n - 1),
        denom <= 65536 * 65536 * 65536,
{
    let wide: u128 = n as u128;
    assert(wide * wide <= 65536 * 65536 && wide * wide * (wide - 1) <= 65536 * 65536 * 65536)
        by (nonlinear_arith)
        requires
            1 <= wide <= 65536,
    ;
    wide * wide * (wide - 1)
}

/// Whether the sample standard deviation of `samples` is greater than `limit`.
pub fn std_dev_exceeds(samples: &VecDeque<u32>, limit: u32) -> (above: bool)
    requires
        samples@.len() <= MAX_WINDOW_CAPACITY,
    ensures
        above == std_dev_above(samples@, limit as int),
{
    let n: usize = samples.len();
    if n < 2 {
        return false;
    }
    let numer: u128 = variance_numer_of(samples);
    let denom: u128 = variance_denom_of(n);
    assert(limit * limit <= 0xffff_ffff * 0xffff_ffff) by (nonlinear_arith)
        requires
            limit <= 0xffff_ffff,
    ;
    let square: u128 = limit as u128 * limit as u128;
    assert(square * denom <= 0xffff_ffff * 0xffff_ffff * (65536 * 65536 * 65536))
        by (nonlinear_arith)
        requires
            square <= 0xffff_ffff * 0xffff_ffff,
            denom <= 65536 * 65536 * 65536,
    ;
    numer > square * denom
}

/// Whether the sample standard deviation of `samples` is less than `limit`.
pub fn std_dev_within(samples: &VecDeque<u32>, limit: u32) -> (below: bool)
    requires
        samples@.len() <= MAX_WINDOW_CAPACITY,
    ensures
        below == std_dev_below(samples@, limit as int),
{
    let n: usize = samples.len();
    if n < 2 {
        return 0 < limit;
    }
    let numer: u128 = variance_numer_of(samples);
    let denom: u128 = variance_denom_of(n);
    assert(limit * limit <= 0xffff_ffff * 0xffff_ffff) by (nonlinear_arith)
        requires
            limit <= 0xffff_ffff,
    ;
    let square: u128 = limit as u128 * limit as u128;
    assert(square * denom <= 0xffff_ffff * 0xffff_ffff * (65536 * 65536 * 65536))
        by (nonlinear_arith)
        requires
            square <= 0xffff_ffff * 0xffff_ffff,
            denom <= 65536 * 65536 * 65536,
    ;
    numer < square * denom
}

/// The sample standard deviation of `samples`, rounded down to a whole unit.
pub fn std_dev_floor_of(samples: &VecDeque<u32>) -> (dev: u64)
    requires
        samples@.len() <= MAX_WINDOW_CAPACITY,
    ensures
        is_floor_sqrt(dev as int, variance_floor(samples@)),
{
    let n: usize = samples.len();
    if n < 2 {
        assert(is_floor_sqrt(0, 0));
        return 0;
    }
    let numer: u128 = variance_numer_of(samples);
    let denom: u128 = variance_denom_of(n);
    assert(denom >= 1) by (nonlinear_arith)
        requires
            denom == n * n * (n - 1),
            n >= 2,
    ;
    isqrt(numer / denom)
}

} // verus!
