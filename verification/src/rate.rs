//! Refresh rates in hertz: clamping to a range and quantising to the 5 Hz grid.

use vstd::prelude::*;

verus! {

/// Width of one refresh-rate step in hertz.
pub const HZ_STEP_SIZE: u32 = 5;

/// `x` limited to the interval from `lo` to `hi`.
///
/// The definition is total: with `lo > hi` every value maps to one of the two bounds.
pub open spec fn clamp_spec(x: int, lo: int, hi: int) -> int {
    if x < lo {
        lo
    } else if x > hi {
        hi
    } else {
        x
    }
}

/// `hz` rounded to the nearest multiple of five, halves rounding up.
pub open spec fn quantize_spec(hz: int) -> int {
    ((hz + 2) / 5) * 5
}

/// The largest multiple of five that does not exceed `hz`.
pub open spec fn quantize_down_spec(hz: int) -> int {
    (hz / 5) * 5
}

/// The distance between two rates.
pub open spec fn abs_diff_spec(a: int, b: int) -> int {
    if a >= b {
        a - b
    } else {
        b - a
    }
}

/// Limits `hz` to the interval from `lo` to `hi`.
pub fn clamp_u32(hz: u32, lo: u32, hi: u32) -> (r: u32)
    ensures
        r == clamp_spec(hz as int, lo as int, hi as int),
{
    if hz < lo {
        lo
    } else if hz > hi {
        hi
    } else {
        hz
    }
}

/// Rounds `hz` to the nearest multiple of five.
pub fn quantize_hz(hz: u32) -> (r: u32)
    ensures
        r == quantize_spec(hz as int),
        r % 5 == 0,
{
    let wide: u64 = hz as u64 + 2;
    let q: u64 = (wide / 5) * 5;
    assert(q <= u32::MAX) by {
        assert(q <= wide);
        assert(q % 5 == 0) by (nonlinear_arith)
            requires
                q == (wide / 5) * 5,
        ;
    }
    q as u32
}

/// Rounds `hz` down to a multiple of five.
pub fn quantize_hz_down(hz: u32) -> (r: u32)
    ensures
        r == quantize_down_spec(hz as int),
        r % 5 == 0,
        r <= hz,
{
    let q: u32 = (hz / 5) * 5;
    assert(q % 5 == 0) by (nonlinear_arith)
        requires
            q == (hz / 5) * 5,
    ;
    q
}

/// The distance between two rates.
pub fn abs_diff_u32(a: u32, b: u32) -> (r: u32)
    ensures
        r == abs_diff_spec(a as int, b as int),
{
    if a >= b {
        a - b
    } else {
        b - a
    }
}

/// A clamped value lies between the bounds, whenever the bounds are in order.
pub proof fn lemma_clamp_in_range(x: int, lo: int, hi: int)
    requires
        lo <= hi,
    ensures
        lo <= clamp_spec(x, lo, hi) <= hi,
{
}

/// Clamping twice is the same as clamping once.
pub proof fn lemma_clamp_idempotent(x: int, lo: int, hi: int)
    requires
        lo <= hi,
    ensures
        clamp_spec(clamp_spec(x, lo, hi), lo, hi) == clamp_spec(x, lo, hi),
{
}

/// A value that already lies between the bounds is left as it is.
pub proof fn lemma_clamp_identity_in_range(x: int, lo: int, hi: int)
    requires
        lo <= x <= hi,
    ensures
        clamp_spec(x, lo, hi) == x,
{
}

/// Clamping keeps the order of its arguments.
pub proof fn lemma_clamp_monotone(x: int, y: int, lo: int, hi: int)
    requires
        x <= y,
        lo <= hi,
    ensures
        clamp_spec(x, lo, hi) <= clamp_spec(y, lo, hi),
{
}

/// Rounding to the grid yields a multiple of five no further than two away.
pub proof fn lemma_quantize_nearest(hz: int)
    requires
        hz >= 0,
    ensures
        quantize_spec(hz) % 5 == 0,
        hz - 2 <= quantize_spec(hz) <= hz + 2,
        hz % 5 == 0 ==> quantize_spec(hz) == hz,
{
    assert(quantize_spec(hz) % 5 == 0 && hz - 2 <= quantize_spec(hz) <= hz + 2) by (nonlinear_arith)
        requires
            hz >= 0,
    ;
    if hz % 5 == 0 {
        assert(((hz + 2) / 5) * 5 == hz) by (nonlinear_arith)
            requires
                hz >= 0,
                hz % 5 == 0,
        ;
    }
}

/// Rounding down to the grid yields the multiple of five just below.
pub proof fn lemma_quantize_down_floor(hz: int)
    requires
        hz >= 0,
    ensures
        quantize_down_spec(hz) % 5 == 0,
        hz - 4 <= quantize_down_spec(hz) <= hz,
{
    assert(quantize_down_spec(hz) % 5 == 0 && hz - 4 <= quantize_down_spec(hz) <= hz)
        by (nonlinear_arith)
        requires
            hz >= 0,
    ;
}

} // verus!
