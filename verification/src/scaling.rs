//! Sensitivity-scaling arithmetic that does not need floating point.

use vstd::prelude::*;

verus! {

/// Rust's integer division, which rounds toward zero, for a positive divisor.
pub open spec fn div_toward_zero(n: int, d: int) -> int {
    if n >= 0 {
        n / d
    } else {
        -((-n) / d)
    }
}

/// The span a screen of `size` pixels is scaled over: `size - 1`, at least 1.
pub open spec fn absolute_span(size: i32) -> int {
    if size - 1 > 1 {
        size - 1
    } else {
        1
    }
}

/// The 0..65535 coordinate of `position` on a screen that starts at `origin`, taken to
/// `i32` the way `as` does.
pub open spec fn absolute_of(position: i32, origin: i32, size: i32) -> i32 {
    div_toward_zero((position - origin) * 65535, absolute_span(size)) as i32
}

/// Maps a screen coordinate to the 0..65535 space `MOUSEEVENTF_ABSOLUTE` expects.
///
/// The scale is over `size - 1`, not `size`: the last addressable pixel has to reach the
/// top of the range. Dividing by `size` shrinks every injection slightly, and because the
/// pointer is driven by repeated injections the shortfall accumulates into visible drift.
pub fn to_absolute(position: i32, origin: i32, size: i32) -> (absolute: i32)
    requires
        size > i32::MIN,
        i32::MIN <= position - origin <= i32::MAX,
    ensures
        absolute == absolute_of(position, origin, size),
{
    let span: i64 = if size - 1 > 1 {
        (size - 1) as i64
    } else {
        1
    };
    let delta: i64 = (position - origin) as i64;
    assert(-0x8000_0000 * 65535 <= delta * 65535 <= 0x7fff_ffff * 65535) by (nonlinear_arith)
        requires
            -0x8000_0000 <= delta <= 0x7fff_ffff,
    ;
    let scaled: i64 = delta * 65535;
    let quotient: i64 = if scaled >= 0 {
        scaled / span
    } else {
        let magnitude: i64 = -scaled;
        assert(magnitude / span <= magnitude) by (nonlinear_arith)
            requires
                magnitude >= 0,
                span >= 1,
        ;
        -(magnitude / span)
    };
    #[verifier::truncate]
    (quotient as i32)
}

/// The first pixel maps to 0 and the last one to the top of the range, 65535.
pub proof fn lemma_edges_reach_the_range_ends(origin: i32, size: i32)
    requires
        size >= 2,
        origin + size - 1 <= i32::MAX,
    ensures
        absolute_of(origin, origin, size) == 0,
        absolute_of((origin + size - 1) as i32, origin, size) == 65535,
{
    let span = absolute_span(size);
    assert(span == size - 1);
    assert((span * 65535) / span == 65535) by (nonlinear_arith)
        requires
            span >= 1,
    ;
    assert(((origin + size - 1) as i32 - origin) * 65535 == span * 65535);
    assert(0int / span == 0) by (nonlinear_arith)
        requires
            span >= 1,
    ;
}

/// Moving right never moves the absolute coordinate left, on a screen whose coordinates
/// stay within the 0..65535 range.
pub proof fn lemma_absolute_is_monotonic(a: i32, b: i32, origin: i32, size: i32)
    requires
        size >= 2,
        origin <= a <= b,
        b <= origin + size - 1,
    ensures
        absolute_of(a, origin, size) <= absolute_of(b, origin, size),
        0 <= absolute_of(a, origin, size) <= 65535,
{
    let span = absolute_span(size);
    let na = (a - origin) * 65535;
    let nb = (b - origin) * 65535;
    assert(0 <= na <= nb <= span * 65535) by (nonlinear_arith)
        requires
            0 <= a - origin <= b - origin <= span,
            na == (a - origin) * 65535,
            nb == (b - origin) * 65535,
    ;
    assert(0 <= na / span <= nb / span <= 65535) by (nonlinear_arith)
        requires
            0 <= na <= nb <= span * 65535,
            span >= 1,
    ;
}

} // verus!
