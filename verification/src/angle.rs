//! Planar headings in millidegrees.
//!
//! A heading is an `i64` in `[0, 360000)`: one thousandth of a degree
//! per unit.  Keeping orientation as an exact integer angle lets the
//! missile-guidance turn clamp be stated and proved exactly; only the
//! conversion between a heading and a unit direction vector involves
//! trigonometry, and that conversion lives outside the core.

use vstd::prelude::*;

verus! {

/// A full turn in millidegrees.
pub const FULL_TURN_MILLIDEG: i64 = 360_000;

/// Half a turn in millidegrees.
pub const HALF_TURN_MILLIDEG: i64 = 180_000;

/// A heading is normalized to `[0, 360000)`.
pub open spec fn is_heading(a: i64) -> bool {
    0 <= a < FULL_TURN_MILLIDEG
}

/// The signed angular difference `to - from`, wrapped into
/// `(-180000, 180000]`: the shortest rotation that carries `from`
/// onto `to`, positive counter-clockwise.
pub open spec fn spec_signed_diff(from: i64, to: i64) -> int
    recommends
        is_heading(from),
        is_heading(to),
{
    let d = to - from;
    if d > HALF_TURN_MILLIDEG {
        d - FULL_TURN_MILLIDEG
    } else if d <= -HALF_TURN_MILLIDEG {
        d + FULL_TURN_MILLIDEG
    } else {
        d
    }
}

/// Compute the wrapped signed difference `to - from`.
pub fn signed_diff(from: i64, to: i64) -> (r: i64)
    requires
        is_heading(from),
        is_heading(to),
    ensures
        r == spec_signed_diff(from, to),
        -HALF_TURN_MILLIDEG < r <= HALF_TURN_MILLIDEG,
{
    let d = to - from;
    if d > HALF_TURN_MILLIDEG {
        d - FULL_TURN_MILLIDEG
    } else if d <= -HALF_TURN_MILLIDEG {
        d + FULL_TURN_MILLIDEG
    } else {
        d
    }
}

/// `a + step` brought back into `[0, 360000)`, for steps of at most
/// half a turn either way.
pub open spec fn spec_wrap_step(a: i64, step: int) -> int
    recommends
        is_heading(a),
        -HALF_TURN_MILLIDEG <= step <= HALF_TURN_MILLIDEG,
{
    let s = a + step;
    if s >= FULL_TURN_MILLIDEG {
        s - FULL_TURN_MILLIDEG
    } else if s < 0 {
        s + FULL_TURN_MILLIDEG
    } else {
        s
    }
}

/// Rotate a heading by a bounded signed step.
pub fn wrap_step(a: i64, step: i64) -> (r: i64)
    requires
        is_heading(a),
        -HALF_TURN_MILLIDEG <= step <= HALF_TURN_MILLIDEG,
    ensures
        r == spec_wrap_step(a, step as int),
        is_heading(r),
    {
    let s = a + step;
    if s >= FULL_TURN_MILLIDEG {
        s - FULL_TURN_MILLIDEG
    } else if s < 0 {
        s + FULL_TURN_MILLIDEG
    } else {
        s
    }
}

/// The turn a bounded-rate rotation takes in one tick: the signed
/// difference toward `to`, clamped to `max_turn` in magnitude.
pub open spec fn spec_clamped_turn(from: i64, to: i64, max_turn: i64) -> int
    recommends
        is_heading(from),
        is_heading(to),
        max_turn >= 0,
{
    let d = spec_signed_diff(from, to);
    if d >= 0 {
        if d <= max_turn {
            d
        } else {
            max_turn as int
        }
    } else {
        if -d <= max_turn {
            d
        } else {
            -max_turn as int
        }
    }
}

/// The heading after one tick of bounded-rate rotation toward `to`.
pub open spec fn spec_turn_toward(from: i64, to: i64, max_turn: i64) -> int {
    spec_wrap_step(from, spec_clamped_turn(from, to, max_turn))
}

/// Rotate `from` toward `to` by at most `max_turn` millidegrees:
/// the bounded turn of homing guidance.  Aligned headings stay put;
/// a target within reach is hit exactly; otherwise the heading moves
/// by exactly `max_turn` in the direction of the shorter arc.
pub fn turn_toward(from: i64, to: i64, max_turn: i64) -> (r: i64)
    requires
        is_heading(from),
        is_heading(to),
        0 <= max_turn <= HALF_TURN_MILLIDEG,
    ensures
        r == spec_turn_toward(from, to, max_turn),
        is_heading(r),
        from == to ==> r == from,
        spec_signed_diff(from, to) == spec_clamped_turn(from, to, max_turn) ==> r == to,
{
    let d = signed_diff(from, to);
    let step: i64 = if d >= 0 {
        if d <= max_turn {
            d
        } else {
            max_turn
        }
    } else {
        if -d <= max_turn {
            d
        } else {
            -max_turn
        }
    };
    let r = wrap_step(from, step);
    proof {
        if spec_signed_diff(from, to) == spec_clamped_turn(from, to, max_turn) {
            assert(r == spec_wrap_step(from, spec_signed_diff(from, to)));
            assert(r == to);
        }
    }
    r
}

} // verus!
