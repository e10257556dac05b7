//! Fixed-point plane geometry shared by the whole engine.
//!
//! Every length is an `i64` in milli-units (one thousandth of a screen
//! unit), and every angle is a phase in milli-turns: `0..1000` covers one
//! revolution. A triangle wave stands in for the circular functions; it
//! is exact in fixed point, bounded by one unit in magnitude, and hits
//! the same extremes at the same quarter-turn phases.

use vstd::prelude::*;

verus! {

/// Milli-turns per full revolution of a phase angle.
pub const TURN: i64 = 1000;

/// A point or displacement of the screen plane, in milli-units.
#[derive(Clone, Copy, PartialEq, Eq, Structural, Debug)]
pub struct Vec2 {
    pub x: i64,
    pub y: i64,
}

/// An RGB color, assigned once at spawn and immutable thereafter.
#[derive(Clone, Copy, PartialEq, Eq, Structural, Debug)]
pub struct Color {
    pub red: u8,
    pub green: u8,
    pub blue: u8,
}

/// Cosine-shaped triangle wave over a phase in `[0, TURN)`: one unit
/// (1000 milli-units) at phase 0, zero at the quarter turn, minus one
/// unit at the half turn, and back.
pub open spec fn wave_cos(p: int) -> int {
    if p <= 500 {
        1000 - 4 * p
    } else {
        4 * p - 3000
    }
}

/// Sine-shaped companion of [`wave_cos`]: the same wave a quarter turn late.
pub open spec fn wave_sin(p: int) -> int {
    wave_cos((p + 750) % 1000)
}

/// Evaluates [`wave_cos`] on a phase in `[0, TURN)`.
pub fn cos_milli(p: i64) -> (r: i64)
    requires
        0 <= p < TURN,
    ensures
        r == wave_cos(p as int),
        -1000 <= r <= 1000,
{
    if p <= 500 {
        1000 - 4 * p
    } else {
        4 * p - 3000
    }
}

/// Evaluates [`wave_sin`] on a phase in `[0, TURN)`.
pub fn sin_milli(p: i64) -> (r: i64)
    requires
        0 <= p < TURN,
    ensures
        r == wave_sin(p as int),
        -1000 <= r <= 1000,
{
    let q = (p + 750) % 1000;
    cos_milli(q)
}

/// Exponential smoothing in fixed point: the result moves from `cur`
/// toward `target` by `rate` thousandths of the remaining gap, never
/// overshooting either end.
pub open spec fn smooth_spec(cur: int, target: int, rate: int) -> int {
    if target >= cur {
        cur + (target - cur) * rate / 1000
    } else {
        cur - (cur - target) * rate / 1000
    }
}

/// One smoothing step toward `target`; see [`smooth_spec`].
pub fn smooth(cur: i64, target: i64, rate: i64) -> (r: i64)
    requires
        0 <= rate <= 1000,
        -2_000_000_000 <= cur <= 2_000_000_000,
        -2_000_000_000 <= target <= 2_000_000_000,
    ensures
        r == smooth_spec(cur as int, target as int, rate as int),
        cur <= target ==> cur <= r <= target,
        target <= cur ==> target <= r <= cur,
{
    if target >= cur {
        let gap = target - cur;
        proof {
            assert(0 <= gap * rate <= gap * 1000) by (nonlinear_arith)
                requires 0 <= gap && 0 <= rate <= 1000;
            assert(gap * 1000 <= 4_000_000_000 * 1000) by (nonlinear_arith)
                requires 0 <= gap <= 4_000_000_000;
            assert(0 <= gap * rate / 1000 <= gap) by (nonlinear_arith)
                requires 0 <= gap * rate <= gap * 1000;
        }
        let step = gap * rate / 1000;
        cur + step
    } else {
        let gap = cur - target;
        proof {
            assert(0 <= gap * rate <= gap * 1000) by (nonlinear_arith)
                requires 0 <= gap && 0 <= rate <= 1000;
            assert(gap * 1000 <= 4_000_000_000 * 1000) by (nonlinear_arith)
                requires 0 <= gap <= 4_000_000_000;
            assert(0 <= gap * rate / 1000 <= gap) by (nonlinear_arith)
                requires 0 <= gap * rate <= gap * 1000;
        }
        let step = gap * rate / 1000;
        cur - step
    }
}

} // verus!
