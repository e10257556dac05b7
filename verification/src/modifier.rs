//! The global modifier: continuous parameters every live entity reads
//! on each simulation tick.
//!
//! Two recognized controllers remap their 7-bit value linearly onto
//! `[1.0, 5.0]` (in milli-units: `[1000, 5000]`): the modulation wheel
//! drives the radius scale and sound controller five drives the speed
//! accelerator. The center shift is a slow bounded circular drift
//! recomputed from the host clock alone, independent of MIDI input.

use vstd::prelude::*;
use vstd::arithmetic::div_mod::{lemma_div_is_ordered, lemma_div_multiples_vanish};
use vstd::arithmetic::mul::lemma_mul_inequality;
use crate::geom::{Vec2, wave_cos, wave_sin, cos_milli, sin_milli};

verus! {

/// Neutral value (1.0) of the radius scale, in milli-units.
pub const SCALE_FLOOR: i64 = 1000;

/// Ceiling (5.0) of the radius scale, in milli-units.
pub const SCALE_CEIL: i64 = 5000;

/// Neutral value (1.0) of the speed accelerator, in milli-units.
pub const ACCEL_FLOOR: i64 = 1000;

/// Ceiling (5.0) of the speed accelerator, in milli-units.
pub const ACCEL_CEIL: i64 = 5000;

/// Controller number of the modulation wheel, which drives the scale.
pub const CC_MODULATION_WHEEL: u8 = 1;

/// Controller number of sound controller five, which drives the
/// accelerator.
pub const CC_SOUND_CONTROLLER_5: u8 = 74;

/// Amplitude of the center drift, in screen units.
pub const DRIFT_AMPLITUDE: i64 = 10;

/// Milliseconds of host time per milli-turn of drift phase.
pub const DRIFT_SLOWDOWN: u64 = 6;

/// Linear remap of a 7-bit controller value onto `[floor, ceil]`:
/// 0 is the floor, 127 the ceiling.
pub open spec fn remap(value: int, floor: int, ceil: int) -> int {
    floor + (ceil - floor) * value / 127
}

/// Drift phase at a host time, in milli-turns.
pub open spec fn drift_phase(t: int) -> int {
    (t / DRIFT_SLOWDOWN as int) % 1000
}

/// Horizontal center drift at a host time, in milli-units.
pub open spec fn drift_x(t: int) -> int {
    DRIFT_AMPLITUDE * wave_cos(drift_phase(t))
}

/// Vertical center drift at a host time, in milli-units.
pub open spec fn drift_y(t: int) -> int {
    DRIFT_AMPLITUDE * wave_sin(drift_phase(t))
}

/// What one control-change event does to the parameters: the
/// modulation wheel remaps the scale, sound controller five the
/// accelerator, and any other controller leaves everything alone.
pub open spec fn cc_spec(pre: Modifier, post: Modifier, controller: u8, value: u8) -> bool {
    &&& controller == CC_MODULATION_WHEEL ==> {
        &&& post.scale == remap(value as int, SCALE_FLOOR as int, SCALE_CEIL as int)
        &&& post.accelerator == pre.accelerator
        &&& post.center_shift == pre.center_shift
    }
    &&& controller == CC_SOUND_CONTROLLER_5 ==> {
        &&& post.accelerator == remap(value as int, ACCEL_FLOOR as int, ACCEL_CEIL as int)
        &&& post.scale == pre.scale
        &&& post.center_shift == pre.center_shift
    }
    &&& controller != CC_MODULATION_WHEEL && controller != CC_SOUND_CONTROLLER_5 ==> post == pre
}

/// The remap stays within `[floor, ceil]`, is exact at both ends, and
/// is non-decreasing in the controller value.
pub proof fn lemma_remap_monotone_bounded(v1: int, v2: int, floor: int, ceil: int)
    requires
        0 <= v1 <= v2 <= 127,
        floor <= ceil,
    ensures
        remap(v1, floor, ceil) <= remap(v2, floor, ceil),
        floor <= remap(v1, floor, ceil) <= ceil,
        remap(0, floor, ceil) == floor,
        remap(127, floor, ceil) == ceil,
{
    broadcast use vstd::arithmetic::mul::lemma_mul_is_commutative;

    let span = ceil - floor;
    lemma_mul_inequality(v1, v2, span);
    lemma_div_is_ordered(span * v1, span * v2, 127);
    lemma_mul_inequality(0, v1, span);
    lemma_div_is_ordered(0, span * v1, 127);
    lemma_mul_inequality(v1, 127, span);
    assert(span * v1 <= span * 127);
    lemma_div_is_ordered(span * v1, span * 127, 127);
    lemma_div_multiples_vanish(span, 127);
    assert(span * 127 == 127 * span);
    lemma_div_multiples_vanish(0, 127);
}

/// The global parameter set, mutated in place once per tick or event
/// for the life of the process.
#[derive(Clone, Copy, PartialEq, Eq, Structural, Debug)]
pub struct Modifier {
    /// Radius scale in milli-units, within `[SCALE_FLOOR, SCALE_CEIL]`.
    pub scale: i64,
    /// Speed accelerator in milli-units, within
    /// `[ACCEL_FLOOR, ACCEL_CEIL]`.
    pub accelerator: i64,
    /// Slow circular drift added to every entity's center, bounded by
    /// the drift amplitude in each component.
    pub center_shift: Vec2,
}

impl Modifier {
    /// The parameters never leave their positive floors and the drift
    /// never leaves its amplitude box.
    pub open spec fn wf(&self) -> bool {
        &&& SCALE_FLOOR <= self.scale <= SCALE_CEIL
        &&& ACCEL_FLOOR <= self.accelerator <= ACCEL_CEIL
        &&& -10_000 <= self.center_shift.x <= 10_000
        &&& -10_000 <= self.center_shift.y <= 10_000
    }

    /// A neutral modifier: unit scale and accelerator, no drift.
    pub fn new() -> (m: Modifier)
        ensures
            m.scale == SCALE_FLOOR,
            m.accelerator == ACCEL_FLOOR,
            m.center_shift == (Vec2 { x: 0, y: 0 }),
            m.wf(),
    {
        Modifier { scale: SCALE_FLOOR, accelerator: ACCEL_FLOOR, center_shift: Vec2 { x: 0, y: 0 } }
    }

    /// Routes a control-change event: the modulation wheel remaps the
    /// scale, sound controller five the accelerator, and any other
    /// controller is ignored.
    pub fn apply_control_change(&mut self, controller: u8, value: u8)
        requires
            old(self).wf(),
            value < 128,
        ensures
            final(self).wf(),
            cc_spec(*old(self), *final(self), controller, value),
    {
        if controller == CC_MODULATION_WHEEL {
            proof {
                lemma_remap_monotone_bounded(value as int, value as int, SCALE_FLOOR as int, SCALE_CEIL as int);
            }
            self.scale = SCALE_FLOOR + (SCALE_CEIL - SCALE_FLOOR) * (value as i64) / 127;
        } else if controller == CC_SOUND_CONTROLLER_5 {
            proof {
                lemma_remap_monotone_bounded(value as int, value as int, ACCEL_FLOOR as int, ACCEL_CEIL as int);
            }
            self.accelerator = ACCEL_FLOOR + (ACCEL_CEIL - ACCEL_FLOOR) * (value as i64) / 127;
        }
    }

    /// Recomputes the center drift from the host clock: a bounded
    /// circular sweep, one revolution per `DRIFT_SLOWDOWN * 1000`
    /// milliseconds, independent of any MIDI input.
    pub fn tick(&mut self, elapsed_millis: u64)
        requires
            old(self).wf(),
        ensures
            final(self).wf(),
            final(self).scale == old(self).scale,
            final(self).accelerator == old(self).accelerator,
            final(self).center_shift.x == drift_x(elapsed_millis as int),
            final(self).center_shift.y == drift_y(elapsed_millis as int),
    {
        let phase = ((elapsed_millis / DRIFT_SLOWDOWN) % 1000) as i64;
        let x = DRIFT_AMPLITUDE * cos_milli(phase);
        let y = DRIFT_AMPLITUDE * sin_milli(phase);
        self.center_shift = Vec2 { x, y };
    }
}

impl Default for Modifier {
    /// The same neutral parameters as [`Modifier::new`].
    fn default() -> (m: Modifier)
        ensures
            m.scale == SCALE_FLOOR,
            m.accelerator == ACCEL_FLOOR,
            m.center_shift == (Vec2 { x: 0, y: 0 }),
            m.wf(),
    {
        Modifier::new()
    }
}

} // verus!
