//! Mapping of MIDI note number and velocity to screen-space spawn
//! coordinates.
//!
//! The viewport is a centered rectangle given by its half-extents in
//! milli-units. Notes inside the melodic band spread linearly across
//! the full width by note number and across the full height by
//! velocity; notes outside the band fall back to spreading the raw
//! 7-bit note number across the width and the velocity over the upper
//! half of the height. Both branches stay inside the rectangle for
//! every 7-bit input.

use vstd::prelude::*;
use crate::geom::Vec2;

verus! {

/// Lowest note of the melodic band.
pub const ROTATING_MIN_NOTE: u8 = 48;

/// Highest note of the melodic band.
pub const ROTATING_MAX_NOTE: u8 = 72;

/// Largest 7-bit MIDI value.
pub const MIDI_MAX_VALUE: u8 = 127;

/// Cap on a viewport half-extent, in milli-units.
pub const HALF_EXTENT_LIMIT: i64 = 1_000_000_000;

/// A centered viewport rectangle: points with `|x|` at most
/// `half_width` and `|y|` at most `half_height` lie inside it.
#[derive(Clone, Copy, PartialEq, Eq, Structural, Debug)]
pub struct Viewport {
    pub half_width: i64,
    pub half_height: i64,
}

impl Viewport {
    /// Both half-extents are positive and within the machine cap.
    pub open spec fn wf(&self) -> bool {
        &&& 0 < self.half_width <= HALF_EXTENT_LIMIT
        &&& 0 < self.half_height <= HALF_EXTENT_LIMIT
    }
}

/// Whether a note lies in the melodic band.
pub open spec fn in_band(note: int) -> bool {
    ROTATING_MIN_NOTE <= note <= ROTATING_MAX_NOTE
}

/// Horizontal spawn coordinate: the melodic band spans the width
/// linearly by note; other notes spread the raw 7-bit range over it.
pub open spec fn map_x_spec(note: int, hw: int) -> int {
    if in_band(note) {
        -hw + (note - 48) * hw / 12
    } else {
        -hw + note * (2 * hw) / 127
    }
}

/// Vertical spawn coordinate: inside the band the velocity spans the
/// full height; outside it, the velocity spans the upper half, loudest
/// at the center line.
pub open spec fn map_y_spec(note: int, velocity: int, hh: int) -> int {
    if in_band(note) {
        -hh + velocity * (2 * hh) / 127
    } else {
        hh - hh * velocity / 127
    }
}

/// Maps a note and velocity to a spawn point inside the viewport.
pub fn map_coords(note: u8, velocity: u8, vp: &Viewport) -> (p: Vec2)
    requires
        vp.wf(),
        note < 128,
        velocity < 128,
    ensures
        p.x == map_x_spec(note as int, vp.half_width as int),
        p.y == map_y_spec(note as int, velocity as int, vp.half_height as int),
        -vp.half_width <= p.x <= vp.half_width,
        -vp.half_height <= p.y <= vp.half_height,
{
    let hw = vp.half_width;
    let hh = vp.half_height;
    let x: i64;
    let y: i64;
    if ROTATING_MIN_NOTE <= note && note <= ROTATING_MAX_NOTE {
        let t = (note - ROTATING_MIN_NOTE) as i64;
        proof {
            assert(0 <= t * hw <= 12 * (2 * hw)) by (nonlinear_arith)
                requires 0 <= t <= 24 && 0 < hw;
            assert(0 <= t * hw / 12 <= 2 * hw) by (nonlinear_arith)
                requires 0 <= t * hw <= 12 * (2 * hw);
        }
        x = -hw + t * hw / 12;
        let v = velocity as i64;
        proof {
            assert(0 <= v * (2 * hh) <= 127 * (2 * hh)) by (nonlinear_arith)
                requires 0 <= v <= 127 && 0 < hh;
            assert(0 <= v * (2 * hh) / 127 <= 2 * hh) by (nonlinear_arith)
                requires 0 <= v * (2 * hh) <= 127 * (2 * hh);
        }
        y = -hh + v * (2 * hh) / 127;
    } else {
        let n = note as i64;
        proof {
            assert(0 <= n * (2 * hw) <= 127 * (2 * hw)) by (nonlinear_arith)
                requires 0 <= n <= 127 && 0 < hw;
            assert(0 <= n * (2 * hw) / 127 <= 2 * hw) by (nonlinear_arith)
                requires 0 <= n * (2 * hw) <= 127 * (2 * hw);
        }
        x = -hw + n * (2 * hw) / 127;
        let v = velocity as i64;
        proof {
            assert(0 <= hh * v <= 127 * hh) by (nonlinear_arith)
                requires 0 <= v <= 127 && 0 < hh;
            assert(0 <= hh * v / 127 <= hh) by (nonlinear_arith)
                requires 0 <= hh * v <= 127 * hh;
        }
        y = hh - hh * v / 127;
    }
    Vec2 { x, y }
}

} // verus!
