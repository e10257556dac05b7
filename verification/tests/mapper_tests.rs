use midi_particles::mapper::{map_coords, Viewport, HALF_EXTENT_LIMIT};

#[test]
fn band_edges_span_the_width() {
    let vp = Viewport { half_width: 500_000, half_height: 400_000 };
    let left = map_coords(48, 64, &vp);
    assert_eq!(left.x, -500_000);
    let right = map_coords(72, 64, &vp);
    assert_eq!(right.x, 500_000);
    let middle = map_coords(60, 64, &vp);
    assert_eq!(middle.x, 0);
}

#[test]
fn band_velocity_spans_the_height() {
    let vp = Viewport { half_width: 500_000, half_height: 400_000 };
    let quiet = map_coords(60, 0, &vp);
    assert_eq!(quiet.y, -400_000);
    let loud = map_coords(60, 127, &vp);
    assert_eq!(loud.y, 400_000);
}

#[test]
fn outside_band_spans_raw_range() {
    let vp = Viewport { half_width: 500_000, half_height: 400_000 };
    let lowest = map_coords(0, 0, &vp);
    assert_eq!(lowest.x, -500_000);
    assert_eq!(lowest.y, 400_000);
    let highest = map_coords(127, 127, &vp);
    assert_eq!(highest.x, 500_000);
    assert_eq!(highest.y, 0);
}

#[test]
fn every_input_stays_in_bounds() {
    // An odd-sized viewport exercises the rounding of both branches.
    let vp = Viewport { half_width: 333_333, half_height: 217_777 };
    for note in 0..=127u8 {
        for velocity in 0..=127u8 {
            let p = map_coords(note, velocity, &vp);
            assert!(-vp.half_width <= p.x && p.x <= vp.half_width);
            assert!(-vp.half_height <= p.y && p.y <= vp.half_height);
        }
    }
}

#[test]
fn largest_viewport_stays_in_bounds() {
    let vp = Viewport { half_width: HALF_EXTENT_LIMIT, half_height: HALF_EXTENT_LIMIT };
    for note in [0u8, 47, 48, 60, 72, 73, 127] {
        for velocity in [0u8, 1, 64, 126, 127] {
            let p = map_coords(note, velocity, &vp);
            assert!(-vp.half_width <= p.x && p.x <= vp.half_width);
            assert!(-vp.half_height <= p.y && p.y <= vp.half_height);
        }
    }
}

#[test]
fn tiny_viewport_stays_in_bounds() {
    let vp = Viewport { half_width: 1, half_height: 1 };
    for note in 0..=127u8 {
        for velocity in 0..=127u8 {
            let p = map_coords(note, velocity, &vp);
            assert!(-1 <= p.x && p.x <= 1);
            assert!(-1 <= p.y && p.y <= 1);
        }
    }
}
