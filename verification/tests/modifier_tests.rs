use midi_particles::modifier::{
    Modifier, ACCEL_CEIL, ACCEL_FLOOR, CC_MODULATION_WHEEL, CC_SOUND_CONTROLLER_5, SCALE_CEIL,
    SCALE_FLOOR,
};

#[test]
fn neutral_defaults() {
    let m = Modifier::new();
    assert_eq!(m.scale, SCALE_FLOOR);
    assert_eq!(m.accelerator, ACCEL_FLOOR);
    assert_eq!(m.center_shift.x, 0);
    assert_eq!(m.center_shift.y, 0);
    let d = Modifier::default();
    assert_eq!(d, m);
}

#[test]
fn modulation_wheel_endpoints() {
    let mut m = Modifier::new();
    m.apply_control_change(CC_MODULATION_WHEEL, 0);
    assert_eq!(m.scale, SCALE_FLOOR);
    m.apply_control_change(CC_MODULATION_WHEEL, 127);
    assert_eq!(m.scale, SCALE_CEIL);
}

#[test]
fn modulation_wheel_midway() {
    let mut m = Modifier::new();
    m.apply_control_change(CC_MODULATION_WHEEL, 64);
    // 1000 + 4000 * 64 / 127, roughly midway between floor and ceiling.
    assert_eq!(m.scale, 3015);
    assert_eq!(m.accelerator, ACCEL_FLOOR);
}

#[test]
fn remap_monotone_and_bounded() {
    let mut prev = SCALE_FLOOR;
    for v in 0..=127u8 {
        let mut m = Modifier::new();
        m.apply_control_change(CC_MODULATION_WHEEL, v);
        assert!(m.scale >= prev);
        assert!(SCALE_FLOOR <= m.scale && m.scale <= SCALE_CEIL);
        prev = m.scale;
    }
}

#[test]
fn accelerator_controller() {
    let mut m = Modifier::new();
    m.apply_control_change(CC_SOUND_CONTROLLER_5, 127);
    assert_eq!(m.accelerator, ACCEL_CEIL);
    assert_eq!(m.scale, SCALE_FLOOR);
}

#[test]
fn unrecognized_controller_ignored() {
    let mut m = Modifier::new();
    m.apply_control_change(7, 99);
    assert_eq!(m, Modifier::new());
}

#[test]
fn drift_is_bounded_and_circular() {
    let mut m = Modifier::new();
    for t in [0u64, 777, 1500, 3000, 4500, 59999, 123456789] {
        m.tick(t);
        assert!(m.center_shift.x.abs() <= 10_000);
        assert!(m.center_shift.y.abs() <= 10_000);
        assert_eq!(m.scale, SCALE_FLOOR);
    }
    // At time zero the drift phase is zero: full amplitude east.
    m.tick(0);
    assert_eq!(m.center_shift.x, 10_000);
    assert_eq!(m.center_shift.y, 0);
    // A quarter revolution later (250 milli-turns at 6 ms each).
    m.tick(1500);
    assert_eq!(m.center_shift.x, 0);
    assert_eq!(m.center_shift.y, 10_000);
}
