use midi_particles::engine::{Engine, Kind};
use midi_particles::mapper::Viewport;
use midi_particles::particles::{Entity, DrawCommand, RIPPLE_START_ORBIT};

fn viewport() -> Viewport {
    Viewport { half_width: 500_000, half_height: 400_000 }
}

#[test]
fn end_to_end_note_cycle() {
    let mut engine = Engine::new(viewport());

    // Note-on on channel one spawns an orbiting particle.
    let r = engine.process_frame(&[0x90, 60, 100]);
    assert!(r.is_ok());
    match engine.rotating.get(60) {
        Some(Entity::Rotating(p)) => {
            assert!(p.held);
            assert_eq!(p.lifetime, 100);
        }
        other => panic!("expected a rotating particle, got {:?}", other),
    }

    // The modulation wheel at 64 lands roughly midway up the scale.
    let r = engine.process_frame(&[0xB0, 1, 64]);
    assert!(r.is_ok());
    assert_eq!(engine.modifier.scale, 3015);

    // Note-off releases the entity without removing it.
    let r = engine.process_frame(&[0x80, 60, 0]);
    assert!(r.is_ok());
    match engine.rotating.get(60) {
        Some(e) => assert!(!e.held()),
        None => panic!("released entity must still be live"),
    }

    // The entity survives exactly 100 post-release ticks.
    let mut t: u64 = 0;
    for _ in 0..99 {
        t += 16;
        engine.tick(t);
        assert!(engine.rotating.get(60).is_some());
    }
    t += 16;
    engine.tick(t);
    assert!(engine.rotating.get(60).is_none());
}

#[test]
fn other_channels_spawn_ripples() {
    let mut engine = Engine::new(viewport());
    let r = engine.process_frame(&[0x91, 60, 100]);
    assert!(r.is_ok());
    assert!(engine.rotating.get(60).is_none());
    match engine.ripple.get(60) {
        Some(Entity::Ripple(p)) => {
            assert!(p.held);
            assert_eq!(p.orbit, RIPPLE_START_ORBIT);
        }
        other => panic!("expected a ripple, got {:?}", other),
    }
}

#[test]
fn note_off_without_entity_is_harmless() {
    let mut engine = Engine::new(viewport());
    engine.process_frame(&[0x90, 40, 90]).unwrap();
    let r = engine.process_frame(&[0x80, 10, 0]);
    assert!(r.is_ok());
    assert_eq!(engine.rotating.live_count(), 1);
    assert_eq!(engine.ripple.live_count(), 0);
}

#[test]
fn malformed_frames_change_nothing() {
    let mut engine = Engine::new(viewport());
    engine.process_frame(&[0x90, 40, 90]).unwrap();
    engine.process_frame(&[0xB0, 1, 64]).unwrap();
    let scale = engine.modifier.scale;
    let before = engine.rotating.get(40);
    for frame in [&[0x90u8, 200, 1][..], &[0x90, 60][..], &[][..], &[33, 44][..]] {
        let r = engine.process_frame(frame);
        assert!(r.is_err());
        assert_eq!(engine.modifier.scale, scale);
        assert_eq!(engine.rotating.get(40), before);
        assert_eq!(engine.rotating.live_count(), 1);
    }
}

#[test]
fn other_events_change_nothing() {
    let mut engine = Engine::new(viewport());
    engine.process_frame(&[0x90, 40, 90]).unwrap();
    let before = engine.rotating.get(40);
    let r = engine.process_frame(&[0xF8]);
    assert!(r.is_ok());
    assert_eq!(engine.rotating.get(40), before);
}

#[test]
fn replacement_assigns_fresh_fields() {
    let mut engine = Engine::new(viewport());
    engine.process_frame(&[0x90, 60, 100]).unwrap();
    engine.process_frame(&[0x80, 60, 0]).unwrap();
    engine.tick(16);
    // A second note-on for the live key replaces the decaying entity.
    engine.process_frame(&[0x90, 60, 31]).unwrap();
    match engine.rotating.get(60) {
        Some(Entity::Rotating(p)) => {
            assert!(p.held);
            assert_eq!(p.lifetime, 31);
            assert_eq!(p.position, p.center);
        }
        other => panic!("expected a rotating particle, got {:?}", other),
    }
    assert_eq!(engine.rotating.live_count(), 1);
}

#[test]
fn draw_snapshot_skips_first_rotating_step() {
    let mut engine = Engine::new(viewport());
    engine.process_frame(&[0x90, 60, 100]).unwrap();
    // No prior position to connect: nothing is drawn yet.
    assert_eq!(engine.draw_commands().len(), 0);
    engine.tick(16);
    // After one step the previous position still equals the center.
    assert_eq!(engine.draw_commands().len(), 0);
    engine.tick(32);
    // From the second step on, a stroke and a dot appear.
    let cmds = engine.draw_commands();
    assert_eq!(cmds.len(), 2);
    assert!(matches!(cmds[0], DrawCommand::Line { .. }));
    assert!(matches!(cmds[1], DrawCommand::Dot { .. }));
}

#[test]
fn ripple_ring_grows_geometrically() {
    let mut engine = Engine::new(viewport());
    engine.process_frame(&[0x91, 60, 100]).unwrap();
    let cmds = engine.draw_commands();
    assert_eq!(cmds.len(), 1);
    match cmds[0] {
        DrawCommand::Ring { radius, .. } => assert_eq!(radius, RIPPLE_START_ORBIT),
        other => panic!("expected a ring, got {:?}", other),
    }
    engine.tick(16);
    match engine.draw_commands()[0] {
        DrawCommand::Ring { radius, .. } => assert_eq!(radius, RIPPLE_START_ORBIT * 1020 / 1000),
        other => panic!("expected a ring, got {:?}", other),
    }
}

#[test]
fn free_particle_chases_the_drifting_anchor() {
    let mut engine = Engine::new(viewport());
    engine.spawn(Kind::Free, 10, 80);
    let (anchor, shift0) = match engine.free.get(10) {
        Some(Entity::Free(p)) => (p.anchor, p.shift),
        other => panic!("expected a free particle, got {:?}", other),
    };
    assert_eq!(anchor, shift0);
    // At host time zero the drift pulls east: the smoothed anchor moves
    // 50 thousandths of the 10_000 milli-unit gap.
    engine.tick(0);
    match engine.free.get(10) {
        Some(Entity::Free(p)) => {
            assert_eq!(p.shift.x, anchor.x + 500);
            assert_eq!(p.shift.y, anchor.y);
            assert!(p.held);
            assert_eq!(p.lifetime, 80);
        }
        other => panic!("expected a free particle, got {:?}", other),
    }
}
