use midi_particles::geom::Vec2;
use midi_particles::modifier::Modifier;
use midi_particles::particles::{Entity, RotatingParticle};
use midi_particles::registry::Registry;

fn rotating_at(x: i64, y: i64, velocity: u8) -> Entity {
    Entity::Rotating(RotatingParticle::new(Vec2 { x, y }, velocity))
}

fn lifetime_at(r: &Registry, key: u8) -> Option<i64> {
    r.get(key).map(|e| e.lifetime())
}

#[test]
fn spawn_seeds_lifetime_from_velocity() {
    for v in [0u8, 1, 64, 127] {
        let mut r = Registry::new();
        r.spawn(60, rotating_at(0, 0, v));
        assert_eq!(lifetime_at(&r, 60), Some(v as i64));
    }
}

#[test]
fn release_of_missing_key_is_noop() {
    let mut r = Registry::new();
    r.spawn(60, rotating_at(5, 6, 100));
    let before = r.get(60);
    assert_eq!(r.live_count(), 1);
    r.release(61);
    assert_eq!(r.live_count(), 1);
    assert_eq!(r.get(60), before);
    assert_eq!(r.get(61), None);
}

#[test]
fn respawn_replaces_the_entity() {
    let mut r = Registry::new();
    r.spawn(60, rotating_at(100, 100, 100));
    r.release(60);
    r.spawn(60, rotating_at(-3_000, 4_000, 50));
    assert_eq!(r.live_count(), 1);
    match r.get(60) {
        Some(Entity::Rotating(p)) => {
            assert!(p.held);
            assert_eq!(p.lifetime, 50);
            assert_eq!(p.center, Vec2 { x: -3_000, y: 4_000 });
            assert_eq!(p.position, p.center);
        }
        other => panic!("expected a rotating particle, got {:?}", other),
    }
}

#[test]
fn held_lifetime_never_decrements() {
    let mut r = Registry::new();
    r.spawn(60, rotating_at(0, 0, 100));
    let m = Modifier::new();
    for _ in 0..25 {
        r.tick_all(&m);
        r.evict_expired();
    }
    assert_eq!(lifetime_at(&r, 60), Some(100));
}

#[test]
fn released_lifetime_falls_by_one_per_tick() {
    let mut r = Registry::new();
    r.spawn(60, rotating_at(0, 0, 100));
    r.release(60);
    let m = Modifier::new();
    for expected in (97..=99).rev() {
        r.tick_all(&m);
        assert_eq!(lifetime_at(&r, 60), Some(expected));
    }
}

#[test]
fn eviction_is_exact() {
    let mut r = Registry::new();
    r.spawn(60, rotating_at(0, 0, 2));
    r.release(60);
    let m = Modifier::new();
    r.tick_all(&m);
    r.evict_expired();
    // Lifetime fell to 1: still present.
    assert_eq!(lifetime_at(&r, 60), Some(1));
    r.tick_all(&m);
    r.evict_expired();
    // Lifetime reached 0: gone the same tick.
    assert_eq!(r.get(60), None);
    assert_eq!(r.live_count(), 0);
}

#[test]
fn zero_velocity_entity_is_evicted_at_once() {
    let mut r = Registry::new();
    r.spawn(60, rotating_at(0, 0, 0));
    assert_eq!(r.live_count(), 1);
    r.evict_expired();
    assert_eq!(r.live_count(), 0);
}
