//! The per-entity state machines: orbiting particle, expanding ripple
//! and ambient free particle.
//!
//! Every entity is held from spawn until its note-off; while held its
//! lifetime counter never moves, and after release it falls by exactly
//! one per tick until the registry evicts it. Color is drawn once at
//! spawn and immutable thereafter. Each variant's one-step update is
//! pinned by a spec relation: exact for the deterministic variants, and
//! exact but for the freshly randomized target size of the free
//! particle.

use vstd::prelude::*;
use crate::geom::{Color, Vec2, smooth, smooth_spec, wave_cos, wave_sin, cos_milli, sin_milli};
use crate::modifier::Modifier;

verus! {

/// Orbit radius of a rotating particle, in milli-units.
pub const RADIUS_MILLI: i64 = 50_000;

/// Stroke weight every entity starts with, in milli-units.
pub const PARTICLE_SIZE: i64 = 2000;

/// Slowest spawn-time angular speed, in milli-turns per tick at the
/// neutral accelerator.
pub const SPEED_MIN: i64 = 10;

/// Fastest spawn-time angular speed.
pub const SPEED_MAX: i64 = 50;

/// Initial ring radius of a ripple, in milli-units.
pub const RIPPLE_START_ORBIT: i64 = 5_000;

/// Per-tick geometric growth of a ripple's ring, in milli-units
/// (1020 is a factor of 1.02).
pub const RIPPLE_GROWTH: i64 = 1020;

/// Cap on any ring or orbit radius, in milli-units.
pub const ORBIT_CAP: i64 = 1_000_000_000;

/// Orbit radius of a free particle around its shifting anchor.
pub const FREE_ORBIT: i64 = 30_000;

/// Smoothing rate of a free particle's chase, in thousandths per tick.
pub const FREE_CHASE: i64 = 50;

/// Smallest target size a free particle pulses toward.
pub const FREE_SIZE_MIN: i64 = 1_000;

/// Largest target size a free particle pulses toward.
pub const FREE_SIZE_MAX: i64 = 8_000;

/// Bound on a spawn center's coordinates: the viewport half-extent cap.
pub const CENTER_LIMIT: i64 = 1_000_000_000;

/// Bound on any computed position coordinate.
pub const POS_LIMIT: i64 = 1_100_000_000;

/// Relies on rand::random: one byte drawn from the thread-local
/// generator. Nothing is assumed of the value.
#[verifier::external_body]
fn random_u8() -> u8 {
    rand::random()
}

/// A color with each channel drawn independently at random.
fn rand_color() -> (c: Color) {
    Color { red: random_u8(), green: random_u8(), blue: random_u8() }
}

/// A random spawn-time angular speed, within its documented band.
fn rand_speed() -> (s: i64)
    ensures
        SPEED_MIN <= s <= SPEED_MAX,
{
    SPEED_MIN + ((random_u8() % 41) as i64)
}

/// A random target size for a free particle's pulse.
fn rand_size_target() -> (s: i64)
    ensures
        FREE_SIZE_MIN <= s <= FREE_SIZE_MAX,
{
    FREE_SIZE_MIN + ((random_u8() as i64) * (FREE_SIZE_MAX - FREE_SIZE_MIN)) / 255
}

/// One draw primitive of the per-frame snapshot handed to the external
/// compositor.
#[derive(Clone, Copy, PartialEq, Eq, Structural, Debug)]
pub enum DrawCommand {
    /// A stroke from the previous to the current position.
    Line { from: Vec2, to: Vec2, weight: i64, color: Color },
    /// A filled circle.
    Dot { at: Vec2, radius: i64, color: Color },
    /// An unfilled circle outline.
    Ring { at: Vec2, radius: i64, weight: i64, color: Color },
}

/// The orbit term of a position: a wave value in `[-1000, 1000]` times
/// the orbit radius, scaled by the modifier, all in milli-units.
pub open spec fn scaled_spec(t: int, orbit: int, scale: int) -> int {
    if t >= 0 {
        t * orbit * scale / 1000000
    } else {
        -((-t) * orbit * scale / 1000000)
    }
}

/// Computes [`scaled_spec`] without overflow.
fn scaled(t: i64, orbit: i64, scale: i64) -> (r: i64)
    requires
        -1000 <= t <= 1000,
        0 < orbit <= 100_000,
        1000 <= scale <= 5000,
    ensures
        r == scaled_spec(t as int, orbit as int, scale as int),
        -500_000 <= r <= 500_000,
{
    if t >= 0 {
        proof {
            assert(0 <= t * orbit <= 1000 * 100_000) by (nonlinear_arith)
                requires 0 <= t <= 1000 && 0 < orbit <= 100_000;
            assert(0 <= t * orbit * scale <= 1000 * 100_000 * 5000) by (nonlinear_arith)
                requires 0 <= t * orbit <= 1000 * 100_000 && 1000 <= scale <= 5000;
            assert(0 <= t * orbit * scale / 1000000 <= 500_000) by (nonlinear_arith)
                requires 0 <= t * orbit * scale <= 1000 * 100_000 * 5000;
        }
        t * orbit * scale / 1000000
    } else {
        let u = -t;
        proof {
            assert(0 <= u * orbit <= 1000 * 100_000) by (nonlinear_arith)
                requires 0 <= u <= 1000 && 0 < orbit <= 100_000;
            assert(0 <= u * orbit * scale <= 1000 * 100_000 * 5000) by (nonlinear_arith)
                requires 0 <= u * orbit <= 1000 * 100_000 && 1000 <= scale <= 5000;
            assert(0 <= u * orbit * scale / 1000000 <= 500_000) by (nonlinear_arith)
                requires 0 <= u * orbit * scale <= 1000 * 100_000 * 5000;
        }
        -(u * orbit * scale / 1000000)
    }
}

/// One phase advance: the spawn-time speed accelerated by the modifier,
/// wrapped to a turn.
pub open spec fn phase_step(phase: int, speed: int, accelerator: int) -> int {
    (phase + speed * accelerator / 1000) % 1000
}

/// Advances a phase without overflow.
fn advance_phase(phase: i64, speed: i64, accelerator: i64) -> (r: i64)
    requires
        0 <= phase < 1000,
        SPEED_MIN <= speed <= SPEED_MAX,
        1000 <= accelerator <= 5000,
    ensures
        r == phase_step(phase as int, speed as int, accelerator as int),
        0 <= r < 1000,
{
    proof {
        assert(10_000 <= speed * accelerator <= 250_000) by (nonlinear_arith)
            requires 10 <= speed <= 50 && 1000 <= accelerator <= 5000;
        assert(10 <= speed * accelerator / 1000 <= 250) by (nonlinear_arith)
            requires 10_000 <= speed * accelerator <= 250_000;
    }
    (phase + speed * accelerator / 1000) % 1000
}

/// A particle that orbits its spawn center: its angle advances by its
/// own speed times the accelerator, and its position is the drifted
/// center plus the scaled orbit.
#[derive(Clone, Copy, PartialEq, Eq, Structural, Debug)]
pub struct RotatingParticle {
    pub held: bool,
    pub position: Vec2,
    pub previous: Vec2,
    pub center: Vec2,
    pub size: i64,
    pub phase: i64,
    pub speed: i64,
    pub orbit: i64,
    pub color: Color,
    pub lifetime: i64,
}

impl RotatingParticle {
    /// Field bounds every operation preserves.
    pub open spec fn wf(&self) -> bool {
        &&& 0 <= self.phase < 1000
        &&& SPEED_MIN <= self.speed <= SPEED_MAX
        &&& 0 < self.orbit <= 100_000
        &&& 0 <= self.size <= 100_000
        &&& -CENTER_LIMIT <= self.center.x <= CENTER_LIMIT
        &&& -CENTER_LIMIT <= self.center.y <= CENTER_LIMIT
        &&& -POS_LIMIT <= self.position.x <= POS_LIMIT
        &&& -POS_LIMIT <= self.position.y <= POS_LIMIT
        &&& -POS_LIMIT <= self.previous.x <= POS_LIMIT
        &&& -POS_LIMIT <= self.previous.y <= POS_LIMIT
        &&& -1 <= self.lifetime <= 127
    }

    /// A fresh held particle at `center`, its lifetime seeded from the
    /// note-on velocity, its speed and color drawn at random.
    pub fn new(center: Vec2, velocity: u8) -> (p: RotatingParticle)
        requires
            -CENTER_LIMIT <= center.x <= CENTER_LIMIT,
            -CENTER_LIMIT <= center.y <= CENTER_LIMIT,
            velocity < 128,
        ensures
            p.wf(),
            p.held,
            p.lifetime == velocity as i64,
            p.center == center,
            p.position == center,
            p.previous == center,
            p.phase == 0,
            p.orbit == RADIUS_MILLI,
            p.size == PARTICLE_SIZE,
    {
        RotatingParticle {
            held: true,
            position: center,
            previous: center,
            center,
            size: PARTICLE_SIZE,
            phase: 0,
            speed: rand_speed(),
            orbit: RADIUS_MILLI,
            color: rand_color(),
            lifetime: velocity as i64,
        }
    }

    /// The deterministic one-step update of a rotating particle.
    pub open spec fn step_spec(p: RotatingParticle, m: Modifier) -> RotatingParticle {
        let phase = phase_step(p.phase as int, p.speed as int, m.accelerator as int);
        RotatingParticle {
            held: p.held,
            previous: p.position,
            position: Vec2 {
                x: (p.center.x + m.center_shift.x + scaled_spec(
                    wave_cos(phase),
                    p.orbit as int,
                    m.scale as int,
                )) as i64,
                y: (p.center.y + m.center_shift.y + scaled_spec(
                    wave_sin(phase),
                    p.orbit as int,
                    m.scale as int,
                )) as i64,
            },
            center: p.center,
            size: p.size,
            phase: phase as i64,
            speed: p.speed,
            orbit: p.orbit,
            color: p.color,
            lifetime: if p.held {
                p.lifetime
            } else {
                (p.lifetime - 1) as i64
            },
        }
    }

    /// Advances the particle one tick under the current modifier.
    pub fn update(&mut self, modifier: &Modifier)
        requires
            old(self).wf(),
            old(self).lifetime >= 0,
            modifier.wf(),
        ensures
            final(self).wf(),
            *final(self) == RotatingParticle::step_spec(*old(self), *modifier),
    {
        if !self.held {
            self.lifetime = self.lifetime - 1;
        }
        self.previous = self.position;
        self.phase = advance_phase(self.phase, self.speed, modifier.accelerator);
        let cx = cos_milli(self.phase);
        let sx = sin_milli(self.phase);
        let ox = scaled(cx, self.orbit, modifier.scale);
        let oy = scaled(sx, self.orbit, modifier.scale);
        self.position = Vec2 {
            x: self.center.x + modifier.center_shift.x + ox,
            y: self.center.y + modifier.center_shift.y + oy,
        };
    }

    /// The draw primitives of one frame: nothing on the first step
    /// (there is no prior position to connect), otherwise a stroke from
    /// the previous position and a dot at the current one.
    pub open spec fn draw_spec(p: RotatingParticle) -> Seq<DrawCommand> {
        if p.previous == p.center {
            Seq::empty()
        } else {
            seq![
                DrawCommand::Line { from: p.previous, to: p.position, weight: p.size, color: p.color },
                DrawCommand::Dot { at: p.position, radius: (p.size / 2) as i64, color: p.color },
            ]
        }
    }

    /// Snapshots this particle's draw primitives.
    pub fn draw(&self) -> (cmds: Vec<DrawCommand>)
        requires
            self.wf(),
        ensures
            cmds@ == RotatingParticle::draw_spec(*self),
    {
        let mut cmds: Vec<DrawCommand> = Vec::new();
        if self.previous == self.center {
            return cmds;
        }
        cmds.push(
            DrawCommand::Line {
                from: self.previous,
                to: self.position,
                weight: self.size,
                color: self.color,
            },
        );
        cmds.push(DrawCommand::Dot { at: self.position, radius: self.size / 2, color: self.color });
        proof {
            assert(cmds@ =~= RotatingParticle::draw_spec(*self));
        }
        cmds
    }
}

/// An expanding ring: no angular motion, only a geometric growth of its
/// radius each tick, capped so the radius stays representable.
#[derive(Clone, Copy, PartialEq, Eq, Structural, Debug)]
pub struct RippleCircle {
    pub held: bool,
    pub center: Vec2,
    pub size: i64,
    pub orbit: i64,
    pub color: Color,
    pub lifetime: i64,
}

impl RippleCircle {
    /// Field bounds every operation preserves.
    pub open spec fn wf(&self) -> bool {
        &&& 0 < self.orbit <= ORBIT_CAP
        &&& 0 <= self.size <= 100_000
        &&& -CENTER_LIMIT <= self.center.x <= CENTER_LIMIT
        &&& -CENTER_LIMIT <= self.center.y <= CENTER_LIMIT
        &&& -1 <= self.lifetime <= 127
    }

    /// A fresh held ripple at `center`, its lifetime seeded from the
    /// note-on velocity, its color drawn at random.
    pub fn new(center: Vec2, velocity: u8) -> (p: RippleCircle)
        requires
            -CENTER_LIMIT <= center.x <= CENTER_LIMIT,
            -CENTER_LIMIT <= center.y <= CENTER_LIMIT,
            velocity < 128,
        ensures
            p.wf(),
            p.held,
            p.lifetime == velocity as i64,
            p.center == center,
            p.orbit == RIPPLE_START_ORBIT,
            p.size == PARTICLE_SIZE,
    {
        RippleCircle {
            held: true,
            center,
            size: PARTICLE_SIZE,
            orbit: RIPPLE_START_ORBIT,
            color: rand_color(),
            lifetime: velocity as i64,
        }
    }

    /// The deterministic one-step update of a ripple: the ring grows by
    /// the growth factor, up to the cap; the modifier leaves it alone.
    pub open spec fn step_spec(p: RippleCircle) -> RippleCircle {
        let grown = p.orbit * RIPPLE_GROWTH / 1000;
        RippleCircle {
            held: p.held,
            center: p.center,
            size: p.size,
            orbit: if grown > ORBIT_CAP {
                ORBIT_CAP as i64
            } else {
                grown as i64
            },
            color: p.color,
            lifetime: if p.held {
                p.lifetime
            } else {
                (p.lifetime - 1) as i64
            },
        }
    }

    /// Advances the ripple one tick; the modifier does not affect it.
    pub fn update(&mut self, _modifier: &Modifier)
        requires
            old(self).wf(),
            old(self).lifetime >= 0,
        ensures
            final(self).wf(),
            *final(self) == RippleCircle::step_spec(*old(self)),
    {
        if !self.held {
            self.lifetime = self.lifetime - 1;
        }
        proof {
            assert(self.orbit * 1000 <= self.orbit * RIPPLE_GROWTH <= ORBIT_CAP * RIPPLE_GROWTH)
                by (nonlinear_arith)
                requires 0 < self.orbit <= ORBIT_CAP;
            assert(self.orbit <= self.orbit * RIPPLE_GROWTH / 1000) by (nonlinear_arith)
                requires self.orbit * 1000 <= self.orbit * RIPPLE_GROWTH;
        }
        let grown = self.orbit * RIPPLE_GROWTH / 1000;
        self.orbit = if grown > ORBIT_CAP {
            ORBIT_CAP
        } else {
            grown
        };
    }

    /// The draw primitives of one frame: one stroked ring.
    pub open spec fn draw_spec(p: RippleCircle) -> Seq<DrawCommand> {
        seq![DrawCommand::Ring { at: p.center, radius: p.orbit, weight: p.size, color: p.color }]
    }

    /// Snapshots this ripple's draw primitives.
    pub fn draw(&self) -> (cmds: Vec<DrawCommand>)
        ensures
            cmds@ == RippleCircle::draw_spec(*self),
    {
        let mut cmds: Vec<DrawCommand> = Vec::new();
        cmds.push(
            DrawCommand::Ring {
                at: self.center,
                radius: self.orbit,
                weight: self.size,
                color: self.color,
            },
        );
        proof {
            assert(cmds@ =~= RippleCircle::draw_spec(*self));
        }
        cmds
    }
}

/// An ambient particle that chases a drifting anchor by exponential
/// smoothing, orbits the smoothed anchor, and pulses its size toward a
/// target that is re-randomized every step.
#[derive(Clone, Copy, PartialEq, Eq, Structural, Debug)]
pub struct FreeParticle {
    pub held: bool,
    pub position: Vec2,
    pub previous: Vec2,
    pub anchor: Vec2,
    pub shift: Vec2,
    pub size: i64,
    pub size_target: i64,
    pub phase: i64,
    pub speed: i64,
    pub orbit: i64,
    pub color: Color,
    pub lifetime: i64,
}

impl FreeParticle {
    /// Field bounds every operation preserves.
    pub open spec fn wf(&self) -> bool {
        &&& 0 <= self.phase < 1000
        &&& SPEED_MIN <= self.speed <= SPEED_MAX
        &&& 0 < self.orbit <= 100_000
        &&& FREE_SIZE_MIN <= self.size <= FREE_SIZE_MAX
        &&& FREE_SIZE_MIN <= self.size_target <= FREE_SIZE_MAX
        &&& -CENTER_LIMIT <= self.anchor.x <= CENTER_LIMIT
        &&& -CENTER_LIMIT <= self.anchor.y <= CENTER_LIMIT
        &&& -(CENTER_LIMIT + 10_000) <= self.shift.x <= CENTER_LIMIT + 10_000
        &&& -(CENTER_LIMIT + 10_000) <= self.shift.y <= CENTER_LIMIT + 10_000
        &&& -POS_LIMIT <= self.position.x <= POS_LIMIT
        &&& -POS_LIMIT <= self.position.y <= POS_LIMIT
        &&& -POS_LIMIT <= self.previous.x <= POS_LIMIT
        &&& -POS_LIMIT <= self.previous.y <= POS_LIMIT
        &&& -1 <= self.lifetime <= 127
    }

    /// A fresh held free particle anchored at `anchor`, its lifetime
    /// seeded from the note-on velocity, its speed, color and first
    /// target size drawn at random.
    pub fn new(anchor: Vec2, velocity: u8) -> (p: FreeParticle)
        requires
            -CENTER_LIMIT <= anchor.x <= CENTER_LIMIT,
            -CENTER_LIMIT <= anchor.y <= CENTER_LIMIT,
            velocity < 128,
        ensures
            p.wf(),
            p.held,
            p.lifetime == velocity as i64,
            p.anchor == anchor,
            p.shift == anchor,
            p.position == anchor,
            p.previous == anchor,
            p.phase == 0,
            p.orbit == FREE_ORBIT,
    {
        FreeParticle {
            held: true,
            position: anchor,
            previous: anchor,
            anchor,
            shift: anchor,
            size: PARTICLE_SIZE,
            size_target: rand_size_target(),
            phase: 0,
            speed: rand_speed(),
            orbit: FREE_ORBIT,
            color: rand_color(),
            lifetime: velocity as i64,
        }
    }

    /// The one-step update relation of a free particle: everything is
    /// pinned exactly except the next target size, which is freshly
    /// random within its band.
    pub open spec fn step_ok(p: FreeParticle, q: FreeParticle, m: Modifier) -> bool {
        let tx = p.anchor.x + m.center_shift.x;
        let ty = p.anchor.y + m.center_shift.y;
        let sx = smooth_spec(p.shift.x as int, tx, FREE_CHASE as int);
        let sy = smooth_spec(p.shift.y as int, ty, FREE_CHASE as int);
        let phase = phase_step(p.phase as int, p.speed as int, m.accelerator as int);
        &&& q.held == p.held
        &&& q.lifetime == if p.held {
            p.lifetime as int
        } else {
            p.lifetime - 1
        }
        &&& q.previous == p.position
        &&& q.anchor == p.anchor
        &&& q.shift.x == sx
        &&& q.shift.y == sy
        &&& q.phase == phase
        &&& q.position.x == sx + scaled_spec(wave_cos(phase), p.orbit as int, m.scale as int)
        &&& q.position.y == sy + scaled_spec(wave_sin(phase), p.orbit as int, m.scale as int)
        &&& q.size == smooth_spec(p.size as int, p.size_target as int, FREE_CHASE as int)
        &&& FREE_SIZE_MIN <= q.size_target <= FREE_SIZE_MAX
        &&& q.speed == p.speed
        &&& q.orbit == p.orbit
        &&& q.color == p.color
    }

    /// Advances the free particle one tick under the current modifier.
    pub fn update(&mut self, modifier: &Modifier)
        requires
            old(self).wf(),
            old(self).lifetime >= 0,
            modifier.wf(),
        ensures
            final(self).wf(),
            FreeParticle::step_ok(*old(self), *final(self), *modifier),
    {
        if !self.held {
            self.lifetime = self.lifetime - 1;
        }
        self.previous = self.position;
        let tx = self.anchor.x + modifier.center_shift.x;
        let ty = self.anchor.y + modifier.center_shift.y;
        self.shift = Vec2 {
            x: smooth(self.shift.x, tx, FREE_CHASE),
            y: smooth(self.shift.y, ty, FREE_CHASE),
        };
        self.phase = advance_phase(self.phase, self.speed, modifier.accelerator);
        let cx = cos_milli(self.phase);
        let sx = sin_milli(self.phase);
        let ox = scaled(cx, self.orbit, modifier.scale);
        let oy = scaled(sx, self.orbit, modifier.scale);
        self.position = Vec2 { x: self.shift.x + ox, y: self.shift.y + oy };
        self.size = smooth(self.size, self.size_target, FREE_CHASE);
        self.size_target = rand_size_target();
    }

    /// The draw primitives of one frame: as for the rotating particle,
    /// nothing on the first step, then a stroke and a dot.
    pub open spec fn draw_spec(p: FreeParticle) -> Seq<DrawCommand> {
        if p.previous == p.anchor {
            Seq::empty()
        } else {
            seq![
                DrawCommand::Line { from: p.previous, to: p.position, weight: p.size, color: p.color },
                DrawCommand::Dot { at: p.position, radius: (p.size / 2) as i64, color: p.color },
            ]
        }
    }

    /// Snapshots this particle's draw primitives.
    pub fn draw(&self) -> (cmds: Vec<DrawCommand>)
        requires
            self.wf(),
        ensures
            cmds@ == FreeParticle::draw_spec(*self),
    {
        let mut cmds: Vec<DrawCommand> = Vec::new();
        if self.previous == self.anchor {
            return cmds;
        }
        cmds.push(
            DrawCommand::Line {
                from: self.previous,
                to: self.position,
                weight: self.size,
                color: self.color,
            },
        );
        cmds.push(DrawCommand::Dot { at: self.position, radius: self.size / 2, color: self.color });
        proof {
            assert(cmds@ =~= FreeParticle::draw_spec(*self));
        }
        cmds
    }
}

/// The tagged union over the three entity variants, with the uniform
/// update and draw-snapshot capabilities the registry works through.
#[derive(Clone, Copy, PartialEq, Eq, Structural, Debug)]
pub enum Entity {
    Rotating(RotatingParticle),
    Ripple(RippleCircle),
    Free(FreeParticle),
}

impl Entity {
    /// Field bounds of the underlying variant.
    pub open spec fn wf(&self) -> bool {
        match *self {
            Entity::Rotating(p) => p.wf(),
            Entity::Ripple(p) => p.wf(),
            Entity::Free(p) => p.wf(),
        }
    }

    /// Whether the spawning note is still held.
    pub open spec fn held_spec(&self) -> bool {
        match *self {
            Entity::Rotating(p) => p.held,
            Entity::Ripple(p) => p.held,
            Entity::Free(p) => p.held,
        }
    }

    /// The remaining lifetime counter.
    pub open spec fn lifetime_spec(&self) -> int {
        match *self {
            Entity::Rotating(p) => p.lifetime as int,
            Entity::Ripple(p) => p.lifetime as int,
            Entity::Free(p) => p.lifetime as int,
        }
    }

    /// Reads whether the spawning note is still held.
    pub fn held(&self) -> (r: bool)
        ensures
            r == self.held_spec(),
    {
        match *self {
            Entity::Rotating(p) => p.held,
            Entity::Ripple(p) => p.held,
            Entity::Free(p) => p.held,
        }
    }

    /// Reads the remaining lifetime counter.
    pub fn lifetime(&self) -> (r: i64)
        ensures
            r as int == self.lifetime_spec(),
    {
        match *self {
            Entity::Rotating(p) => p.lifetime,
            Entity::Ripple(p) => p.lifetime,
            Entity::Free(p) => p.lifetime,
        }
    }

    /// The one-step update relation of an entity: the variant is kept,
    /// and the variant's own step relation holds.
    pub open spec fn step_ok(pre: Entity, post: Entity, m: Modifier) -> bool {
        match (pre, post) {
            (Entity::Rotating(p), Entity::Rotating(q)) => q == RotatingParticle::step_spec(p, m),
            (Entity::Ripple(p), Entity::Ripple(q)) => q == RippleCircle::step_spec(p),
            (Entity::Free(p), Entity::Free(q)) => FreeParticle::step_ok(p, q, m),
            _ => false,
        }
    }

    /// Advances the entity one tick: while held the lifetime never
    /// moves, after release it falls by exactly one.
    pub fn update(&mut self, modifier: &Modifier)
        requires
            old(self).wf(),
            old(self).lifetime_spec() >= 0,
            modifier.wf(),
        ensures
            final(self).wf(),
            Entity::step_ok(*old(self), *final(self), *modifier),
            final(self).held_spec() == old(self).held_spec(),
            final(self).lifetime_spec() == if old(self).held_spec() {
                old(self).lifetime_spec()
            } else {
                old(self).lifetime_spec() - 1
            },
    {
        match self {
            Entity::Rotating(p) => p.update(modifier),
            Entity::Ripple(p) => p.update(modifier),
            Entity::Free(p) => p.update(modifier),
        }
    }

    /// The same entity with its held flag cleared; every other field
    /// is kept, so the decay countdown starts from the seeded lifetime.
    pub open spec fn released_spec(&self) -> Entity {
        match *self {
            Entity::Rotating(p) => Entity::Rotating(RotatingParticle { held: false, ..p }),
            Entity::Ripple(p) => Entity::Ripple(RippleCircle { held: false, ..p }),
            Entity::Free(p) => Entity::Free(FreeParticle { held: false, ..p }),
        }
    }

    /// Clears the held flag, leaving every other field alone.
    pub fn released(self) -> (r: Entity)
        ensures
            r == self.released_spec(),
            r.wf() == self.wf(),
            r.lifetime_spec() == self.lifetime_spec(),
            !r.held_spec(),
    {
        match self {
            Entity::Rotating(p) => Entity::Rotating(RotatingParticle { held: false, ..p }),
            Entity::Ripple(p) => Entity::Ripple(RippleCircle { held: false, ..p }),
            Entity::Free(p) => Entity::Free(FreeParticle { held: false, ..p }),
        }
    }

    /// The draw primitives of the underlying variant.
    pub open spec fn draw_spec(e: Entity) -> Seq<DrawCommand> {
        match e {
            Entity::Rotating(p) => RotatingParticle::draw_spec(p),
            Entity::Ripple(p) => RippleCircle::draw_spec(p),
            Entity::Free(p) => FreeParticle::draw_spec(p),
        }
    }

    /// Snapshots this entity's draw primitives.
    pub fn draw(&self) -> (cmds: Vec<DrawCommand>)
        requires
            self.wf(),
        ensures
            cmds@ == Entity::draw_spec(*self),
    {
        match self {
            Entity::Rotating(p) => p.draw(),
            Entity::Ripple(p) => p.draw(),
            Entity::Free(p) => p.draw(),
        }
    }
}

/// Law: across any run of steps, the held flag never changes; a held
/// entity's lifetime never moves, and a released entity's lifetime
/// falls by exactly one per step.
pub proof fn lemma_lifetime_law(states: Seq<Entity>, mods: Seq<Modifier>)
    requires
        states.len() >= 1,
        mods.len() == states.len() - 1,
        forall|i: int| 0 <= i < states.len() ==> (#[trigger] states[i]).wf(),
        forall|i: int|
            0 <= i < mods.len() ==> #[trigger] Entity::step_ok(states[i], states[i + 1], mods[i]),
    ensures
        forall|i: int| 0 <= i < states.len() ==> #[trigger] states[i].held_spec() == states[0].held_spec(),
        states[0].held_spec() ==> forall|i: int|
            0 <= i < states.len() ==> #[trigger] states[i].lifetime_spec() == states[0].lifetime_spec(),
        !states[0].held_spec() ==> forall|i: int|
            0 <= i < states.len() ==> #[trigger] states[i].lifetime_spec() == states[0].lifetime_spec() - i,
    decreases states.len(),
{
    if states.len() > 1 {
        let n = states.len() - 1;
        let init = states.drop_last();
        let minit = mods.drop_last();
        assert forall|i: int| 0 <= i < minit.len() implies #[trigger] Entity::step_ok(
            init[i],
            init[i + 1],
            minit[i],
        ) by {
            assert(Entity::step_ok(states[i], states[i + 1], mods[i]));
        }
        lemma_lifetime_law(init, minit);
        assert(Entity::step_ok(states[n - 1], states[n - 1 + 1], mods[n - 1]));
        assert(forall|i: int| 0 <= i < n ==> states[i] == init[i]);
        assert(states[n - 1].held_spec() == states[0].held_spec());
        if states[0].held_spec() {
            assert forall|i: int| 0 <= i < states.len() implies #[trigger] states[i].lifetime_spec()
                == states[0].lifetime_spec() by {
                if i < n {
                    assert(init[i].lifetime_spec() == init[0].lifetime_spec());
                } else {
                    assert(states[n - 1].lifetime_spec() == states[0].lifetime_spec());
                }
            }
        } else {
            assert forall|i: int| 0 <= i < states.len() implies #[trigger] states[i].lifetime_spec()
                == states[0].lifetime_spec() - i by {
                if i < n {
                    assert(init[i].lifetime_spec() == init[0].lifetime_spec() - i);
                } else {
                    assert(states[n - 1].lifetime_spec() == states[0].lifetime_spec() - (n - 1));
                }
            }
        }
    }
}

} // verus!
