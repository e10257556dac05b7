//! The simulation engine: the whole mutable state of one run and the
//! per-tick control flow over it.
//!
//! Once per frame the host drains its event queue and hands each raw
//! frame to [`Engine::process_frame`]; a malformed frame leaves the
//! state untouched. The host then calls [`Engine::tick`] with its
//! clock, which recomputes the drift, advances every live entity one
//! step under the current modifier, and evicts every entity whose
//! lifetime is exhausted — so at every tick boundary each live entity
//! has positive lifetime. [`Engine::draw_commands`] is the read-only
//! per-frame snapshot the external compositor consumes.

use vstd::prelude::*;
use crate::geom::Vec2;
use crate::mapper::{Viewport, map_coords, map_x_spec, map_y_spec};
use crate::midi::{DecodeError, MidiEvent, decode, decode_spec, event_wf};
use crate::modifier::{Modifier, cc_spec, drift_x, drift_y};
use crate::particles::{
    DrawCommand, Entity, FreeParticle, RippleCircle, RotatingParticle, FREE_ORBIT, PARTICLE_SIZE,
    RADIUS_MILLI, RIPPLE_START_ORBIT,
};
use crate::registry::{KEY_SPACE, Registry, draws_of};

verus! {

/// Channel index whose notes drive the rotating-particle registry
/// (index 0 is MIDI channel one); every other channel drives the
/// ripples.
pub const ROTATING_CHANNEL: u8 = 0;

/// Which entity variant — and so which registry — a spawn addresses.
#[derive(Clone, Copy, PartialEq, Eq, Structural, Debug)]
pub enum Kind {
    Rotating,
    Ripple,
    Free,
}

/// The spawn point of a note, under the piecewise coordinate mapping.
pub open spec fn spawn_center(note: u8, velocity: u8, vp: Viewport) -> Vec2 {
    Vec2 {
        x: map_x_spec(note as int, vp.half_width as int) as i64,
        y: map_y_spec(note as int, velocity as int, vp.half_height as int) as i64,
    }
}

/// What a fresh entity of a kind looks like: held, its lifetime seeded
/// from the velocity, at its spawn center, with the variant's initial
/// shape. Speed, color and target size are random and only bounded by
/// well-formedness.
pub open spec fn spawned_entity_ok(e: Entity, kind: Kind, center: Vec2, velocity: u8) -> bool {
    match (kind, e) {
        (Kind::Rotating, Entity::Rotating(p)) => {
            &&& p.held
            &&& p.lifetime == velocity as i64
            &&& p.center == center
            &&& p.position == center
            &&& p.previous == center
            &&& p.phase == 0
            &&& p.orbit == RADIUS_MILLI
            &&& p.size == PARTICLE_SIZE
        },
        (Kind::Ripple, Entity::Ripple(p)) => {
            &&& p.held
            &&& p.lifetime == velocity as i64
            &&& p.center == center
            &&& p.orbit == RIPPLE_START_ORBIT
            &&& p.size == PARTICLE_SIZE
        },
        (Kind::Free, Entity::Free(p)) => {
            &&& p.held
            &&& p.lifetime == velocity as i64
            &&& p.anchor == center
            &&& p.shift == center
            &&& p.position == center
            &&& p.previous == center
            &&& p.phase == 0
            &&& p.orbit == FREE_ORBIT
        },
        _ => false,
    }
}

/// The engine: three per-variant registries, the global modifier and
/// the viewport, owned exclusively by the simulation tick.
pub struct Engine {
    pub rotating: Registry,
    pub ripple: Registry,
    pub free: Registry,
    pub modifier: Modifier,
    pub viewport: Viewport,
}

/// What a spawn does to the whole engine: the addressed registry gets a
/// fresh entity at `key`, everything else is untouched.
pub open spec fn spawn_applied(pre: Engine, post: Engine, kind: Kind, key: u8, velocity: u8) -> bool {
    let center = spawn_center(key, velocity, pre.viewport);
    &&& post.modifier == pre.modifier
    &&& post.viewport == pre.viewport
    &&& match kind {
        Kind::Rotating => {
            &&& post.rotating@ == pre.rotating@.update(key as int, post.rotating@[key as int])
            &&& post.rotating@[key as int] matches Some(e) && spawned_entity_ok(e, kind, center, velocity)
            &&& post.ripple@ == pre.ripple@
            &&& post.free@ == pre.free@
        },
        Kind::Ripple => {
            &&& post.ripple@ == pre.ripple@.update(key as int, post.ripple@[key as int])
            &&& post.ripple@[key as int] matches Some(e) && spawned_entity_ok(e, kind, center, velocity)
            &&& post.rotating@ == pre.rotating@
            &&& post.free@ == pre.free@
        },
        Kind::Free => {
            &&& post.free@ == pre.free@.update(key as int, post.free@[key as int])
            &&& post.free@[key as int] matches Some(e) && spawned_entity_ok(e, kind, center, velocity)
            &&& post.rotating@ == pre.rotating@
            &&& post.ripple@ == pre.ripple@
        },
    }
}

/// What a release does to the whole engine: the entity at `key` in the
/// addressed registry (if any) has its held flag cleared; a key with no
/// live entity changes nothing at all.
pub open spec fn release_applied(pre: Engine, post: Engine, kind: Kind, key: u8) -> bool {
    &&& post.modifier == pre.modifier
    &&& post.viewport == pre.viewport
    &&& match kind {
        Kind::Rotating => {
            &&& pre.rotating@[key as int] is None ==> post.rotating@ == pre.rotating@
            &&& pre.rotating@[key as int] matches Some(e) ==> post.rotating@
                == pre.rotating@.update(key as int, Some(e.released_spec()))
            &&& post.ripple@ == pre.ripple@
            &&& post.free@ == pre.free@
        },
        Kind::Ripple => {
            &&& pre.ripple@[key as int] is None ==> post.ripple@ == pre.ripple@
            &&& pre.ripple@[key as int] matches Some(e) ==> post.ripple@ == pre.ripple@.update(
                key as int,
                Some(e.released_spec()),
            )
            &&& post.rotating@ == pre.rotating@
            &&& post.free@ == pre.free@
        },
        Kind::Free => {
            &&& pre.free@[key as int] is None ==> post.free@ == pre.free@
            &&& pre.free@[key as int] matches Some(e) ==> post.free@ == pre.free@.update(
                key as int,
                Some(e.released_spec()),
            )
            &&& post.rotating@ == pre.rotating@
            &&& post.ripple@ == pre.ripple@
        },
    }
}

/// What one decoded event does to the whole engine: a control change
/// reshapes the modifier, a note-on spawns (channel-routed to rotating
/// or ripple), a note-off releases, and anything else is ignored.
pub open spec fn event_applied(pre: Engine, post: Engine, event: MidiEvent) -> bool {
    match event {
        MidiEvent::ControlChange { channel: _, controller, value } => {
            &&& post.rotating@ == pre.rotating@
            &&& post.ripple@ == pre.ripple@
            &&& post.free@ == pre.free@
            &&& post.viewport == pre.viewport
            &&& cc_spec(pre.modifier, post.modifier, controller, value)
        },
        MidiEvent::NoteOn { channel, note, velocity } => {
            let kind = if channel == ROTATING_CHANNEL {
                Kind::Rotating
            } else {
                Kind::Ripple
            };
            spawn_applied(pre, post, kind, note, velocity)
        },
        MidiEvent::NoteOff { channel, note, velocity: _ } => {
            let kind = if channel == ROTATING_CHANNEL {
                Kind::Rotating
            } else {
                Kind::Ripple
            };
            release_applied(pre, post, kind, note)
        },
        MidiEvent::Other => post == pre,
    }
}

/// What one tick does to one registry's snapshot: every live entity is
/// replaced by one step of its state machine, and survives exactly when
/// the stepped lifetime is still positive.
pub open spec fn ticked_registry(
    pre: Seq<Option<Entity>>,
    post: Seq<Option<Entity>>,
    m: Modifier,
) -> bool {
    &&& post.len() == KEY_SPACE
    &&& forall|k: int|
        0 <= k < KEY_SPACE ==> match #[trigger] pre[k] {
            None => post[k] is None,
            Some(p) => exists|q: Entity|
                #[trigger] Entity::step_ok(p, q, m) && post[k] == (if q.lifetime_spec() > 0 {
                    Some(q)
                } else {
                    None
                }),
        }
}

impl Engine {
    /// The registries hold well-formed entities with non-negative
    /// lifetimes, and modifier and viewport are in range.
    pub open spec fn wf(&self) -> bool {
        &&& self.rotating.wf() && self.rotating.all_nonneg()
        &&& self.ripple.wf() && self.ripple.all_nonneg()
        &&& self.free.wf() && self.free.all_nonneg()
        &&& self.modifier.wf()
        &&& self.viewport.wf()
    }

    /// A fresh engine over a viewport: empty registries and a neutral
    /// modifier.
    pub fn new(viewport: Viewport) -> (r: Engine)
        requires
            viewport.wf(),
        ensures
            r.wf(),
            r.viewport == viewport,
            r.modifier.scale == crate::modifier::SCALE_FLOOR,
            r.modifier.accelerator == crate::modifier::ACCEL_FLOOR,
            r.modifier.center_shift == (Vec2 { x: 0, y: 0 }),
            forall|k: int| 0 <= k < KEY_SPACE ==> #[trigger] r.rotating@[k] is None,
            forall|k: int| 0 <= k < KEY_SPACE ==> #[trigger] r.ripple@[k] is None,
            forall|k: int| 0 <= k < KEY_SPACE ==> #[trigger] r.free@[k] is None,
    {
        Engine {
            rotating: Registry::new(),
            ripple: Registry::new(),
            free: Registry::new(),
            modifier: Modifier::new(),
            viewport,
        }
    }

    /// Spawns a fresh entity of `kind` at `key`, mapped to its spawn
    /// point by note and velocity; an entity already at `key` is
    /// replaced outright.
    pub fn spawn(&mut self, kind: Kind, key: u8, velocity: u8)
        requires
            old(self).wf(),
            key < 128,
            velocity < 128,
        ensures
            final(self).wf(),
            spawn_applied(*old(self), *final(self), kind, key, velocity),
    {
        let center = map_coords(key, velocity, &self.viewport);
        match kind {
            Kind::Rotating => {
                let e = Entity::Rotating(RotatingParticle::new(center, velocity));
                self.rotating.spawn(key, e);
            },
            Kind::Ripple => {
                let e = Entity::Ripple(RippleCircle::new(center, velocity));
                self.ripple.spawn(key, e);
            },
            Kind::Free => {
                let e = Entity::Free(FreeParticle::new(center, velocity));
                self.free.spawn(key, e);
            },
        }
    }

    /// Clears the held flag of the entity of `kind` at `key`; a key
    /// with no live entity is a harmless no-op.
    pub fn release(&mut self, kind: Kind, key: u8)
        requires
            old(self).wf(),
            key < 128,
        ensures
            final(self).wf(),
            release_applied(*old(self), *final(self), kind, key),
    {
        match kind {
            Kind::Rotating => self.rotating.release(key),
            Kind::Ripple => self.ripple.release(key),
            Kind::Free => self.free.release(key),
        }
    }

    /// Routes one decoded event: control changes reshape the modifier,
    /// note-ons spawn (channel one rotates, the rest ripple), note-offs
    /// release, and unrecognized events are ignored.
    pub fn handle_event(&mut self, event: MidiEvent)
        requires
            old(self).wf(),
            event_wf(event),
        ensures
            final(self).wf(),
            event_applied(*old(self), *final(self), event),
    {
        match event {
            MidiEvent::ControlChange { channel: _, controller, value } => {
                self.modifier.apply_control_change(controller, value);
            },
            MidiEvent::NoteOn { channel, note, velocity } => {
                let kind = if channel == ROTATING_CHANNEL {
                    Kind::Rotating
                } else {
                    Kind::Ripple
                };
                self.spawn(kind, note, velocity);
            },
            MidiEvent::NoteOff { channel, note, velocity: _ } => {
                let kind = if channel == ROTATING_CHANNEL {
                    Kind::Rotating
                } else {
                    Kind::Ripple
                };
                self.release(kind, note);
            },
            MidiEvent::Other => (),
        }
    }

    /// Decodes one raw frame and applies its event. A malformed frame
    /// is reported and leaves the whole state exactly as it was — it
    /// never produces a spurious event.
    pub fn process_frame(&mut self, bytes: &[u8]) -> (r: Result<MidiEvent, DecodeError>)
        requires
            old(self).wf(),
        ensures
            final(self).wf(),
            r == decode_spec(bytes@),
            r is Err ==> *final(self) == *old(self),
            r matches Ok(e) ==> event_applied(*old(self), *final(self), e),
    {
        match decode(bytes) {
            Err(err) => Err(err),
            Ok(event) => {
                self.handle_event(event);
                Ok(event)
            },
        }
    }

    /// One simulation tick: the drift is recomputed from the host
    /// clock, every live entity advances one step under the current
    /// modifier, and every exhausted entity is evicted — afterwards
    /// every live entity has positive lifetime.
    pub fn tick(&mut self, elapsed_millis: u64)
        requires
            old(self).wf(),
        ensures
            final(self).wf(),
            final(self).viewport == old(self).viewport,
            final(self).modifier.scale == old(self).modifier.scale,
            final(self).modifier.accelerator == old(self).modifier.accelerator,
            final(self).modifier.center_shift.x == drift_x(elapsed_millis as int),
            final(self).modifier.center_shift.y == drift_y(elapsed_millis as int),
            ticked_registry(old(self).rotating@, final(self).rotating@, final(self).modifier),
            ticked_registry(old(self).ripple@, final(self).ripple@, final(self).modifier),
            ticked_registry(old(self).free@, final(self).free@, final(self).modifier),
            final(self).rotating.all_positive(),
            final(self).ripple.all_positive(),
            final(self).free.all_positive(),
    {
        self.modifier.tick(elapsed_millis);
        let ghost pre_rot = self.rotating@;
        let ghost pre_rip = self.ripple@;
        let ghost pre_free = self.free@;
        self.rotating.tick_all(&self.modifier);
        self.ripple.tick_all(&self.modifier);
        self.free.tick_all(&self.modifier);
        let ghost mid_rot = self.rotating@;
        let ghost mid_rip = self.ripple@;
        let ghost mid_free = self.free@;
        self.rotating.evict_expired();
        self.ripple.evict_expired();
        self.free.evict_expired();
        proof {
            let m = self.modifier;
            assert forall|k: int| 0 <= k < KEY_SPACE implies match #[trigger] pre_rot[k] {
                None => self.rotating@[k] is None,
                Some(p) => exists|q: Entity|
                    #[trigger] Entity::step_ok(p, q, m) && self.rotating@[k] == (
                    if q.lifetime_spec() > 0 {
                        Some(q)
                    } else {
                        None
                    }),
            } by {
                match pre_rot[k] {
                    None => (),
                    Some(p) => {
                        let q = mid_rot[k]->Some_0;
                        assert(Entity::step_ok(p, q, m));
                    },
                }
            }
            assert forall|k: int| 0 <= k < KEY_SPACE implies match #[trigger] pre_rip[k] {
                None => self.ripple@[k] is None,
                Some(p) => exists|q: Entity|
                    #[trigger] Entity::step_ok(p, q, m) && self.ripple@[k] == (
                    if q.lifetime_spec() > 0 {
                        Some(q)
                    } else {
                        None
                    }),
            } by {
                match pre_rip[k] {
                    None => (),
                    Some(p) => {
                        let q = mid_rip[k]->Some_0;
                        assert(Entity::step_ok(p, q, m));
                    },
                }
            }
            assert forall|k: int| 0 <= k < KEY_SPACE implies match #[trigger] pre_free[k] {
                None => self.free@[k] is None,
                Some(p) => exists|q: Entity|
                    #[trigger] Entity::step_ok(p, q, m) && self.free@[k] == (
                    if q.lifetime_spec() > 0 {
                        Some(q)
                    } else {
                        None
                    }),
            } by {
                match pre_free[k] {
                    None => (),
                    Some(p) => {
                        let q = mid_free[k]->Some_0;
                        assert(Entity::step_ok(p, q, m));
                    },
                }
            }
        }
    }

    /// Snapshots the draw primitives of every live entity, rotating
    /// particles first, then ripples, then free particles, each in key
    /// order.
    pub fn draw_commands(&self) -> (cmds: Vec<DrawCommand>)
        requires
            self.wf(),
        ensures
            cmds@ == draws_of(self.rotating@) + draws_of(self.ripple@) + draws_of(self.free@),
    {
        let mut cmds: Vec<DrawCommand> = Vec::new();
        self.rotating.draw_commands(&mut cmds);
        self.ripple.draw_commands(&mut cmds);
        self.free.draw_commands(&mut cmds);
        proof {
            assert(cmds@ =~= draws_of(self.rotating@) + draws_of(self.ripple@) + draws_of(
                self.free@,
            ));
        }
        cmds
    }
}

} // verus!

