//! The keyed live-entity store of one visual variant.
//!
//! Keys are 7-bit note numbers, so the registry is a dense arena of 128
//! slots. A note-on inserts or replaces the slot's entity
//! (last-writer-wins); a note-off clears its held flag, and is a no-op
//! when the slot is empty; one tick advances every live entity under
//! the current modifier; and an eviction pass then removes every entity
//! whose lifetime is exhausted, so an entity is present exactly while
//! its lifetime is positive.

use vstd::prelude::*;
use crate::modifier::Modifier;
use crate::particles::{DrawCommand, Entity};

verus! {

/// Number of slots: one per 7-bit note number.
pub const KEY_SPACE: usize = 128;

/// How many slots of a snapshot are occupied.
pub open spec fn count_live(s: Seq<Option<Entity>>) -> int
    decreases s.len(),
{
    if s.len() == 0 {
        0
    } else {
        count_live(s.drop_last()) + if s.last() is Some {
            1int
        } else {
            0int
        }
    }
}

/// The draw primitives of every occupied slot, in key order.
pub open spec fn draws_of(s: Seq<Option<Entity>>) -> Seq<DrawCommand>
    decreases s.len(),
{
    if s.len() == 0 {
        Seq::empty()
    } else {
        draws_of(s.drop_last()) + match s.last() {
            Some(e) => Entity::draw_spec(e),
            None => Seq::empty(),
        }
    }
}

/// A keyed store of live entities, viewed as its sequence of slots.
pub struct Registry {
    slots: Vec<Option<Entity>>,
}

impl View for Registry {
    type V = Seq<Option<Entity>>;

    closed spec fn view(&self) -> Seq<Option<Entity>> {
        self.slots@
    }
}

impl Registry {
    /// There is one slot per key and every live entity is well-formed.
    pub open spec fn wf(&self) -> bool {
        &&& self@.len() == KEY_SPACE
        &&& forall|k: int|
            0 <= k < KEY_SPACE ==> match #[trigger] self@[k] {
                Some(e) => e.wf(),
                None => true,
            }
    }

    /// No live entity's lifetime has gone negative.
    pub open spec fn all_nonneg(&self) -> bool {
        forall|k: int|
            0 <= k < self@.len() ==> match #[trigger] self@[k] {
                Some(e) => e.lifetime_spec() >= 0,
                None => true,
            }
    }

    /// Every live entity's lifetime is still positive.
    pub open spec fn all_positive(&self) -> bool {
        forall|k: int|
            0 <= k < self@.len() ==> match #[trigger] self@[k] {
                Some(e) => e.lifetime_spec() > 0,
                None => true,
            }
    }

    /// An empty registry: every slot free.
    pub fn new() -> (r: Registry)
        ensures
            r.wf(),
            r.all_positive(),
            forall|k: int| 0 <= k < KEY_SPACE ==> #[trigger] r@[k] is None,
    {
        let mut slots: Vec<Option<Entity>> = Vec::new();
        let mut k: usize = 0;
        while k < KEY_SPACE
            invariant
                k <= KEY_SPACE,
                slots@.len() == k,
                forall|j: int| 0 <= j < k ==> #[trigger] slots@[j] is None,
            decreases KEY_SPACE - k,
        {
            slots.push(None);
            k = k + 1;
        }
        Registry { slots }
    }

    /// Reads the slot of one key.
    pub fn get(&self, key: u8) -> (r: Option<Entity>)
        requires
            self.wf(),
            key < 128,
        ensures
            r == self@[key as int],
    {
        self.slots[key as usize]
    }

    /// How many entities are live.
    pub fn live_count(&self) -> (n: usize)
        requires
            self.wf(),
        ensures
            n == count_live(self@),
    {
        let mut n: usize = 0;
        let mut k: usize = 0;
        while k < KEY_SPACE
            invariant
                self.wf(),
                k <= KEY_SPACE,
                n <= k,
                n == count_live(self@.subrange(0, k as int)),
            decreases KEY_SPACE - k,
        {
            proof {
                assert(self@.subrange(0, k + 1 as int).drop_last() =~= self@.subrange(0, k as int));
            }
            if self.slots[k].is_some() {
                n = n + 1;
            }
            k = k + 1;
        }
        proof {
            assert(self@.subrange(0, KEY_SPACE as int) =~= self@);
        }
        n
    }

    /// Inserts or replaces the entity at `key`: last-writer-wins, the
    /// prior entity (if any) is dropped at once.
    pub fn spawn(&mut self, key: u8, e: Entity)
        requires
            old(self).wf(),
            key < 128,
            e.wf(),
        ensures
            final(self).wf(),
            final(self)@ == old(self)@.update(key as int, Some(e)),
    {
        self.slots.set(key as usize, Some(e));
    }

    /// Clears the held flag of the entity at `key`; a key with no live
    /// entity is tolerated and the registry is then left untouched.
    pub fn release(&mut self, key: u8)
        requires
            old(self).wf(),
            key < 128,
        ensures
            final(self).wf(),
            old(self)@[key as int] is None ==> final(self)@ == old(self)@,
            old(self)@[key as int] matches Some(e) ==> final(self)@ == old(self)@.update(
                key as int,
                Some(e.released_spec()),
            ),
    {
        match self.slots[key as usize] {
            None => (),
            Some(e) => {
                self.slots.set(key as usize, Some(e.released()));
            },
        }
    }

    /// Advances every live entity one step under the current modifier;
    /// occupancy is untouched and each entity follows its step relation.
    pub fn tick_all(&mut self, modifier: &Modifier)
        requires
            old(self).wf(),
            old(self).all_nonneg(),
            modifier.wf(),
        ensures
            final(self).wf(),
            final(self)@.len() == KEY_SPACE,
            forall|k: int|
                0 <= k < KEY_SPACE ==> match (old(self)@[k], #[trigger] final(self)@[k]) {
                    (None, None) => true,
                    (Some(p), Some(q)) => Entity::step_ok(p, q, *modifier),
                    _ => false,
                },
    {
        let ghost pre = self@;
        let mut k: usize = 0;
        while k < KEY_SPACE
            invariant
                self.wf(),
                modifier.wf(),
                k <= KEY_SPACE,
                self@.len() == KEY_SPACE,
                forall|j: int| k <= j < KEY_SPACE ==> #[trigger] self@[j] == pre[j],
                forall|j: int|
                    0 <= j < KEY_SPACE ==> match #[trigger] pre[j] {
                        Some(e) => e.wf() && e.lifetime_spec() >= 0,
                        None => true,
                    },
                forall|j: int|
                    0 <= j < k ==> match (pre[j], #[trigger] self@[j]) {
                        (None, None) => true,
                        (Some(p), Some(q)) => Entity::step_ok(p, q, *modifier),
                        _ => false,
                    },
            decreases KEY_SPACE - k,
        {
            match self.slots[k] {
                None => (),
                Some(e) => {
                    let mut stepped = e;
                    stepped.update(modifier);
                    self.slots.set(k, Some(stepped));
                },
            }
            k = k + 1;
        }
    }

    /// Removes every entity whose lifetime is exhausted: a slot keeps
    /// its entity exactly when the lifetime is still positive.
    pub fn evict_expired(&mut self)
        requires
            old(self).wf(),
        ensures
            final(self).wf(),
            final(self).all_positive(),
            forall|k: int|
                0 <= k < KEY_SPACE ==> #[trigger] final(self)@[k] == match old(self)@[k] {
                    Some(e) => if e.lifetime_spec() > 0 {
                        old(self)@[k]
                    } else {
                        None
                    },
                    None => None::<Entity>,
                },
    {
        let ghost pre = self@;
        let mut k: usize = 0;
        while k < KEY_SPACE
            invariant
                self.wf(),
                k <= KEY_SPACE,
                self@.len() == KEY_SPACE,
                forall|j: int| k <= j < KEY_SPACE ==> #[trigger] self@[j] == pre[j],
                forall|j: int|
                    0 <= j < KEY_SPACE ==> match #[trigger] pre[j] {
                        Some(e) => e.wf(),
                        None => true,
                    },
                forall|j: int|
                    0 <= j < k ==> #[trigger] self@[j] == match pre[j] {
                        Some(e) => if e.lifetime_spec() > 0 {
                            pre[j]
                        } else {
                            None
                        },
                        None => None::<Entity>,
                    },
            decreases KEY_SPACE - k,
        {
            match self.slots[k] {
                None => (),
                Some(e) => {
                    if e.lifetime() <= 0 {
                        self.slots.set(k, None);
                    }
                },
            }
            k = k + 1;
        }
    }

    /// Appends the draw primitives of every live entity, in key order.
    pub fn draw_commands(&self, out: &mut Vec<DrawCommand>)
        requires
            self.wf(),
        ensures
            final(out)@ == old(out)@ + draws_of(self@),
    {
        let mut k: usize = 0;
        while k < KEY_SPACE
            invariant
                self.wf(),
                k <= KEY_SPACE,
                out@ == old(out)@ + draws_of(self@.subrange(0, k as int)),
            decreases KEY_SPACE - k,
        {
            proof {
                assert(self@.subrange(0, k + 1 as int).drop_last() =~= self@.subrange(0, k as int));
            }
            match self.slots[k] {
                None => {
                    proof {
                        assert(out@ =~= old(out)@ + draws_of(self@.subrange(0, k + 1 as int)));
                    }
                },
                Some(e) => {
                    let mut cmds = e.draw();
                    out.append(&mut cmds);
                    proof {
                        assert(out@ =~= old(out)@ + draws_of(self@.subrange(0, k + 1 as int)));
                    }
                },
            }
            k = k + 1;
        }
        proof {
            assert(self@.subrange(0, KEY_SPACE as int) =~= self@);
            assert(draws_of(self@.subrange(0, 0)) =~= Seq::empty());
        }
    }
}

} // verus!
