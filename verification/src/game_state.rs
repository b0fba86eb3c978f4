//! The entity registry: an append-only, insertion-ordered store of
//! entities, created with exactly one player-tagged entity.

use crate::entity::flags::Flags;
use crate::entity::{Entity, EntityIndex};
use vstd::prelude::*;

verus! {

/// The world: every live entity, in spawn order. Indices handed out by
/// `spawn` stay valid for the rest of the run; nothing is ever removed.
pub struct GameState {
    pub entities: Vec<Entity>,
}

impl GameState {
    /// Creates new empty world with player ship. The ship's drawable
    /// handle starts out as `0`; the rendering collaborator may store
    /// its own through `ent_at_mut`.
    pub fn new() -> (r: Self)
        ensures
            r.entities@.len() == 1,
            r.entities@[0].flags.bits == 1u32,
            r.entities@[0].vel.x == 0 && r.entities@[0].vel.y == 0,
            r.entities@[0].acc.x == 0 && r.entities@[0].acc.y == 0,
            r.entities@[0].state.tx == 0 && r.entities@[0].state.ty == 0,
    {
        // Create empty world
        let mut world = GameState { entities: Vec::new() };

        // spawn player ship
        world.spawn(Entity::make_player_ship(0));

        // Return world with ship in it
        world
    }

    /// Spawns the given entity inside the world, returning its index:
    /// the length of the sequence before the append.
    pub fn spawn(&mut self, entity: Entity) -> (idx: EntityIndex)
        requires
            old(self).entities@.len() < usize::MAX,
        ensures
            final(self).entities@ == old(self).entities@.push(entity),
            idx == old(self).entities@.len(),
    {
        self.entities.push(entity);

        self.entities.len() - 1
    }

    /// Filter only entities with given flags: the indices, in registry
    /// order, of every entity whose flag set shares at least one tag
    /// with `flags` (non-empty intersection, not exact match).
    pub fn ents_with_flags(&self, flags: Flags) -> (r: Vec<EntityIndex>)
        ensures
            forall|i: int, j: int| 0 <= i < j < r@.len() ==> r@[i] < r@[j],
            forall|i: int|
                0 <= i < r@.len() ==> r@[i] < self.entities@.len() && (self.entities@[r@[i] as int]
                    .flags.bits & flags.bits) != 0,
            forall|k: int|
                0 <= k < self.entities@.len() && (self.entities@[k].flags.bits & flags.bits) != 0
                    ==> exists|w: int| 0 <= w < r@.len() && (#[trigger] r@[w]) as int == k,
    {
        let mut r: Vec<EntityIndex> = Vec::new();
        let mut idx: usize = 0;
        while idx < self.entities.len()
            invariant
                idx <= self.entities@.len(),
                forall|i: int, j: int| 0 <= i < j < r@.len() ==> r@[i] < r@[j],
                forall|i: int|
                    0 <= i < r@.len() ==> r@[i] < idx && (self.entities@[r@[i] as int].flags.bits
                        & flags.bits) != 0,
                forall|k: int|
                    0 <= k < idx && (self.entities@[k].flags.bits & flags.bits) != 0 ==> exists|
                        w: int,
                    | 0 <= w < r@.len() && (#[trigger] r@[w]) as int == k,
            decreases self.entities@.len() - idx,
        {
            let ent: &Entity = &self.entities[idx];
            if !(ent.flags.and(flags)).is_empty() {
                let ghost old_r = r@;
                r.push(idx);
                proof {
                    assert forall|k: int|
                        0 <= k < idx + 1 && (self.entities@[k].flags.bits & flags.bits)
                            != 0 implies exists|w: int|
                        0 <= w < r@.len() && (#[trigger] r@[w]) as int == k by {
                        if k < idx {
                            let w = choose|w: int|
                                0 <= w < old_r.len() && (#[trigger] old_r[w]) as int == k;
                            assert(r@[w] as int == k);
                        } else {
                            assert(r@[r@.len() - 1] as int == k);
                        }
                    }
                }
            }
            idx = idx + 1;
        }
        r
    }

    /// Get a mutable reference to entity at a given entity index.
    pub fn ent_at_mut(&mut self, idx: EntityIndex) -> (r: &mut Entity)
        requires
            idx < old(self).entities@.len(),
        ensures
            *r == old(self).entities@[idx as int],
            final(self).entities@ == old(self).entities@.update(idx as int, *final(r)),
    {
        &mut self.entities[idx]
    }

    /// Get a reference to entity at a given entity index.
    pub fn ent_at(&self, idx: EntityIndex) -> (r: &Entity)
        requires
            idx < self.entities@.len(),
        ensures
            *r == self.entities@[idx as int],
    {
        &self.entities[idx]
    }
}

} // verus!
