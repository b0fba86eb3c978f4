//! Entities: the bodies the simulation moves, each carrying a drawable
//! handle, a transform, a velocity, an acceleration and capability flags.

pub mod flags;
pub mod space_ship;

use crate::entity::flags::Flags;
use crate::transform::Transform;
use crate::vec::Vec2;
use vstd::prelude::*;

verus! {

/// Index uniquely identifying an entity.
pub type EntityIndex = usize;

/// Entity
#[derive(Clone, Copy, Debug, PartialEq, Eq, Structural)]
pub struct Entity {
    /// Opaque handle to the drawable issued by the rendering
    /// collaborator; the core only stores it.
    pub texture: u64,
    /// The position accumulator.
    pub state: Transform,
    /// Current velocity.
    pub vel: Vec2,
    /// Current acceleration.
    pub acc: Vec2,
    /// Capability tags.
    pub flags: Flags,
}

impl Entity {
    /// Player acceleration set by commands (0.02 units, in fixed point).
    pub const PLAYER_ACC: i64 = 20;

    /// Maximum velocity reachable by the player (10 units, in fixed
    /// point).
    pub const PLAYER_MAX_VEL: i64 = 10_000;

    /// Minimum velocity under which the player counts as stopped (0.5
    /// units, in fixed point).
    pub const PLAYER_MIN_VEL: i64 = 500;

    /// Make player ship: an entity at rest at the origin carrying the
    /// player tag. The drawable handle comes from the rendering
    /// collaborator.
    pub fn make_player_ship(texture: u64) -> (r: Self)
        ensures
            r.texture == texture,
            r.state.tx == 0 && r.state.ty == 0,
            r.vel.x == 0 && r.vel.y == 0,
            r.acc.x == 0 && r.acc.y == 0,
            r.flags.bits == 1u32,
    {
        Entity {
            texture,
            state: Transform::identity(),
            vel: Vec2::origin(),
            acc: Vec2::origin(),
            flags: Flags::player(),
        }
    }

    /// Update physics: translate the transform by the velocity.
    pub fn update(&mut self)
        requires
            i64::MIN <= old(self).state.tx + old(self).vel.x <= i64::MAX,
            i64::MIN <= old(self).state.ty + old(self).vel.y <= i64::MAX,
        ensures
            final(self).state.tx == old(self).state.tx + old(self).vel.x,
            final(self).state.ty == old(self).state.ty + old(self).vel.y,
            final(self).texture == old(self).texture,
            final(self).vel == old(self).vel,
            final(self).acc == old(self).acc,
            final(self).flags == old(self).flags,
    {
        let vx: i64 = self.vel.x;
        let vy: i64 = self.vel.y;
        self.state.translate(vx, vy);
    }
}

} // verus!
