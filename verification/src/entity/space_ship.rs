//! The spaceship: the bare player body — a drawable handle, a transform
//! and a velocity, with no acceleration or flags of its own.

use crate::transform::Transform;
use crate::vec::Vec2;
use vstd::prelude::*;

verus! {

/// Spaceship
#[derive(Clone, Copy, Debug, PartialEq, Eq, Structural)]
pub struct Spaceship {
    /// Opaque handle to the drawable issued by the rendering
    /// collaborator.
    pub texture: u64,
    /// The position accumulator.
    pub state: Transform,
    /// Current velocity.
    pub vel: Vec2,
}

impl Spaceship {
    /// A ship at rest at the origin. The drawable handle comes from the
    /// rendering collaborator.
    pub fn new(texture: u64) -> (r: Self)
        ensures
            r.texture == texture,
            r.state.tx == 0 && r.state.ty == 0,
            r.vel.x == 0 && r.vel.y == 0,
    {
        Spaceship { texture, state: Transform::identity(), vel: Vec2::origin() }
    }

    /// Translate the transform by the velocity.
    pub fn update(&mut self)
        requires
            i64::MIN <= old(self).state.tx + old(self).vel.x <= i64::MAX,
            i64::MIN <= old(self).state.ty + old(self).vel.y <= i64::MAX,
        ensures
            final(self).state.tx == old(self).state.tx + old(self).vel.x,
            final(self).state.ty == old(self).state.ty + old(self).vel.y,
            final(self).texture == old(self).texture,
            final(self).vel == old(self).vel,
    {
        let vx: i64 = self.vel.x;
        let vy: i64 = self.vel.y;
        self.state.translate(vx, vy);
    }
}

} // verus!
