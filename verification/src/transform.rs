//! The transform: an entity's opaque position accumulator. The
//! simulation core only ever translates it, so it is modeled as the
//! accumulated offset of each axis.

use vstd::prelude::*;

verus! {

/// An entity's position accumulator.
#[derive(Clone, Copy, Debug, PartialEq, Eq, Structural)]
pub struct Transform {
    pub tx: i64,
    pub ty: i64,
}

impl Transform {
    /// The identity transform: no offset.
    pub fn identity() -> (r: Self)
        ensures
            r.tx == 0,
            r.ty == 0,
    {
        Transform { tx: 0, ty: 0 }
    }

    /// Translate by the given offsets.
    pub fn translate(&mut self, x: i64, y: i64)
        requires
            i64::MIN <= old(self).tx + x <= i64::MAX,
            i64::MIN <= old(self).ty + y <= i64::MAX,
        ensures
            final(self).tx == old(self).tx + x,
            final(self).ty == old(self).ty + y,
    {
        self.tx = self.tx + x;
        self.ty = self.ty + y;
    }
}

/// Combine two transforms: translation offsets compose by addition.
pub fn combine(lhs: Transform, rhs: Transform) -> (r: Transform)
    requires
        i64::MIN <= lhs.tx + rhs.tx <= i64::MAX,
        i64::MIN <= lhs.ty + rhs.ty <= i64::MAX,
    ensures
        r.tx == lhs.tx + rhs.tx,
        r.ty == lhs.ty + rhs.ty,
{
    let mut lhs = lhs;
    lhs.translate(rhs.tx, rhs.ty);
    lhs
}

} // verus!
