//! Axis-aligned bounding boxes.

use vstd::prelude::*;
use crate::math::Point;

verus! {

/// A box whose faces are at right angles to the axes.
#[derive(Clone, Copy)]
pub struct AABB<P: Point> {
    /// The corner with the least coordinates.
    pub mins: P,
    /// The corner with the greatest coordinates.
    pub maxs: P,
}

impl<P: Point> AABB<P> {
    /// Creates a box from its two extreme corners.
    pub fn new(mins: P, maxs: P) -> (b: AABB<P>)
        ensures
            b == (AABB { mins, maxs }),
    {
        AABB { mins, maxs }
    }
}

/// A shape that can tell a box that bounds it.
pub trait HasAABB<P: Point, M> {
    /// The box that bounds `self` transformed by `m`.
    spec fn aabb_spec(&self, m: &M) -> AABB<P>;

    /// Computes the box that bounds `self` transformed by `m`.
    fn aabb(&self, m: &M) -> (b: AABB<P>)
        ensures
            b == self.aabb_spec(m),
    ;
}

} // verus!
