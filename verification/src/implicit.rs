//! Shapes described by their support mapping.

use vstd::prelude::*;
use crate::math::Point;

verus! {

/// A shape that can tell its point that lies furthest in a given direction.
pub trait Implicit<P: Point, M> {
    /// The point of `self` transformed by `m` that lies furthest in the
    /// direction `dir`.
    spec fn support_point_spec(&self, m: &M, dir: P::Vector) -> P;

    /// Computes the point of `self` transformed by `m` that lies furthest in
    /// the direction `dir`.
    fn support_point(&self, m: &M, dir: &P::Vector) -> (pt: P)
        ensures
            pt == self.support_point_spec(m, *dir),
    ;
}

} // verus!
