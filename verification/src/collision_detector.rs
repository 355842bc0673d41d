//! The interface of the algorithms of the narrow phase.

use vstd::prelude::*;
use crate::contact::Contact;
use crate::math::{Point, RealOf};

verus! {

/// Trait of the algorithms executed during the so-called narrow phase.
///
/// The goal of the narrow phase is to determine exactly if two objects
/// collide. If there is collision, it must be able to compute the exact
/// contact point(s), normal and penetration depth in order to give enough
/// information to the constraint solver.
///
/// `P` is the type of the contact points, `M` the type of the transformations
/// of the objects, `G1` and `G2` the types of the two objects.
pub trait CollisionDetector<P: Point, M, G1, G2>: Sized {
    /// The collisions detected during the last update.
    spec fn colls_spec(&self) -> Seq<Contact<P>>;

    /// The detector after an update on the two objects.
    spec fn updated_spec(&self, m1: &M, g1: &G1, m2: &M, g2: &G2) -> Self;

    /// Runs the collision detection on two objects. It is assumed that the
    /// same collision detector (the same structure) is always used with the
    /// same pair of objects.
    fn update(&mut self, m1: &M, g1: &G1, m2: &M, g2: &G2)
        ensures
            *final(self) == old(self).updated_spec(m1, g1, m2, g2),
    ;

    /// The number of collisions detected during the last update.
    fn num_coll(&self) -> (n: usize)
        ensures
            n == self.colls_spec().len(),
    ;

    /// Collects the collisions detected during the last update: they are
    /// appended to `out`.
    fn colls(&self, out: &mut Vec<Contact<P>>)
        ensures
            final(out)@ == old(out)@ + self.colls_spec(),
    ;

    /// The time of impact of two objects, the first of which moves along
    /// `dir`.
    spec fn toi_spec(m1: &M, dir: P::Vector, g1: &G1, m2: &M, g2: &G2) -> Option<RealOf<P>>;

    /// Computes the time of impact of two objects.
    ///
    /// `m1` and `m2` are the transformations of the two objects, `g1` and
    /// `g2` the objects, and `dir` the direction of the displacement of the
    /// first.
    fn toi(m1: &M, dir: &P::Vector, g1: &G1, m2: &M, g2: &G2) -> (t: Option<RealOf<P>>)
        ensures
            t == Self::toi_spec(m1, *dir, g1, m2, g2),
    ;
}

} // verus!
