//! Contact geometry and the identifiers of shape features.

use vstd::prelude::*;
use crate::math::{Point, RealOf, Unit};

verus! {

/// The identifier of a feature of a shape: one of its vertices, edges or
/// faces.
#[derive(Clone, Copy, Debug, PartialEq, Eq, Structural)]
pub enum FeatureId {
    /// A vertex, by its index.
    Vertex(usize),
    /// An edge, by its index.
    Edge(usize),
    /// A face, by its index.
    Face(usize),
    /// A feature that is not known.
    Unknown,
}

/// The geometry of a contact between two solids.
#[derive(Clone, Copy)]
pub struct Contact<P: Point> {
    /// The contact point on the first solid, in world space.
    pub world1: P,
    /// The contact point on the second solid, in world space.
    pub world2: P,
    /// The contact normal, which points out of the first solid.
    pub normal: Unit<P::Vector>,
    /// The penetration depth: positive where the solids overlap, negative
    /// where they are apart.
    pub depth: RealOf<P>,
}

impl<P: Point> Contact<P> {
    /// Creates a contact from its two points, its normal and its depth.
    pub fn new(world1: P, world2: P, normal: Unit<P::Vector>, depth: RealOf<P>) -> (c: Contact<P>)
        ensures
            c == (Contact { world1, world2, normal, depth }),
    {
        Contact { world1, world2, normal, depth }
    }
}

} // verus!
