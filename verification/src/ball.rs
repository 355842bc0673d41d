//! Ball shape, described by its radius alone.

use vstd::prelude::*;
use crate::bounding_volume::{HasAABB, AABB};
use crate::implicit::Implicit;
use crate::math::{Isometry, Point, RealOf, Vector};

verus! {

/// A ball centred at the origin of its local frame.
///
/// `N` is the numeric type of the radius.
#[derive(Clone, Copy, Debug)]
pub struct Ball<N> {
    radius: N,
}

impl<N> Ball<N> {
    /// The radius this ball was built with.
    pub closed spec fn radius_spec(&self) -> N {
        self.radius
    }

    /// Creates a new ball from its radius.
    pub fn new(radius: N) -> (b: Ball<N>)
        ensures
            b.radius_spec() == radius,
    {
        Ball { radius }
    }
}

impl<N: Copy> Ball<N> {
    /// The ball radius.
    pub fn radius(&self) -> (r: N)
        ensures
            r == self.radius_spec(),
    {
        self.radius
    }
}

impl<P: Point, M: Isometry<P>> Implicit<P, M> for Ball<RealOf<P>> {
    /// The center of the ball, moved by the radius along the normalized
    /// direction.
    open spec fn support_point_spec(&self, m: &M, dir: P::Vector) -> P {
        m.transform_point_spec(P::origin_spec()).translate_spec(
            dir.normalize_spec().scale_spec(self.radius_spec()),
        )
    }

    fn support_point(&self, m: &M, dir: &P::Vector) -> (pt: P) {
        m.transform_point(&P::origin()).translate(dir.normalize().scale(self.radius))
    }
}

impl<P: Point, M: Isometry<P>> HasAABB<P, M> for Ball<RealOf<P>> {
    /// The box around the center of the ball that reaches as far as the
    /// radius along each axis.
    open spec fn aabb_spec(&self, m: &M) -> AABB<P> {
        let center = m.transform_point_spec(P::origin_spec());
        AABB {
            mins: center.translate_spec(P::Vector::from_element_spec(self.radius_spec()).neg_spec()),
            maxs: center.translate_spec(P::Vector::from_element_spec(self.radius_spec())),
        }
    }

    fn aabb(&self, m: &M) -> (b: AABB<P>) {
        let center = m.transform_point(&P::origin());
        AABB::new(
            center.translate(P::Vector::from_element(self.radius).neg()),
            center.translate(P::Vector::from_element(self.radius)),
        )
    }
}

} // verus!
