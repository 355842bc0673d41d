//! Projection of points on shapes.

use vstd::prelude::*;
use crate::math::{Point, Real, RealOf};

verus! {

/// Description of the projection of a point on a shape.
#[derive(Clone, Copy)]
pub struct PointProjection<P: Point> {
    /// Whether or not the point to project was inside of the shape.
    pub is_inside: bool,
    /// The projection result.
    pub point: P,
}

impl<P: Point> PointProjection<P> {
    /// Initializes a new `PointProjection`.
    pub fn new(is_inside: bool, point: P) -> (r: PointProjection<P>)
        ensures
            r == (PointProjection { is_inside, point }),
    {
        PointProjection { is_inside, point }
    }
}

/// The distance that follows from a projection: the distance between the
/// point and its projection, counted negative where the point lies inside a
/// shape that is taken as hollow.
pub open spec fn signed_distance<P: Point>(proj: PointProjection<P>, pt: P, solid: bool) -> RealOf<
    P,
> {
    let dist = pt.distance_spec(proj.point);
    if solid || !proj.is_inside {
        dist
    } else {
        dist.neg_spec()
    }
}

/// Trait of objects that can be tested for point inclusion and projection.
pub trait PointQuery<P: Point, M> {
    /// The projection of `pt` on `self` transformed by `m`.
    spec fn project_point_spec(&self, m: &M, pt: P, solid: bool) -> PointProjection<P>;

    /// Projects a point on `self` transformed by `m`.
    fn project_point(&self, m: &M, pt: &P, solid: bool) -> (proj: PointProjection<P>)
        ensures
            proj == self.project_point_spec(m, *pt, solid),
    ;

    /// Computes the minimal distance between a point and `self` transformed
    /// by `m`.
    fn distance_to_point(&self, m: &M, pt: &P, solid: bool) -> (d: RealOf<P>)
        ensures
            d == signed_distance(self.project_point_spec(m, *pt, solid), *pt, solid),
    {
        let proj = self.project_point(m, pt, solid);
        let dist = pt.distance(proj.point);

        if solid || !proj.is_inside {
            dist
        } else {
            dist.neg()
        }
    }

    /// Tests if the given point is inside of `self` transformed by `m`.
    fn contains_point(&self, m: &M, pt: &P) -> (inside: bool)
        ensures
            inside == self.project_point_spec(m, *pt, false).is_inside,
    {
        self.project_point(m, pt, false).is_inside
    }
}

/// Returns shape-specific information in addition to the generic projection
/// information.
pub trait RichPointQuery<P: Point, M> {
    /// Additional shape-specific projection information.
    type ExtraInfo;

    /// The projection of `pt` on `self` transformed by `m`, with the
    /// shape-specific information.
    spec fn project_point_with_extra_info_spec(&self, m: &M, pt: P, solid: bool) -> (
        PointProjection<P>,
        Self::ExtraInfo,
    );

    /// Projects a point on `self` transformed by `m`.
    fn project_point_with_extra_info(&self, m: &M, pt: &P, solid: bool) -> (r: (
        PointProjection<P>,
        Self::ExtraInfo,
    ))
        ensures
            r == self.project_point_with_extra_info_spec(m, *pt, solid),
    ;
}

} // verus!
