//! The primitive shapes of the narrow phase, and where a projected point lies
//! on them.

use vstd::prelude::*;
use crate::ball::Ball;
use crate::math::{Point, Real, RealOf, Vector};

verus! {

/// A segment, given by its two endpoints.
#[derive(Clone, Copy)]
pub struct Segment<P: Point> {
    /// The first endpoint.
    pub a: P,
    /// The second endpoint.
    pub b: P,
}

impl<P: Point> Segment<P> {
    /// Creates a segment from its two endpoints.
    pub fn new(a: P, b: P) -> (s: Segment<P>)
        ensures
            s == (Segment { a, b }),
    {
        Segment { a, b }
    }
}

/// Where a point projected on a segment lies.
#[derive(Clone, Copy)]
pub enum SegmentPointLocation<N> {
    /// On the endpoint of the given index, 0 or 1.
    OnVertex(usize),
    /// Between the endpoints, with the given barycentric coordinates.
    OnEdge([N; 2]),
}

impl<N> SegmentPointLocation<N> {
    /// The index of a vertex is in range.
    pub open spec fn wf(self) -> bool {
        self matches SegmentPointLocation::OnVertex(i) ==> i < 2
    }

    /// Tests whether the index of a vertex is in range.
    pub fn is_wf(&self) -> (r: bool)
        ensures
            r == self.wf(),
    {
        match self {
            SegmentPointLocation::OnVertex(i) => *i < 2,
            SegmentPointLocation::OnEdge(_) => true,
        }
    }
}

/// A triangle, given by its three vertices.
#[derive(Clone, Copy)]
pub struct Triangle<P: Point> {
    /// The first vertex.
    pub a: P,
    /// The second vertex.
    pub b: P,
    /// The third vertex.
    pub c: P,
}

impl<P: Point> Triangle<P> {
    /// Creates a triangle from its three vertices.
    pub fn new(a: P, b: P, c: P) -> (t: Triangle<P>)
        ensures
            t == (Triangle { a, b, c }),
    {
        Triangle { a, b, c }
    }
}

/// Where a point projected on a triangle lies.
#[derive(Clone, Copy)]
pub enum TrianglePointLocation<N> {
    /// On the vertex of the given index, 0 to 2.
    OnVertex(usize),
    /// On the edge of the given index, with the barycentric coordinates of
    /// its two endpoints. The edges are, in this order, ab, bc and ac.
    OnEdge(usize, [N; 2]),
    /// Inside the face, with the barycentric coordinates of a, b and c.
    OnFace([N; 3]),
    /// Inside the solid that the triangle bounds, in two dimensions.
    OnSolid,
}

impl<N> TrianglePointLocation<N> {
    /// The index of a vertex or of an edge is in range.
    pub open spec fn wf(self) -> bool {
        match self {
            TrianglePointLocation::OnVertex(i) => i < 3,
            TrianglePointLocation::OnEdge(i, _) => i < 3,
            _ => true,
        }
    }

    /// Tests whether the index of a vertex or of an edge is in range.
    pub fn is_wf(&self) -> (r: bool)
        ensures
            r == self.wf(),
    {
        match self {
            TrianglePointLocation::OnVertex(i) => *i < 3,
            TrianglePointLocation::OnEdge(i, _) => *i < 3,
            _ => true,
        }
    }
}

/// A tetrahedron, given by its four vertices.
#[derive(Clone, Copy)]
pub struct Tetrahedron<P: Point> {
    /// The first vertex.
    pub a: P,
    /// The second vertex.
    pub b: P,
    /// The third vertex.
    pub c: P,
    /// The fourth vertex.
    pub d: P,
}

impl<P: Point> Tetrahedron<P> {
    /// Creates a tetrahedron from its four vertices.
    pub fn new(a: P, b: P, c: P, d: P) -> (t: Tetrahedron<P>)
        ensures
            t == (Tetrahedron { a, b, c, d }),
    {
        Tetrahedron { a, b, c, d }
    }
}

/// Where a point projected on a tetrahedron lies.
#[derive(Clone, Copy)]
pub enum TetrahedronPointLocation<N> {
    /// On the vertex of the given index, 0 to 3.
    OnVertex(usize),
    /// On the edge of the given index, with the barycentric coordinates of
    /// its two endpoints. The edges are, in this order, ab, ac, ad, bc, bd
    /// and cd.
    OnEdge(usize, [N; 2]),
    /// On the face of the given index, with the barycentric coordinates of
    /// its three vertices. The faces are, in this order, abc, abd, acd and
    /// bcd.
    OnFace(usize, [N; 3]),
    /// Inside the tetrahedron.
    OnSolid,
}

impl<N> TetrahedronPointLocation<N> {
    /// The index of a vertex, of an edge or of a face is in range.
    pub open spec fn wf(self) -> bool {
        match self {
            TetrahedronPointLocation::OnVertex(i) => i < 4,
            TetrahedronPointLocation::OnEdge(i, _) => i < 6,
            TetrahedronPointLocation::OnFace(i, _) => i < 4,
            TetrahedronPointLocation::OnSolid => true,
        }
    }

    /// Tests whether the index of a vertex, of an edge or of a face is in
    /// range.
    pub fn is_wf(&self) -> (r: bool)
        ensures
            r == self.wf(),
    {
        match self {
            TetrahedronPointLocation::OnVertex(i) => *i < 4,
            TetrahedronPointLocation::OnEdge(i, _) => *i < 6,
            TetrahedronPointLocation::OnFace(i, _) => *i < 4,
            TetrahedronPointLocation::OnSolid => true,
        }
    }
}


/// A capsule: a segment along the second axis, centred at the origin and
/// dilated by a radius.
#[derive(Clone, Copy)]
pub struct Capsule<N> {
    half_height: N,
    radius: N,
}

impl<N: Copy> Capsule<N> {
    /// Half of the length of the segment at the core of this capsule.
    pub closed spec fn half_height_spec(&self) -> N {
        self.half_height
    }

    /// The radius by which the core segment is dilated.
    pub closed spec fn radius_spec(&self) -> N {
        self.radius
    }

    /// Creates a capsule from the half length of its core segment and its
    /// radius.
    pub fn new(half_height: N, radius: N) -> (c: Capsule<N>)
        ensures
            c.half_height_spec() == half_height,
            c.radius_spec() == radius,
    {
        Capsule { half_height, radius }
    }

    /// Half of the length of the segment at the core of this capsule.
    pub fn half_height(&self) -> (h: N)
        ensures
            h == self.half_height_spec(),
    {
        self.half_height
    }

    /// The radius by which the core segment is dilated.
    pub fn radius(&self) -> (r: N)
        ensures
            r == self.radius_spec(),
    {
        self.radius
    }
}

/// The segment at the core of a capsule of the given half height: from the
/// origin moved down the second axis to the origin moved up the same axis.
pub open spec fn core_segment<P: Point>(half_height: RealOf<P>) -> Segment<P> {
    Segment {
        a: P::origin_spec().translate_spec(P::Vector::y_spec().scale_spec(half_height.neg_spec())),
        b: P::origin_spec().translate_spec(P::Vector::y_spec().scale_spec(half_height)),
    }
}

/// Computes the segment at the core of a capsule.
pub fn capsule_segment<P: Point>(capsule: &Capsule<RealOf<P>>) -> (s: Segment<P>)
    ensures
        s == core_segment::<P>(capsule.half_height_spec()),
{
    let a = P::origin().translate(P::Vector::y().scale(capsule.half_height().neg()));
    let b = P::origin().translate(P::Vector::y().scale(capsule.half_height()));
    Segment::new(a, b)
}

/// The kinds of shapes that the narrow phase tells apart.
#[derive(Clone, Copy, Debug, PartialEq, Eq, Structural)]
pub enum ShapeKind {
    Ball,
    Capsule,
    Segment,
}

/// A shape of one of the kinds that the narrow phase tells apart.
#[derive(Clone, Copy)]
pub enum Shape<P: Point> {
    Ball(Ball<RealOf<P>>),
    Capsule(Capsule<RealOf<P>>),
    Segment(Segment<P>),
}

impl<P: Point> Shape<P> {
    /// The kind of this shape.
    pub open spec fn kind_spec(&self) -> ShapeKind {
        match self {
            Shape::Ball(_) => ShapeKind::Ball,
            Shape::Capsule(_) => ShapeKind::Capsule,
            Shape::Segment(_) => ShapeKind::Segment,
        }
    }

    /// The kind of this shape.
    pub fn kind(&self) -> (k: ShapeKind)
        ensures
            k == self.kind_spec(),
    {
        match self {
            Shape::Ball(_) => ShapeKind::Ball,
            Shape::Capsule(_) => ShapeKind::Capsule,
            Shape::Segment(_) => ShapeKind::Segment,
        }
    }

    /// This shape as a ball, if it is one.
    pub fn as_ball(&self) -> (b: Option<&Ball<RealOf<P>>>)
        ensures
            match *self {
                Shape::Ball(ball) => b == Some(&ball),
                _ => b is None,
            },
    {
        match self {
            Shape::Ball(ball) => Some(ball),
            _ => None,
        }
    }

    /// This shape as a capsule, if it is one.
    pub fn as_capsule(&self) -> (c: Option<&Capsule<RealOf<P>>>)
        ensures
            match *self {
                Shape::Capsule(capsule) => c == Some(&capsule),
                _ => c is None,
            },
    {
        match self {
            Shape::Capsule(capsule) => Some(capsule),
            _ => None,
        }
    }

    /// This shape as a segment, if it is one.
    pub fn as_segment(&self) -> (s: Option<&Segment<P>>)
        ensures
            match *self {
                Shape::Segment(segment) => s == Some(&segment),
                _ => s is None,
            },
    {
        match self {
            Shape::Segment(segment) => Some(segment),
            _ => None,
        }
    }
}

} // verus!
