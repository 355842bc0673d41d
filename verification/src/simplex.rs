//! A simplex of dimension up to 3 that finds, by Voronoi regions, its point
//! closest to the origin, and reduces itself to the smallest of its features
//! that holds that point.

use vstd::prelude::*;
use crate::math::{Isometry, Point, Real, RealOf, Vector};
use crate::point_query::{PointQuery, RichPointQuery};
use crate::shape::{
    Segment, SegmentPointLocation, Tetrahedron, TetrahedronPointLocation, Triangle,
    TrianglePointLocation,
};

verus! {

/// A point of the configuration space obstacle of two shapes: the difference
/// of a point of the first shape and a point of the second.
#[derive(Clone, Copy)]
pub struct CSOPoint<P: Point> {
    /// The point of the obstacle: `orig1 - orig2`.
    pub point: P,
    /// The point of the first shape.
    pub orig1: P,
    /// The point of the second shape.
    pub orig2: P,
}

impl<P: Point> CSOPoint<P> {
    /// The difference of `orig1` and `orig2`, as a point.
    pub open spec fn new_spec(orig1: P, orig2: P) -> CSOPoint<P> {
        CSOPoint { point: P::origin_spec().translate_spec(orig1.sub_spec(orig2)), orig1, orig2 }
    }

    /// Creates the point of the obstacle that is the difference of `orig1` and
    /// `orig2`.
    pub fn new(orig1: P, orig2: P) -> (r: CSOPoint<P>)
        ensures
            r == Self::new_spec(orig1, orig2),
    {
        CSOPoint { point: P::origin().translate(orig1.sub(orig2)), orig1, orig2 }
    }

    /// Creates a point of the obstacle from its three parts, which are not
    /// checked against each other.
    pub fn new_with_point(point: P, orig1: P, orig2: P) -> (r: CSOPoint<P>)
        ensures
            r == (CSOPoint { point, orig1, orig2 }),
    {
        CSOPoint { point, orig1, orig2 }
    }

    /// The point of the obstacle of a single point and the origin.
    pub fn single_point(point: P) -> (r: CSOPoint<P>)
        ensures
            r == (CSOPoint { point, orig1: point, orig2: P::origin_spec() }),
    {
        CSOPoint { point, orig1: point, orig2: P::origin() }
    }

    /// The origin, as the difference of the origin and itself.
    pub fn origin() -> (r: CSOPoint<P>)
        ensures
            r == (CSOPoint {
                point: P::origin_spec(),
                orig1: P::origin_spec(),
                orig2: P::origin_spec(),
            }),
    {
        CSOPoint { point: P::origin(), orig1: P::origin(), orig2: P::origin() }
    }

    /// The displacement that leads from `rhs` to `self`.
    pub open spec fn sub_spec(self, rhs: CSOPoint<P>) -> P::Vector {
        self.point.sub_spec(rhs.point)
    }

    /// Computes the displacement that leads from `rhs` to `self`.
    pub fn sub(self, rhs: CSOPoint<P>) -> (v: P::Vector)
        ensures
            v == self.sub_spec(rhs),
    {
        self.point.sub(rhs.point)
    }
}

/// The order of four slots in which each holds what it held.
pub open spec fn identity_order() -> Seq<int> {
    seq![0, 1, 2, 3]
}

/// The order of four slots in which the slots `i` and `j` have changed
/// places.
pub open spec fn transposition(i: int, j: int) -> Seq<int> {
    identity_order().update(i, j).update(j, i)
}

/// The two vertices of each edge of a triangle, in the order of their
/// barycentric coordinates: ab, bc, ac.
pub open spec fn triangle_edge_vertices(e: int) -> (int, int) {
    if e == 0 {
        (0, 1)
    } else if e == 1 {
        (1, 2)
    } else {
        (0, 2)
    }
}

/// For each edge of a triangle, the former slot of the vertex that each slot
/// holds once the simplex is reduced to that edge.
pub open spec fn triangle_edge_order(e: int) -> Seq<int> {
    if e == 0 {
        identity_order()
    } else if e == 1 {
        seq![2, 1, 0, 3]
    } else {
        seq![0, 2, 1, 3]
    }
}

/// The two vertices of each edge of a tetrahedron, in the order of their
/// barycentric coordinates: ab, ac, ad, bc, bd, cd.
pub open spec fn tetrahedron_edge_vertices(e: int) -> (int, int) {
    if e == 0 {
        (0, 1)
    } else if e == 1 {
        (0, 2)
    } else if e == 2 {
        (0, 3)
    } else if e == 3 {
        (1, 2)
    } else if e == 4 {
        (1, 3)
    } else {
        (2, 3)
    }
}

/// For each edge of a tetrahedron, the former slot of the vertex that each
/// slot holds once the simplex is reduced to that edge.
pub open spec fn tetrahedron_edge_order(e: int) -> Seq<int> {
    if e == 0 {
        identity_order()
    } else if e == 1 {
        seq![0, 2, 1, 3]
    } else if e == 2 {
        seq![0, 3, 2, 1]
    } else if e == 3 {
        seq![2, 1, 0, 3]
    } else if e == 4 {
        seq![3, 1, 2, 0]
    } else {
        seq![2, 3, 0, 1]
    }
}

/// The three vertices of each face of a tetrahedron, in the order of their
/// barycentric coordinates: abc, abd, acd, bcd.
pub open spec fn tetrahedron_face_vertices(f: int) -> Seq<int> {
    if f == 0 {
        seq![0, 1, 2]
    } else if f == 1 {
        seq![0, 1, 3]
    } else if f == 2 {
        seq![0, 2, 3]
    } else {
        seq![1, 2, 3]
    }
}

/// For each face of a tetrahedron, the former slot of the vertex that each
/// slot holds once the simplex is reduced to that face: the fourth vertex
/// takes the place of the one that is not on the face.
pub open spec fn tetrahedron_face_order(f: int) -> Seq<int> {
    if f == 0 {
        identity_order()
    } else if f == 1 {
        seq![0, 1, 3, 3]
    } else if f == 2 {
        seq![0, 3, 2, 3]
    } else {
        seq![3, 1, 2, 3]
    }
}

/// For each face of a tetrahedron, the barycentric coordinate that belongs to
/// each of the first three slots once the simplex is reduced to that face.
pub open spec fn tetrahedron_face_coords(f: int) -> Seq<int> {
    if f == 0 || f == 1 {
        seq![0, 1, 2]
    } else if f == 2 {
        seq![0, 2, 1]
    } else {
        seq![2, 0, 1]
    }
}

/// What a `VoronoiSimplex` holds, as plain values.
pub struct SimplexView<P: Point> {
    /// For each slot, the slot that held its vertex when the previous state
    /// was recorded.
    pub prev_vertices: Seq<usize>,
    /// The barycentric coordinates when the previous state was recorded.
    pub prev_proj: Seq<RealOf<P>>,
    /// The dimension when the previous state was recorded.
    pub prev_dim: usize,
    /// The four slots for vertices; the first `dim + 1` are in use.
    pub vertices: Seq<CSOPoint<P>>,
    /// The barycentric coordinates of the point closest to the origin.
    pub proj: Seq<RealOf<P>>,
    /// The dimension of the simplex.
    pub dim: usize,
    /// The tolerance below which a new point counts as dependent.
    pub eps_tol: RealOf<P>,
}

impl<P: Point> SimplexView<P> {
    /// There are four slots for vertices and three for coordinates, the
    /// dimensions are at most 3, and the recorded order names slots.
    pub open spec fn wf(self) -> bool {
        &&& self.vertices.len() == 4
        &&& self.prev_vertices.len() == 4
        &&& self.proj.len() == 3
        &&& self.prev_proj.len() == 3
        &&& self.dim <= 3
        &&& self.prev_dim <= 3
        &&& forall|i: int| 0 <= i < 4 ==> #[trigger] self.prev_vertices[i] < 4
    }

    /// The state in which the present dimension, coordinates and order are
    /// recorded as the previous ones.
    pub open spec fn recorded(self) -> Self {
        SimplexView {
            prev_vertices: Seq::new(4, |j: int| j as usize),
            prev_proj: self.proj,
            prev_dim: self.dim,
            ..self
        }
    }

    /// The state recorded and then reduced: slot `j` holds the vertex of the
    /// former slot `order[j]`, the recorded order follows `prev_order`, and
    /// the coordinates and the dimension are the given ones.
    pub open spec fn retained(
        self,
        order: Seq<int>,
        prev_order: Seq<int>,
        proj: Seq<RealOf<P>>,
        dim: usize,
    ) -> Self {
        SimplexView {
            prev_vertices: Seq::new(4, |j: int| prev_order[j] as usize),
            prev_proj: self.proj,
            prev_dim: self.dim,
            vertices: Seq::new(4, |j: int| self.vertices[order[j]]),
            proj,
            dim,
            eps_tol: self.eps_tol,
        }
    }

    /// The state reduced to the vertex of slot `i`: it comes first, with the
    /// coordinate one.
    pub open spec fn reduced_to_vertex(self, i: int) -> Self {
        self.retained(
            transposition(0, i),
            transposition(0, i),
            self.proj.update(0, RealOf::<P>::one_spec()),
            0,
        )
    }

    /// The state reduced to an edge: its two vertices come first, in the
    /// given order of slots, with the coordinates `c0` and `c1`.
    pub open spec fn reduced_to_edge(self, order: Seq<int>, c0: RealOf<P>, c1: RealOf<P>) -> Self {
        self.retained(order, order, self.proj.update(0, c0).update(1, c1), 1)
    }

    /// The state of a segment after the origin was located on it.
    pub open spec fn reduced_segment(self, location: SegmentPointLocation<RealOf<P>>) -> Self {
        match location {
            SegmentPointLocation::OnVertex(i) => self.reduced_to_vertex(i as int),
            SegmentPointLocation::OnEdge(coords) => self.reduced_to_edge(
                identity_order(),
                coords[0],
                coords[1],
            ),
        }
    }

    /// The state of a triangle after the origin was located on it.
    pub open spec fn reduced_triangle(self, location: TrianglePointLocation<RealOf<P>>) -> Self {
        match location {
            TrianglePointLocation::OnVertex(i) => self.reduced_to_vertex(i as int),
            TrianglePointLocation::OnEdge(e, coords) => if e == 1 {
                self.reduced_to_edge(triangle_edge_order(1), coords[1], coords[0])
            } else {
                self.reduced_to_edge(triangle_edge_order(e as int), coords[0], coords[1])
            },
            TrianglePointLocation::OnFace(coords) => self.retained(
                identity_order(),
                identity_order(),
                coords@,
                2,
            ),
            TrianglePointLocation::OnSolid => self.recorded(),
        }
    }

    /// The state of a tetrahedron after the origin was located on it.
    pub open spec fn reduced_tetrahedron(
        self,
        location: TetrahedronPointLocation<RealOf<P>>,
    ) -> Self {
        match location {
            TetrahedronPointLocation::OnVertex(i) => self.reduced_to_vertex(i as int),
            TetrahedronPointLocation::OnEdge(e, coords) => if e == 3 || e == 4 {
                self.reduced_to_edge(tetrahedron_edge_order(e as int), coords[1], coords[0])
            } else {
                self.reduced_to_edge(tetrahedron_edge_order(e as int), coords[0], coords[1])
            },
            TetrahedronPointLocation::OnFace(f, coords) => self.retained(
                tetrahedron_face_order(f as int),
                identity_order(),
                Seq::new(3, |j: int| coords[tetrahedron_face_coords(f as int)[j]]),
                2,
            ),
            TetrahedronPointLocation::OnSolid => self.recorded(),
        }
    }

    /// Whether `pt` depends affinely on the vertices in use, up to the
    /// tolerance: it coincides with the single vertex, lies on the line of
    /// the two vertices, or lies in the plane of the three.
    pub open spec fn affinely_dependent(self, pt: CSOPoint<P>) -> bool {
        let v = self.vertices;
        if self.dim == 0 {
            v[0].sub_spec(pt).norm_squared_spec().lt_spec(self.eps_tol)
        } else if self.dim == 1 {
            let ab = v[1].sub_spec(v[0]);
            let ac = pt.sub_spec(v[0]);
            ab.cross_spec(ac).norm_squared_spec().lt_spec(self.eps_tol)
        } else {
            let ab = v[1].sub_spec(v[0]);
            let ac = v[2].sub_spec(v[0]);
            let ap = pt.sub_spec(v[0]);
            let n = ab.cross_spec(ac).normalize_spec();
            n.dot_spec(ap).abs_spec().lt_spec(self.eps_tol)
        }
    }

    /// The state after `pt` was appended: the state before is recorded, and
    /// `pt` takes the next slot.
    pub open spec fn appended(self, pt: CSOPoint<P>) -> Self {
        SimplexView {
            vertices: self.vertices.update(self.dim + 1, pt),
            dim: (self.dim + 1) as usize,
            ..self.recorded()
        }
    }

    /// Whether one of the vertices in use has exactly the coordinates of
    /// `pt`.
    pub open spec fn contains_point(self, pt: P) -> bool {
        exists|i: int| 0 <= i <= self.dim && (#[trigger] self.vertices[i]).point.same_spec(pt)
    }

    /// The largest squared distance to the origin among the first `n`
    /// vertices, and zero where none is larger.
    pub open spec fn max_sq_len_upto(self, n: nat) -> RealOf<P>
        decreases n,
    {
        if n == 0 {
            RealOf::<P>::zero_spec()
        } else {
            let before = self.max_sq_len_upto((n - 1) as nat);
            let norm = self.vertices[n - 1].point.coords_spec().norm_squared_spec();
            if before.lt_spec(norm) {
                norm
            } else {
                before
            }
        }
    }
}


/// A simplex of dimension up to 3 that uses Voronoi regions for computing
/// point projections.
pub struct VoronoiSimplex<P: Point> {
    prev_vertices: [usize; 4],
    prev_proj: [RealOf<P>; 3],
    prev_dim: usize,
    vertices: [CSOPoint<P>; 4],
    proj: [RealOf<P>; 3],
    dim: usize,
    eps_tol: RealOf<P>,
}

impl<P: Point> View for VoronoiSimplex<P> {
    type V = SimplexView<P>;

    closed spec fn view(&self) -> SimplexView<P> {
        SimplexView {
            prev_vertices: self.prev_vertices@,
            prev_proj: self.prev_proj@,
            prev_dim: self.prev_dim,
            vertices: self.vertices@,
            proj: self.proj@,
            dim: self.dim,
            eps_tol: self.eps_tol,
        }
    }
}

impl<P: Point> VoronoiSimplex<P> {
    /// The dimensions are at most 3, and the recorded order names slots.
    #[verifier::type_invariant]
    spec fn inv(&self) -> bool {
        self@.wf()
    }
}

/// The tolerance of the degeneracy tests where none is given: a hundred
/// times the default tolerance of the scalar type.
pub open spec fn eps_tol_spec<N: Real>() -> N {
    N::default_epsilon_spec().mul_spec(N::from_u16_spec(100))
}

/// Computes the tolerance of the degeneracy tests where none is given.
pub fn eps_tol<N: Real>() -> (eps: N)
    ensures
        eps == eps_tol_spec::<N>(),
{
    N::default_epsilon().mul(N::from_u16(100))
}

impl<P: Point> VoronoiSimplex<P> {
    /// The simplex that `new` and `with_tolerance` create.
    pub open spec fn initial(eps_tol: RealOf<P>) -> SimplexView<P> {
        SimplexView {
            prev_vertices: Seq::new(4, |j: int| j as usize),
            prev_proj: Seq::new(3, |j: int| RealOf::<P>::zero_spec()),
            prev_dim: 0,
            vertices: Seq::new(
                4,
                |j: int|
                    CSOPoint {
                        point: P::origin_spec(),
                        orig1: P::origin_spec(),
                        orig2: P::origin_spec(),
                    },
            ),
            proj: Seq::new(3, |j: int| RealOf::<P>::zero_spec()),
            dim: 0,
            eps_tol,
        }
    }

    /// Creates a new simplex, which holds the origin alone, with the default
    /// tolerance.
    pub fn new() -> (s: VoronoiSimplex<P>)
        ensures
            s@ == Self::initial(eps_tol_spec::<RealOf<P>>()),
            s@.wf(),
    {
        Self::with_tolerance(eps_tol::<RealOf<P>>())
    }

    /// Creates a new simplex, which holds the origin alone, with the given
    /// tolerance for its degeneracy tests.
    pub fn with_tolerance(eps_tol: RealOf<P>) -> (s: VoronoiSimplex<P>)
        ensures
            s@ == Self::initial(eps_tol),
            s@.wf(),
    {
        let s = VoronoiSimplex {
            prev_vertices: [0, 1, 2, 3],
            prev_proj: [RealOf::<P>::zero();3],
            prev_dim: 0,
            vertices: [CSOPoint::origin();4],
            proj: [RealOf::<P>::zero();3],
            dim: 0,
            eps_tol,
        };
        assert(s@.prev_vertices =~= Self::initial(eps_tol).prev_vertices);
        assert(s@.prev_proj =~= Self::initial(eps_tol).prev_proj);
        assert(s@.vertices =~= Self::initial(eps_tol).vertices);
        s
    }

    /// Records the present dimension, coordinates and order as the previous
    /// ones.
    fn record(&mut self)
        ensures
            final(self)@ == old(self)@.recorded(),
            final(self)@.wf(),
    {
        proof {
            use_type_invariant(&*self);
        }
        self.prev_dim = self.dim;
        self.prev_proj = self.proj;
        self.prev_vertices = [0, 1, 2, 3];
        assert(self@.prev_vertices =~= old(self)@.recorded().prev_vertices);
    }

    /// Exchanges what two slots hold, and their places in the recorded order.
    fn swap(&mut self, i1: usize, i2: usize)
        requires
            i1 < 4,
            i2 < 4,
        ensures
            final(self)@ == (SimplexView {
                vertices: old(self)@.vertices.update(i1 as int, old(self)@.vertices[i2 as int]).update(
                    i2 as int,
                    old(self)@.vertices[i1 as int],
                ),
                prev_vertices: old(self)@.prev_vertices.update(
                    i1 as int,
                    old(self)@.prev_vertices[i2 as int],
                ).update(i2 as int, old(self)@.prev_vertices[i1 as int]),
                ..old(self)@
            }),
            final(self)@.wf(),
    {
        proof {
            use_type_invariant(&*self);
        }
        let v1 = self.vertices[i1];
        let v2 = self.vertices[i2];
        self.vertices[i1] = v2;
        self.vertices[i2] = v1;
        let p1 = self.prev_vertices[i1];
        let p2 = self.prev_vertices[i2];
        self.prev_vertices[i1] = p2;
        self.prev_vertices[i2] = p1;
    }

    /// Starts a new simplex of dimension 0 at `pt`.
    pub fn reset(&mut self, pt: CSOPoint<P>)
        ensures
            final(self)@ == (SimplexView {
                dim: 0,
                prev_dim: 0,
                vertices: old(self)@.vertices.update(0, pt),
                ..old(self)@
            }),
            final(self)@.wf(),
    {
        proof {
            use_type_invariant(&*self);
        }
        self.dim = 0;
        self.prev_dim = 0;
        self.vertices[0] = pt;
    }

    /// Tests whether `pt` depends affinely on the vertices in use, up to the
    /// tolerance.
    pub fn is_affinely_dependent(&self, pt: &CSOPoint<P>) -> (r: bool)
        ensures
            r == self@.affinely_dependent(*pt),
    {
        proof {
            use_type_invariant(&*self);
        }
        if self.dim == 0 {
            self.vertices[0].sub(*pt).norm_squared().lt(self.eps_tol)
        } else if self.dim == 1 {
            let ab = self.vertices[1].sub(self.vertices[0]);
            let ac = pt.sub(self.vertices[0]);
            ab.cross(ac).norm_squared().lt(self.eps_tol)
        } else {
            let ab = self.vertices[1].sub(self.vertices[0]);
            let ac = self.vertices[2].sub(self.vertices[0]);
            let ap = pt.sub(self.vertices[0]);
            let n = ab.cross(ac).normalize();
            n.dot(ap).abs().lt(self.eps_tol)
        }
    }

    /// Appends a point to the simplex, unless it depends affinely on the
    /// vertices in use.
    ///
    /// A point that is refused leaves the simplex as it is. A point that is
    /// taken raises the dimension by one, after the state before was
    /// recorded.
    pub fn add_point(&mut self, pt: CSOPoint<P>) -> (accepted: bool)
        requires
            old(self)@.dim < 3,
        ensures
            accepted == !old(self)@.affinely_dependent(pt),
            !accepted ==> final(self)@ == old(self)@,
            accepted ==> final(self)@ == old(self)@.appended(pt),
            accepted ==> final(self)@.dim == old(self)@.dim + 1,
            final(self)@.wf(),
    {
        proof {
            use_type_invariant(&*self);
        }
        if self.is_affinely_dependent(&pt) {
            return false;
        }
        self.record();
        self.dim = self.dim + 1;
        self.vertices[self.dim] = pt;
        true
    }

    /// The barycentric coordinate of index `i` of the point closest to the
    /// origin.
    pub fn proj_coord(&self, i: usize) -> (c: RealOf<P>)
        requires
            i <= self@.dim,
            i < 3,
        ensures
            c == self@.proj[i as int],
    {
        proof {
            use_type_invariant(&*self);
        }
        self.proj[i]
    }

    /// The vertex of index `i`.
    pub fn point(&self, i: usize) -> (pt: &CSOPoint<P>)
        requires
            i <= self@.dim,
        ensures
            *pt == self@.vertices[i as int],
    {
        proof {
            use_type_invariant(&*self);
        }
        &self.vertices[i]
    }

    /// The barycentric coordinate of index `i` that was recorded last.
    pub fn prev_proj_coord(&self, i: usize) -> (c: RealOf<P>)
        requires
            i <= self@.dim,
            i < 3,
        ensures
            c == self@.prev_proj[i as int],
    {
        proof {
            use_type_invariant(&*self);
        }
        self.prev_proj[i]
    }

    /// The vertex that the slot `i` of the recorded order refers to.
    pub fn prev_point(&self, i: usize) -> (pt: &CSOPoint<P>)
        requires
            i <= self@.prev_dim,
        ensures
            *pt == self@.vertices[self@.prev_vertices[i as int] as int],
    {
        proof {
            use_type_invariant(&*self);
        }
        &self.vertices[self.prev_vertices[i]]
    }

    /// Tests whether one of the vertices in use has exactly the coordinates
    /// of `pt`.
    pub fn contains_point(&self, pt: &P) -> (r: bool)
        ensures
            r == self@.contains_point(*pt),
    {
        proof {
            use_type_invariant(&*self);
        }
        let mut i: usize = 0;
        while i < self.dim + 1
            invariant
                self@.wf(),
                i <= self@.dim + 1,
                forall|j: int| 0 <= j < i ==> !(#[trigger] self@.vertices[j]).point.same_spec(*pt),
            decreases self@.dim + 1 - i,
        {
            if self.vertices[i].point.same(*pt) {
                return true;
            }
            i = i + 1;
        }
        false
    }

    /// The dimension of the simplex.
    pub fn dimension(&self) -> (d: usize)
        ensures
            d == self@.dim,
            d <= 3,
    {
        proof {
            use_type_invariant(&*self);
        }
        self.dim
    }

    /// The dimension of the simplex when its state was recorded last.
    pub fn prev_dimension(&self) -> (d: usize)
        ensures
            d == self@.prev_dim,
            d <= 3,
    {
        proof {
            use_type_invariant(&*self);
        }
        self.prev_dim
    }

    /// The largest squared distance to the origin among the vertices in use.
    pub fn max_sq_len(&self) -> (m: RealOf<P>)
        ensures
            m == self@.max_sq_len_upto((self@.dim + 1) as nat),
    {
        proof {
            use_type_invariant(&*self);
        }
        let mut max_sq_len = RealOf::<P>::zero();
        let mut i: usize = 0;
        while i < self.dim + 1
            invariant
                self@.wf(),
                i <= self@.dim + 1,
                max_sq_len == self@.max_sq_len_upto(i as nat),
            decreases self@.dim + 1 - i,
        {
            let norm = self.vertices[i].point.coords().norm_squared();
            if max_sq_len.lt(norm) {
                max_sq_len = norm;
            }
            i = i + 1;
        }
        max_sq_len
    }
}


impl<P: Point> SimplexView<P> {
    /// The segment of the first two vertices.
    pub open spec fn segment(self) -> Segment<P> {
        Segment { a: self.vertices[0].point, b: self.vertices[1].point }
    }

    /// The triangle of the first three vertices.
    pub open spec fn triangle(self) -> Triangle<P> {
        Triangle {
            a: self.vertices[0].point,
            b: self.vertices[1].point,
            c: self.vertices[2].point,
        }
    }

    /// The tetrahedron of the four vertices.
    pub open spec fn tetrahedron(self) -> Tetrahedron<P> {
        Tetrahedron {
            a: self.vertices[0].point,
            b: self.vertices[1].point,
            c: self.vertices[2].point,
            d: self.vertices[3].point,
        }
    }

    /// The projection of the origin on the simplex, taken as a solid shape
    /// that is not moved.
    pub open spec fn origin_projection<M: Isometry<P>>(self) -> P where
        Segment<P>: PointQuery<P, M>,
        Triangle<P>: PointQuery<P, M>,
        Tetrahedron<P>: PointQuery<P, M>,
     {
        let m = M::identity_spec();
        if self.dim == 0 {
            self.vertices[0].point
        } else if self.dim == 1 {
            self.segment().project_point_spec(&m, P::origin_spec(), true).point
        } else if self.dim == 2 {
            self.triangle().project_point_spec(&m, P::origin_spec(), true).point
        } else {
            self.tetrahedron().project_point_spec(&m, P::origin_spec(), true).point
        }
    }

    /// The projection of the origin on the simplex, as it comes with the
    /// feature on which it lies.
    pub open spec fn located_origin_projection<M: Isometry<P>>(self) -> P where
        Segment<P>: RichPointQuery<P, M, ExtraInfo = SegmentPointLocation<RealOf<P>>>,
        Triangle<P>: RichPointQuery<P, M, ExtraInfo = TrianglePointLocation<RealOf<P>>>,
        Tetrahedron<P>: RichPointQuery<P, M, ExtraInfo = TetrahedronPointLocation<RealOf<P>>>,
     {
        let m = M::identity_spec();
        if self.dim == 0 {
            self.vertices[0].point
        } else if self.dim == 1 {
            self.segment().project_point_with_extra_info_spec(&m, P::origin_spec(), true).0.point
        } else if self.dim == 2 {
            self.triangle().project_point_with_extra_info_spec(&m, P::origin_spec(), true).0.point
        } else {
            self.tetrahedron().project_point_with_extra_info_spec(
                &m,
                P::origin_spec(),
                true,
            ).0.point
        }
    }

    /// The state after the origin was projected on the simplex and the
    /// simplex reduced to the feature on which the projection lies. A
    /// location that names no vertex, edge or face leaves the state as it is.
    pub open spec fn reduced<M: Isometry<P>>(self) -> Self where
        Segment<P>: RichPointQuery<P, M, ExtraInfo = SegmentPointLocation<RealOf<P>>>,
        Triangle<P>: RichPointQuery<P, M, ExtraInfo = TrianglePointLocation<RealOf<P>>>,
        Tetrahedron<P>: RichPointQuery<P, M, ExtraInfo = TetrahedronPointLocation<RealOf<P>>>,
     {
        let m = M::identity_spec();
        if self.dim == 0 {
            self.reduced_to_vertex(0)
        } else if self.dim == 1 {
            let location = self.segment().project_point_with_extra_info_spec(
                &m,
                P::origin_spec(),
                true,
            ).1;
            if location.wf() {
                self.reduced_segment(location)
            } else {
                self
            }
        } else if self.dim == 2 {
            let location = self.triangle().project_point_with_extra_info_spec(
                &m,
                P::origin_spec(),
                true,
            ).1;
            if location.wf() {
                self.reduced_triangle(location)
            } else {
                self
            }
        } else {
            let location = self.tetrahedron().project_point_with_extra_info_spec(
                &m,
                P::origin_spec(),
                true,
            ).1;
            if location.wf() {
                self.reduced_tetrahedron(location)
            } else {
                self
            }
        }
    }
}

impl<P: Point> VoronoiSimplex<P> {
    /// Reduces the simplex to its vertex of slot `i`.
    fn reduce_to_vertex(&mut self, i: usize)
        requires
            i < 4,
        ensures
            final(self)@ == old(self)@.reduced_to_vertex(i as int),
            final(self)@.wf(),
    {
        proof {
            use_type_invariant(&*self);
        }
        self.record();
        self.swap(0, i);
        self.proj[0] = RealOf::<P>::one();
        self.dim = 0;
        assert(self@.vertices =~= old(self)@.reduced_to_vertex(i as int).vertices);
        assert(self@.prev_vertices =~= old(self)@.reduced_to_vertex(i as int).prev_vertices);
    }

    /// Reduces a simplex of dimension 0 to its only vertex.
    pub fn reduce_vertex(&mut self)
        requires
            old(self)@.dim == 0,
        ensures
            final(self)@ == old(self)@.reduced_to_vertex(0),
            final(self)@.wf(),
    {
        proof {
            use_type_invariant(&*self);
        }
        self.reduce_to_vertex(0);
    }

    /// Reduces a segment to the feature on which the origin was projected.
    pub fn reduce_segment(&mut self, location: SegmentPointLocation<RealOf<P>>)
        requires
            old(self)@.dim == 1,
            location.wf(),
        ensures
            final(self)@ == old(self)@.reduced_segment(location),
            final(self)@.wf(),
    {
        proof {
            use_type_invariant(&*self);
        }
        match location {
            SegmentPointLocation::OnVertex(i) => {
                self.reduce_to_vertex(i);
            },
            SegmentPointLocation::OnEdge(coords) => {
                self.record();
                self.proj[0] = coords[0];
                self.proj[1] = coords[1];
                assert(self@.vertices =~= old(self)@.reduced_segment(location).vertices);
                assert(self@.prev_vertices =~= old(self)@.reduced_segment(location).prev_vertices);
            },
        }
    }

    /// Reduces a triangle to the feature on which the origin was projected.
    pub fn reduce_triangle(&mut self, location: TrianglePointLocation<RealOf<P>>)
        requires
            old(self)@.dim == 2,
            location.wf(),
        ensures
            final(self)@ == old(self)@.reduced_triangle(location),
            final(self)@.wf(),
    {
        proof {
            use_type_invariant(&*self);
        }
        match location {
            TrianglePointLocation::OnVertex(i) => {
                self.reduce_to_vertex(i);
            },
            TrianglePointLocation::OnEdge(e, coords) => {
                self.record();
                if e == 0 {
                    self.proj[0] = coords[0];
                    self.proj[1] = coords[1];
                } else if e == 1 {
                    self.swap(0, 2);
                    self.proj[0] = coords[1];
                    self.proj[1] = coords[0];
                } else {
                    self.swap(1, 2);
                    self.proj[0] = coords[0];
                    self.proj[1] = coords[1];
                }
                self.dim = 1;
                assert(self@.vertices =~= old(self)@.reduced_triangle(location).vertices);
                assert(self@.prev_vertices =~= old(self)@.reduced_triangle(location).prev_vertices);
            },
            TrianglePointLocation::OnFace(coords) => {
                self.record();
                self.proj = coords;
                assert(self@.vertices =~= old(self)@.reduced_triangle(location).vertices);
                assert(self@.prev_vertices =~= old(self)@.reduced_triangle(location).prev_vertices);
            },
            TrianglePointLocation::OnSolid => {
                self.record();
            },
        }
    }

    /// Reduces a tetrahedron to the feature on which the origin was
    /// projected.
    pub fn reduce_tetrahedron(&mut self, location: TetrahedronPointLocation<RealOf<P>>)
        requires
            old(self)@.dim == 3,
            location.wf(),
        ensures
            final(self)@ == old(self)@.reduced_tetrahedron(location),
            final(self)@.wf(),
    {
        proof {
            use_type_invariant(&*self);
        }
        match location {
            TetrahedronPointLocation::OnVertex(i) => {
                self.reduce_to_vertex(i);
            },
            TetrahedronPointLocation::OnEdge(e, coords) => {
                self.record();
                if e == 0 {
                    // ab
                } else if e == 1 {
                    // ac
                    self.swap(1, 2);
                } else if e == 2 {
                    // ad
                    self.swap(1, 3);
                } else if e == 3 {
                    // bc
                    self.swap(0, 2);
                } else if e == 4 {
                    // bd
                    self.swap(0, 3);
                } else {
                    // cd
                    self.swap(0, 2);
                    self.swap(1, 3);
                }
                if e == 3 || e == 4 {
                    self.proj[0] = coords[1];
                    self.proj[1] = coords[0];
                } else {
                    self.proj[0] = coords[0];
                    self.proj[1] = coords[1];
                }
                self.dim = 1;
                assert(self@.vertices =~= old(self)@.reduced_tetrahedron(location).vertices);
                assert(self@.prev_vertices =~= old(self)@.reduced_tetrahedron(
                    location,
                ).prev_vertices);
            },
            TetrahedronPointLocation::OnFace(f, coords) => {
                self.record();
                if f == 0 {
                    // abc
                    self.proj = coords;
                } else if f == 1 {
                    // abd
                    self.vertices[2] = self.vertices[3];
                    self.proj = coords;
                } else if f == 2 {
                    // acd
                    self.vertices[1] = self.vertices[3];
                    self.proj[0] = coords[0];
                    self.proj[1] = coords[2];
                    self.proj[2] = coords[1];
                } else {
                    // bcd
                    self.vertices[0] = self.vertices[3];
                    self.proj[0] = coords[2];
                    self.proj[1] = coords[0];
                    self.proj[2] = coords[1];
                }
                self.dim = 2;
                assert(self@.vertices =~= old(self)@.reduced_tetrahedron(location).vertices);
                assert(self@.prev_vertices =~= old(self)@.reduced_tetrahedron(
                    location,
                ).prev_vertices);
                assert(self@.proj =~= old(self)@.reduced_tetrahedron(location).proj);
            },
            TetrahedronPointLocation::OnSolid => {
                self.record();
            },
        }
    }

    /// Projects the origin on the simplex and reduces the simplex to the
    /// smallest of its features that holds the projection, which is
    /// returned.
    ///
    /// The state before the reduction is recorded first. Where the projection
    /// comes with a location that names no vertex, edge or face, the simplex
    /// is left as it is.
    pub fn project_origin_and_reduce<M: Isometry<P>>(&mut self) -> (r: P) where
        Segment<P>: RichPointQuery<P, M, ExtraInfo = SegmentPointLocation<RealOf<P>>>,
        Triangle<P>: RichPointQuery<P, M, ExtraInfo = TrianglePointLocation<RealOf<P>>>,
        Tetrahedron<P>: RichPointQuery<P, M, ExtraInfo = TetrahedronPointLocation<RealOf<P>>>,

        ensures
            r == old(self)@.located_origin_projection::<M>(),
            final(self)@ == old(self)@.reduced::<M>(),
            final(self)@.wf(),
            final(self)@.dim <= old(self)@.dim,
    {
        proof {
            use_type_invariant(&*self);
        }
        if self.dim == 0 {
            self.reduce_vertex();
            self.vertices[0].point
        } else if self.dim == 1 {
            let seg = Segment::new(self.vertices[0].point, self.vertices[1].point);
            let (proj, location) = seg.project_point_with_extra_info(
                &M::identity(),
                &P::origin(),
                true,
            );
            if location.is_wf() {
                self.reduce_segment(location);
            }
            proj.point
        } else if self.dim == 2 {
            let tri = Triangle::new(
                self.vertices[0].point,
                self.vertices[1].point,
                self.vertices[2].point,
            );
            let (proj, location) = tri.project_point_with_extra_info(
                &M::identity(),
                &P::origin(),
                true,
            );
            if location.is_wf() {
                self.reduce_triangle(location);
            }
            proj.point
        } else {
            let tetr = Tetrahedron::new(
                self.vertices[0].point,
                self.vertices[1].point,
                self.vertices[2].point,
                self.vertices[3].point,
            );
            let (proj, location) = tetr.project_point_with_extra_info(
                &M::identity(),
                &P::origin(),
                true,
            );
            if location.is_wf() {
                self.reduce_tetrahedron(location);
            }
            proj.point
        }
    }

    /// Projects the origin on the simplex, which stays as it is.
    pub fn project_origin<M: Isometry<P>>(&self) -> (r: P) where
        Segment<P>: PointQuery<P, M>,
        Triangle<P>: PointQuery<P, M>,
        Tetrahedron<P>: PointQuery<P, M>,

        ensures
            r == self@.origin_projection::<M>(),
    {
        proof {
            use_type_invariant(&*self);
        }
        if self.dim == 0 {
            self.vertices[0].point
        } else if self.dim == 1 {
            let seg = Segment::new(self.vertices[0].point, self.vertices[1].point);
            seg.project_point(&M::identity(), &P::origin(), true).point
        } else if self.dim == 2 {
            let tri = Triangle::new(
                self.vertices[0].point,
                self.vertices[1].point,
                self.vertices[2].point,
            );
            tri.project_point(&M::identity(), &P::origin(), true).point
        } else {
            let tetr = Tetrahedron::new(
                self.vertices[0].point,
                self.vertices[1].point,
                self.vertices[2].point,
                self.vertices[3].point,
            );
            tetr.project_point(&M::identity(), &P::origin(), true).point
        }
    }

    /// Replaces each vertex in use by what `f` makes of it.
    pub fn modify_pnts<F: Fn(CSOPoint<P>) -> CSOPoint<P>>(&mut self, f: &F)
        requires
            forall|pt: CSOPoint<P>| call_requires(f, (pt,)),
        ensures
            final(self)@.wf(),
            final(self)@.vertices.len() == 4,
            forall|i: int|
                0 <= i <= old(self)@.dim ==> call_ensures(
                    f,
                    (old(self)@.vertices[i],),
                    #[trigger] final(self)@.vertices[i],
                ),
            forall|i: int|
                old(self)@.dim < i < 4 ==> final(self)@.vertices[i] == old(self)@.vertices[i],
            final(self)@ == (SimplexView { vertices: final(self)@.vertices, ..old(self)@ }),
    {
        proof {
            use_type_invariant(&*self);
        }
        let mut i: usize = 0;
        while i < self.dim + 1
            invariant
                self@.wf(),
                i <= self@.dim + 1,
                forall|pt: CSOPoint<P>| call_requires(f, (pt,)),
                self@ == (SimplexView { vertices: self@.vertices, ..old(self)@ }),
                forall|j: int|
                    0 <= j < i ==> call_ensures(
                        f,
                        (old(self)@.vertices[j],),
                        #[trigger] self@.vertices[j],
                    ),
                forall|j: int| i <= j < 4 ==> self@.vertices[j] == old(self)@.vertices[j],
            decreases self@.dim + 1 - i,
        {
            let moved = f(self.vertices[i]);
            self.vertices[i] = moved;
            i = i + 1;
        }
    }
}


/// Where the origin projects inside the face of a triangle, the reduction
/// keeps the triangle: the dimension stays 2, the vertices stay in their
/// slots, the coordinates are those of the projection, and the previous
/// dimension, coordinates and order are those from before the call.
pub proof fn lemma_reduce_inside_face<P: Point, M: Isometry<P>>(
    s: SimplexView<P>,
    coords: [RealOf<P>; 3],
) where
    Segment<P>: RichPointQuery<P, M, ExtraInfo = SegmentPointLocation<RealOf<P>>>,
    Triangle<P>: RichPointQuery<P, M, ExtraInfo = TrianglePointLocation<RealOf<P>>>,
    Tetrahedron<P>: RichPointQuery<P, M, ExtraInfo = TetrahedronPointLocation<RealOf<P>>>,

    requires
        s.wf(),
        s.dim == 2,
        s.triangle().project_point_with_extra_info_spec(
            &M::identity_spec(),
            P::origin_spec(),
            true,
        ).1 == TrianglePointLocation::OnFace(coords),
    ensures
        s.reduced::<M>().dim == 2,
        s.reduced::<M>().vertices == s.vertices,
        s.reduced::<M>().proj == coords@,
        s.reduced::<M>().prev_dim == s.dim,
        s.reduced::<M>().prev_proj == s.proj,
        s.reduced::<M>().prev_vertices == Seq::new(4, |j: int| j as usize),
{
}

/// A reduction never raises the dimension, and it records the dimension and
/// the coordinates from before the call, unless the projection came with a
/// location out of range.
pub proof fn lemma_reduce_records_previous<P: Point, M: Isometry<P>>(s: SimplexView<P>) where
    Segment<P>: RichPointQuery<P, M, ExtraInfo = SegmentPointLocation<RealOf<P>>>,
    Triangle<P>: RichPointQuery<P, M, ExtraInfo = TrianglePointLocation<RealOf<P>>>,
    Tetrahedron<P>: RichPointQuery<P, M, ExtraInfo = TetrahedronPointLocation<RealOf<P>>>,

    requires
        s.wf(),
    ensures
        s.reduced::<M>().wf(),
        s.reduced::<M>().dim <= s.dim,
        s.reduced::<M>() == s || (s.reduced::<M>().prev_dim == s.dim && s.reduced::<M>().prev_proj
            == s.proj),
{
}

/// Whether an order of the four slots is its own inverse: it exchanges slots
/// in pairs.
pub open spec fn is_exchange(order: Seq<int>) -> bool {
    &&& order.len() == 4
    &&& forall|j: int| 0 <= j < 4 ==> 0 <= #[trigger] order[j] < 4 && order[order[j]] == j
}

/// The orders by which a simplex is reduced to a vertex or to an edge
/// exchange slots in pairs.
pub proof fn lemma_vertex_and_edge_orders_exchange(i: int, e: int)
    requires
        0 <= i < 4,
        0 <= e < 6,
    ensures
        is_exchange(transposition(0, i)),
        e < 3 ==> is_exchange(triangle_edge_order(e)),
        is_exchange(tetrahedron_edge_order(e)),
{
}

/// After a reduction that exchanges slots in pairs, the recorded order leads
/// from each former slot to the vertex that it held: no vertex is lost, and
/// the caller can tell which ones were dropped.
pub proof fn lemma_previous_points_after_exchange<P: Point>(
    s: SimplexView<P>,
    order: Seq<int>,
    proj: Seq<RealOf<P>>,
    dim: usize,
    i: int,
)
    requires
        s.wf(),
        0 <= i < 4,
        is_exchange(order),
    ensures
        ({
            let r = s.retained(order, order, proj, dim);
            r.vertices[r.prev_vertices[i] as int] == s.vertices[i]
        }),
{
}

/// A simplex reduced to an edge of a triangle holds, in its first two slots,
/// the two vertices of that edge, each with its own barycentric coordinate.
pub proof fn lemma_triangle_edge_is_kept<P: Point>(
    s: SimplexView<P>,
    e: usize,
    coords: [RealOf<P>; 2],
)
    requires
        s.wf(),
        e < 3,
    ensures
        ({
            let r = s.reduced_triangle(TrianglePointLocation::OnEdge(e, coords));
            let (a, b) = triangle_edge_vertices(e as int);
            &&& r.dim == 1
            &&& (r.vertices[0] == s.vertices[a] && r.proj[0] == coords[0] && r.vertices[1]
                == s.vertices[b] && r.proj[1] == coords[1]) || (r.vertices[0] == s.vertices[b]
                && r.proj[0] == coords[1] && r.vertices[1] == s.vertices[a] && r.proj[1]
                == coords[0])
        }),
{
}

/// A simplex reduced to an edge of a tetrahedron holds, in its first two
/// slots, the two vertices of that edge, each with its own barycentric
/// coordinate.
pub proof fn lemma_tetrahedron_edge_is_kept<P: Point>(
    s: SimplexView<P>,
    e: usize,
    coords: [RealOf<P>; 2],
)
    requires
        s.wf(),
        e < 6,
    ensures
        ({
            let r = s.reduced_tetrahedron(TetrahedronPointLocation::OnEdge(e, coords));
            let (a, b) = tetrahedron_edge_vertices(e as int);
            &&& r.dim == 1
            &&& (r.vertices[0] == s.vertices[a] && r.proj[0] == coords[0] && r.vertices[1]
                == s.vertices[b] && r.proj[1] == coords[1]) || (r.vertices[0] == s.vertices[b]
                && r.proj[0] == coords[1] && r.vertices[1] == s.vertices[a] && r.proj[1]
                == coords[0])
        }),
{
}

/// A simplex reduced to a face of a tetrahedron holds, in its first three
/// slots, the three vertices of that face, each with its own barycentric
/// coordinate.
pub proof fn lemma_tetrahedron_face_is_kept<P: Point>(
    s: SimplexView<P>,
    f: usize,
    coords: [RealOf<P>; 3],
    slot: int,
)
    requires
        s.wf(),
        f < 4,
        0 <= slot < 3,
    ensures
        ({
            let r = s.reduced_tetrahedron(TetrahedronPointLocation::OnFace(f, coords));
            let k = tetrahedron_face_coords(f as int)[slot];
            &&& r.dim == 2
            &&& 0 <= k < 3
            &&& r.vertices[slot] == s.vertices[tetrahedron_face_vertices(f as int)[k]]
            &&& r.proj[slot] == coords[k]
        }),
{
}

/// A simplex reduced to a vertex holds that vertex in its first slot, with
/// the coordinate one.
pub proof fn lemma_vertex_is_kept<P: Point>(s: SimplexView<P>, i: int)
    requires
        s.wf(),
        0 <= i < 4,
    ensures
        s.reduced_to_vertex(i).dim == 0,
        s.reduced_to_vertex(i).vertices[0] == s.vertices[i],
        s.reduced_to_vertex(i).proj[0] == RealOf::<P>::one_spec(),
{
}

} // verus!
