//! Measures of triangles.

use vstd::prelude::*;
use crate::math::{Point, Real, RealOf, Vector};

verus! {

/// Three scalars in increasing order, as comparisons by `lt_spec` tell it:
/// the triple `(least, middle, greatest)`.
pub open spec fn sort3_spec<N: Real>(a: N, b: N, c: N) -> (N, N, N) {
    if b.lt_spec(a) {
        if c.lt_spec(a) {
            if c.lt_spec(b) {
                (c, b, a)
            } else {
                (b, c, a)
            }
        } else {
            (b, a, c)
        }
    } else if c.lt_spec(a) {
        (c, a, b)
    } else if c.lt_spec(b) {
        (a, c, b)
    } else {
        (a, b, c)
    }
}

/// Whether `r` holds the three values `a`, `b` and `c`, in some order.
pub open spec fn is_arrangement<N>(r: (N, N, N), a: N, b: N, c: N) -> bool {
    ||| r == (a, b, c)
    ||| r == (a, c, b)
    ||| r == (b, a, c)
    ||| r == (b, c, a)
    ||| r == (c, a, b)
    ||| r == (c, b, a)
}

/// Sorts three scalars in increasing order.
pub fn sort3<N: Real>(a: N, b: N, c: N) -> (r: (N, N, N))
    ensures
        r == sort3_spec(a, b, c),
        is_arrangement(r, a, b, c),
{
    let a_b = b.lt(a);
    let a_c = c.lt(a);
    let b_c = c.lt(b);

    if a_b {
        if a_c {
            if b_c {
                (c, b, a)
            } else {
                (b, c, a)
            }
        } else {
            (b, a, c)
        }
    } else if a_c {
        (c, a, b)
    } else if b_c {
        (a, c, b)
    } else {
        (a, b, c)
    }
}

/// The area of the triangle whose sides have the lengths `ab`, `bc` and
/// `ca`, by the formula of Kahan: with the lengths sorted as `a >= b >= c`,
/// a quarter of the square root of
/// `(a + (b + c)) * (c - (a - b)) * (c + (a - b)) * (a + (b - c))`.
pub open spec fn area_of_sides<N: Real>(ab: N, bc: N, ca: N) -> N {
    let (c, b, a) = sort3_spec(ab, bc, ca);
    let sqr = a.add_spec(b.add_spec(c)).mul_spec(c.sub_spec(a.sub_spec(b))).mul_spec(
        c.add_spec(a.sub_spec(b)),
    ).mul_spec(a.add_spec(b.sub_spec(c)));
    sqr.sqrt_spec().div_spec(N::from_u16_spec(4))
}

/// The area of a triangle.
pub open spec fn triangle_area_spec<P: Point>(pa: P, pb: P, pc: P) -> RealOf<P> {
    area_of_sides(pa.distance_spec(pb), pb.distance_spec(pc), pc.distance_spec(pa))
}

/// Computes the area of a triangle.
pub fn triangle_area<P: Point>(pa: &P, pb: &P, pc: &P) -> (area: RealOf<P>)
    ensures
        area == triangle_area_spec(*pa, *pb, *pc),
{
    // Kahan's formula.
    let (c, b, a) = sort3(pa.distance(*pb), pb.distance(*pc), pc.distance(*pa));

    let sqr = a.add(b.add(c)).mul(c.sub(a.sub(b))).mul(c.add(a.sub(b))).mul(a.add(b.sub(c)));

    sqr.sqrt().div(RealOf::<P>::from_u16(4))
}

/// The perimeter of a triangle.
pub open spec fn triangle_perimeter_spec<P: Point>(pa: P, pb: P, pc: P) -> RealOf<P> {
    pa.distance_spec(pb).add_spec(pb.distance_spec(pc)).add_spec(pc.distance_spec(pa))
}

/// Computes the perimeter of a triangle.
pub fn triangle_perimeter<P: Point>(pa: &P, pb: &P, pc: &P) -> (perimeter: RealOf<P>)
    ensures
        perimeter == triangle_perimeter_spec(*pa, *pb, *pc),
{
    pa.distance(*pb).add(pb.distance(*pc)).add(pc.distance(*pa))
}

/// The larger of two scalars, the first where neither is larger.
pub open spec fn larger_of<N: Real>(a: N, b: N) -> N {
    if a.lt_spec(b) {
        b
    } else {
        a
    }
}

/// The sphere around the mean of three points that reaches the furthest of
/// them.
pub open spec fn bounding_sphere_spec<P: Point>(pa: P, pb: P, pc: P) -> (P, RealOf<P>) {
    let third = RealOf::<P>::one_spec().div_spec(RealOf::<P>::from_u16_spec(3));
    let center = P::origin_spec().translate_spec(
        pa.coords_spec().add_spec(pb.coords_spec()).add_spec(pc.coords_spec()).scale_spec(third),
    );
    let zero = RealOf::<P>::zero_spec();
    let sqradius = larger_of(
        larger_of(
            larger_of(zero, pa.sub_spec(center).norm_squared_spec()),
            pb.sub_spec(center).norm_squared_spec(),
        ),
        pc.sub_spec(center).norm_squared_spec(),
    );
    (center, sqradius.sqrt_spec())
}

/// Computes the sphere around the mean of three points that reaches the
/// furthest of them.
pub fn bounding_sphere<P: Point>(pa: &P, pb: &P, pc: &P) -> (sphere: (P, RealOf<P>))
    ensures
        sphere == bounding_sphere_spec(*pa, *pb, *pc),
{
    let third = RealOf::<P>::one().div(RealOf::<P>::from_u16(3));
    let center = P::origin().translate(pa.coords().add(pb.coords()).add(pc.coords()).scale(third));
    let mut sqradius = RealOf::<P>::zero();
    let da = pa.sub(center).norm_squared();
    if sqradius.lt(da) {
        sqradius = da;
    }
    let db = pb.sub(center).norm_squared();
    if sqradius.lt(db) {
        sqradius = db;
    }
    let dc = pc.sub(center).norm_squared();
    if sqradius.lt(dc) {
        sqradius = dc;
    }
    (center, sqradius.sqrt())
}

/// Twice the squared area of the parallelogram on the vectors `a` and `b`:
/// the denominator of the circumcenter.
pub open spec fn circumcircle_denominator<V: Vector>(a: V, b: V) -> V::Real {
    let na = a.norm_squared_spec();
    let nb = b.norm_squared_spec();
    let dab = a.dot_spec(b);
    V::Real::from_u16_spec(2).mul_spec(na.mul_spec(nb).sub_spec(dab.mul_spec(dab)))
}

/// The center and the radius of the circle through the three vertices of a
/// triangle; for a triangle whose vertices are aligned, a sphere that bounds
/// them.
pub open spec fn circumcircle_spec<P: Point>(pa: P, pb: P, pc: P) -> (P, RealOf<P>) {
    let a = pa.sub_spec(pc);
    let b = pb.sub_spec(pc);
    let na = a.norm_squared_spec();
    let nb = b.norm_squared_spec();
    let denom = circumcircle_denominator(a, b);
    if denom.is_zero_spec() {
        bounding_sphere_spec(pa, pb, pc)
    } else {
        let k = b.scale_spec(na).sub_spec(a.scale_spec(nb));
        let offset = a.scale_spec(k.dot_spec(b)).sub_spec(b.scale_spec(k.dot_spec(a)));
        let center = pc.translate_spec(offset.unscale_spec(denom));
        (center, pa.distance_spec(center))
    }
}

/// Computes the circumcircle of a triangle.
pub fn circumcircle<P: Point>(pa: &P, pb: &P, pc: &P) -> (circle: (P, RealOf<P>))
    ensures
        circle == circumcircle_spec(*pa, *pb, *pc),
{
    let a = pa.sub(*pc);
    let b = pb.sub(*pc);

    let na = a.norm_squared();
    let nb = b.norm_squared();

    let dab = a.dot(b);

    let denom = RealOf::<P>::from_u16(2).mul(na.mul(nb).sub(dab.mul(dab)));

    if denom.is_zero() {
        // The triangle is degenerate.
        bounding_sphere(pa, pb, pc)
    } else {
        let k = b.scale(na).sub(a.scale(nb));

        let center = pc.translate(a.scale(k.dot(b)).sub(b.scale(k.dot(a))).unscale(denom));
        let radius = pa.distance(center);

        (center, radius)
    }
}

/// Whether three points are aligned: the squared length of the cross
/// product of two sides is below the square of a hundred times the default
/// tolerance.
pub open spec fn is_affinely_dependent_triangle_spec<P: Point>(p1: P, p2: P, p3: P) -> bool {
    let p1p2 = p2.sub_spec(p1);
    let p1p3 = p3.sub_spec(p1);
    let eps_tol = RealOf::<P>::default_epsilon_spec().mul_spec(RealOf::<P>::from_u16_spec(100));
    p1p2.cross_spec(p1p3).norm_squared_spec().sub_spec(RealOf::<P>::zero_spec()).abs_spec().lt_spec(
        eps_tol.mul_spec(eps_tol),
    )
}

/// Tests if three points are aligned, up to a tolerance.
pub fn is_affinely_dependent_triangle<P: Point>(p1: &P, p2: &P, p3: &P) -> (r: bool)
    ensures
        r == is_affinely_dependent_triangle_spec(*p1, *p2, *p3),
{
    let p1p2 = p2.sub(*p1);
    let p1p3 = p3.sub(*p1);

    let eps_tol = RealOf::<P>::default_epsilon().mul(RealOf::<P>::from_u16(100));

    p1p2.cross(p1p3).norm_squared().sub(RealOf::<P>::zero()).abs().lt(eps_tol.mul(eps_tol))
}

/// Whether the projection of `p - from` on the side `side` falls within that
/// side: the dot product of the two is neither negative nor larger than the
/// squared length of the side.
pub open spec fn projects_within<V: Vector>(to_point: V, side: V) -> bool {
    let d = to_point.dot_spec(side);
    V::Real::zero_spec().le_spec(d) && d.le_spec(side.norm_squared_spec())
}

/// Whether `p` lies inside the triangle: seen from each vertex, it projects
/// within the side that leaves that vertex.
pub open spec fn is_point_in_triangle_spec<P: Point>(p: P, p1: P, p2: P, p3: P) -> bool {
    &&& projects_within(p.sub_spec(p1), p2.sub_spec(p1))
    &&& projects_within(p.sub_spec(p2), p3.sub_spec(p2))
    &&& projects_within(p.sub_spec(p3), p1.sub_spec(p3))
}

/// Tests if a point is inside of a triangle.
pub fn is_point_in_triangle<P: Point>(p: &P, p1: &P, p2: &P, p3: &P) -> (r: bool)
    ensures
        r == is_point_in_triangle_spec(*p, *p1, *p2, *p3),
{
    let p1p2 = p2.sub(*p1);
    let p2p3 = p3.sub(*p2);
    let p3p1 = p1.sub(*p3);

    let p1p = p.sub(*p1);
    let p2p = p.sub(*p2);
    let p3p = p.sub(*p3);

    let d11 = p1p.dot(p1p2);
    let d12 = p2p.dot(p2p3);
    let d13 = p3p.dot(p3p1);

    let zero = RealOf::<P>::zero();

    zero.le(d11) && d11.le(p1p2.norm_squared()) && zero.le(d12) && d12.le(p2p3.norm_squared())
        && zero.le(d13) && d13.le(p3p1.norm_squared())
}

} // verus!
