//! Closest points between two infinite lines.

use vstd::prelude::*;
use crate::math::{Point, Real, RealOf, Vector};

verus! {

/// The parameters, along each line, of the two points that realise the
/// distance between the lines `orig1 + s * dir1` and `orig2 + t * dir2`.
///
/// A line whose direction has a squared length within the default tolerance
/// is taken as its origin alone. Where the two directions are parallel up to
/// the tolerance, the first parameter is zero, so that the result stays
/// bounded as the lines approach parallelism.
pub open spec fn line_against_line_parameters_spec<P: Point>(
    orig1: P,
    dir1: P::Vector,
    orig2: P,
    dir2: P::Vector,
) -> (RealOf<P>, RealOf<P>) {
    let r = orig1.sub_spec(orig2);
    let a = dir1.norm_squared_spec();
    let e = dir2.norm_squared_spec();
    let f = dir2.dot_spec(r);
    let zero = RealOf::<P>::zero_spec();
    let eps = RealOf::<P>::default_epsilon_spec();
    if a.le_spec(eps) && e.le_spec(eps) {
        (zero, zero)
    } else if a.le_spec(eps) {
        (zero, f.div_spec(e))
    } else {
        let c = dir1.dot_spec(r);
        if e.le_spec(eps) {
            (c.neg_spec().div_spec(a), zero)
        } else {
            let b = dir1.dot_spec(dir2);
            let ae = a.mul_spec(e);
            let bb = b.mul_spec(b);
            let denom = ae.sub_spec(bb);
            let s = if eps.lt_spec(denom) && !ae.ulps_eq_spec(bb) {
                b.mul_spec(f).sub_spec(c.mul_spec(e)).div_spec(denom)
            } else {
                zero
            };
            (s, b.mul_spec(s).add_spec(f).div_spec(e))
        }
    }
}

/// Computes the parameters, along each line, of the two points that realise
/// the distance between two lines.
pub fn line_against_line_parameters<P: Point>(
    orig1: &P,
    dir1: &P::Vector,
    orig2: &P,
    dir2: &P::Vector,
) -> (st: (RealOf<P>, RealOf<P>))
    ensures
        st == line_against_line_parameters_spec(*orig1, *dir1, *orig2, *dir2),
{
    let r = orig1.sub(*orig2);
    let a = dir1.norm_squared();
    let e = dir2.norm_squared();
    let f = dir2.dot(r);
    let zero = RealOf::<P>::zero();
    let eps = RealOf::<P>::default_epsilon();

    if a.le(eps) && e.le(eps) {
        (zero, zero)
    } else if a.le(eps) {
        (zero, f.div(e))
    } else {
        let c = dir1.dot(r);
        if e.le(eps) {
            (c.neg().div(a), zero)
        } else {
            let b = dir1.dot(*dir2);
            let ae = a.mul(e);
            let bb = b.mul(b);
            let denom = ae.sub(bb);
            let s = if eps.lt(denom) && !ae.ulps_eq(bb) {
                b.mul(f).sub(c.mul(e)).div(denom)
            } else {
                zero
            };
            (s, b.mul(s).add(f).div(e))
        }
    }
}

/// The two points, one on each line, that realise the distance between the
/// lines.
pub open spec fn line_against_line_spec<P: Point>(
    orig1: P,
    dir1: P::Vector,
    orig2: P,
    dir2: P::Vector,
) -> (P, P) {
    let (s, t) = line_against_line_parameters_spec(orig1, dir1, orig2, dir2);
    (orig1.translate_spec(dir1.scale_spec(s)), orig2.translate_spec(dir2.scale_spec(t)))
}

/// Computes the two points, one on each line, that realise the distance
/// between two lines.
pub fn line_against_line<P: Point>(
    orig1: &P,
    dir1: &P::Vector,
    orig2: &P,
    dir2: &P::Vector,
) -> (pts: (P, P))
    ensures
        pts == line_against_line_spec(*orig1, *dir1, *orig2, *dir2),
{
    let (s, t) = line_against_line_parameters(orig1, dir1, orig2, dir2);
    (orig1.translate(dir1.scale(s)), orig2.translate(dir2.scale(t)))
}

} // verus!
