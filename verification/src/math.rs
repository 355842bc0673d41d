//! The numeric vocabulary of the library: scalars, vectors, points and rigid
//! transformations.
//!
//! The library is generic over these traits. Each operation comes as a pair:
//! a specification function that names the value of the operation, and an
//! executable method that is required to return exactly that value. Nothing
//! else is assumed of an operation; in particular no algebraic law is taken
//! for granted, so that rounding arithmetic is a valid implementation.

use vstd::prelude::*;

verus! {

/// A real scalar.
pub trait Real: Copy {
    /// The additive identity.
    spec fn zero_spec() -> Self;

    /// Returns the additive identity.
    fn zero() -> (r: Self)
        ensures
            r == Self::zero_spec(),
    ;

    /// The multiplicative identity.
    spec fn one_spec() -> Self;

    /// Returns the multiplicative identity.
    fn one() -> (r: Self)
        ensures
            r == Self::one_spec(),
    ;

    /// The scalar that stands for a small natural number.
    spec fn from_u16_spec(n: u16) -> Self;

    /// Converts a small natural number to a scalar.
    fn from_u16(n: u16) -> (r: Self)
        ensures
            r == Self::from_u16_spec(n),
    ;

    /// The default tolerance of approximate comparisons for this scalar type.
    spec fn default_epsilon_spec() -> Self;

    /// Returns the default tolerance of approximate comparisons.
    fn default_epsilon() -> (r: Self)
        ensures
            r == Self::default_epsilon_spec(),
    ;

    /// The sum `self + rhs`.
    spec fn add_spec(self, rhs: Self) -> Self;

    /// Computes `self + rhs`.
    fn add(self, rhs: Self) -> (r: Self)
        ensures
            r == self.add_spec(rhs),
    ;

    /// The difference `self - rhs`.
    spec fn sub_spec(self, rhs: Self) -> Self;

    /// Computes `self - rhs`.
    fn sub(self, rhs: Self) -> (r: Self)
        ensures
            r == self.sub_spec(rhs),
    ;

    /// The product `self * rhs`.
    spec fn mul_spec(self, rhs: Self) -> Self;

    /// Computes `self * rhs`.
    fn mul(self, rhs: Self) -> (r: Self)
        ensures
            r == self.mul_spec(rhs),
    ;

    /// The quotient `self / rhs`.
    spec fn div_spec(self, rhs: Self) -> Self;

    /// Computes `self / rhs`.
    fn div(self, rhs: Self) -> (r: Self)
        ensures
            r == self.div_spec(rhs),
    ;

    /// The opposite `-self`.
    spec fn neg_spec(self) -> Self;

    /// Computes `-self`.
    fn neg(self) -> (r: Self)
        ensures
            r == self.neg_spec(),
    ;

    /// The absolute value of `self`.
    spec fn abs_spec(self) -> Self;

    /// Computes the absolute value of `self`.
    fn abs(self) -> (r: Self)
        ensures
            r == self.abs_spec(),
    ;

    /// The square root of `self`.
    spec fn sqrt_spec(self) -> Self;

    /// Computes the square root of `self`.
    fn sqrt(self) -> (r: Self)
        ensures
            r == self.sqrt_spec(),
    ;

    /// Whether `self` is zero.
    spec fn is_zero_spec(self) -> bool;

    /// Tests whether `self` is zero.
    fn is_zero(self) -> (r: bool)
        ensures
            r == self.is_zero_spec(),
    ;

    /// Whether `self < rhs`.
    spec fn lt_spec(self, rhs: Self) -> bool;

    /// Tests `self < rhs`.
    fn lt(self, rhs: Self) -> (r: bool)
        ensures
            r == self.lt_spec(rhs),
    ;

    /// Whether `self <= rhs`.
    spec fn le_spec(self, rhs: Self) -> bool;

    /// Tests `self <= rhs`.
    fn le(self, rhs: Self) -> (r: bool)
        ensures
            r == self.le_spec(rhs),
    ;

    /// Whether `self` and `rhs` are equal up to a few units in the last place.
    spec fn ulps_eq_spec(self, rhs: Self) -> bool;

    /// Tests whether `self` and `rhs` are equal up to a few units in the last
    /// place.
    fn ulps_eq(self, rhs: Self) -> (r: bool)
        ensures
            r == self.ulps_eq_spec(rhs),
    ;
}

/// A value that is meant to have unit length.
///
/// The wrapper records an intent; it does not check the length.
#[derive(Clone, Copy, Debug)]
pub struct Unit<V> {
    /// The wrapped value.
    pub value: V,
}

impl<V: Copy> Unit<V> {
    /// Wraps a value that the caller knows to have unit length.
    pub fn new_unchecked(value: V) -> (u: Unit<V>)
        ensures
            u.value == value,
    {
        Unit { value }
    }

    /// The wrapped value.
    pub fn unwrap(self) -> (v: V)
        ensures
            v == self.value,
    {
        self.value
    }
}

/// A vector of a three-dimensional Euclidean space.
pub trait Vector: Copy {
    /// The scalar type of the coordinates.
    type Real: Real;

    /// The unit vector along the second axis.
    spec fn y_spec() -> Self;

    /// Returns the unit vector along the second axis.
    fn y() -> (r: Self)
        ensures
            r == Self::y_spec(),
    ;

    /// The vector whose coordinates all equal `s`.
    spec fn from_element_spec(s: Self::Real) -> Self;

    /// Returns the vector whose coordinates all equal `s`.
    fn from_element(s: Self::Real) -> (r: Self)
        ensures
            r == Self::from_element_spec(s),
    ;

    /// The dot product of `self` and `rhs`.
    spec fn dot_spec(self, rhs: Self) -> Self::Real;

    /// Computes the dot product of `self` and `rhs`.
    fn dot(self, rhs: Self) -> (r: Self::Real)
        ensures
            r == self.dot_spec(rhs),
    ;

    /// The cross product of `self` and `rhs`.
    spec fn cross_spec(self, rhs: Self) -> Self;

    /// Computes the cross product of `self` and `rhs`.
    fn cross(self, rhs: Self) -> (r: Self)
        ensures
            r == self.cross_spec(rhs),
    ;

    /// The squared length of `self`.
    spec fn norm_squared_spec(self) -> Self::Real;

    /// Computes the squared length of `self`.
    fn norm_squared(self) -> (r: Self::Real)
        ensures
            r == self.norm_squared_spec(),
    ;

    /// The length of `self`.
    spec fn norm_spec(self) -> Self::Real;

    /// Computes the length of `self`.
    fn norm(self) -> (r: Self::Real)
        ensures
            r == self.norm_spec(),
    ;

    /// The vector `self` divided by its length.
    spec fn normalize_spec(self) -> Self;

    /// Computes `self` divided by its length.
    fn normalize(self) -> (r: Self)
        ensures
            r == self.normalize_spec(),
    ;

    /// The direction and the length of `self`, or `None` where the length does
    /// not exceed `min_norm`.
    spec fn try_normalize_spec(self, min_norm: Self::Real) -> Option<(Unit<Self>, Self::Real)>;

    /// Splits `self` into its direction and its length; gives `None` where the
    /// length does not exceed `min_norm`.
    fn try_normalize(self, min_norm: Self::Real) -> (r: Option<(Unit<Self>, Self::Real)>)
        ensures
            r == self.try_normalize_spec(min_norm),
    ;

    /// The opposite `-self`.
    spec fn neg_spec(self) -> Self;

    /// Computes `-self`.
    fn neg(self) -> (r: Self)
        ensures
            r == self.neg_spec(),
    ;

    /// The vector `self` scaled by `s`.
    spec fn scale_spec(self, s: Self::Real) -> Self;

    /// Computes `self * s`.
    fn scale(self, s: Self::Real) -> (r: Self)
        ensures
            r == self.scale_spec(s),
    ;

    /// The vector `self` divided by `s`.
    spec fn unscale_spec(self, s: Self::Real) -> Self;

    /// Computes `self / s`.
    fn unscale(self, s: Self::Real) -> (r: Self)
        ensures
            r == self.unscale_spec(s),
    ;

    /// The sum `self + rhs`.
    spec fn add_spec(self, rhs: Self) -> Self;

    /// Computes `self + rhs`.
    fn add(self, rhs: Self) -> (r: Self)
        ensures
            r == self.add_spec(rhs),
    ;

    /// The difference `self - rhs`.
    spec fn sub_spec(self, rhs: Self) -> Self;

    /// Computes `self - rhs`.
    fn sub(self, rhs: Self) -> (r: Self)
        ensures
            r == self.sub_spec(rhs),
    ;
}

/// The scalar type of the points of type `P`.
pub type RealOf<P> = <<P as Point>::Vector as Vector>::Real;

/// A point of a three-dimensional Euclidean space.
pub trait Point: Copy {
    /// The type of the displacement between two points.
    type Vector: Vector;

    /// The origin of the space.
    spec fn origin_spec() -> Self;

    /// Returns the origin of the space.
    fn origin() -> (r: Self)
        ensures
            r == Self::origin_spec(),
    ;

    /// The displacement `self - rhs` that leads from `rhs` to `self`.
    spec fn sub_spec(self, rhs: Self) -> Self::Vector;

    /// Computes the displacement `self - rhs`.
    fn sub(self, rhs: Self) -> (r: Self::Vector)
        ensures
            r == self.sub_spec(rhs),
    ;

    /// The point `self + v`.
    spec fn translate_spec(self, v: Self::Vector) -> Self;

    /// Computes the point `self + v`.
    fn translate(self, v: Self::Vector) -> (r: Self)
        ensures
            r == self.translate_spec(v),
    ;

    /// The displacement that leads from the origin to `self`.
    spec fn coords_spec(self) -> Self::Vector;

    /// Returns the displacement that leads from the origin to `self`.
    fn coords(self) -> (r: Self::Vector)
        ensures
            r == self.coords_spec(),
    ;

    /// The distance between `self` and `rhs`.
    spec fn distance_spec(self, rhs: Self) -> RealOf<Self>;

    /// Computes the distance between `self` and `rhs`.
    fn distance(self, rhs: Self) -> (r: RealOf<Self>)
        ensures
            r == self.distance_spec(rhs),
    ;

    /// Whether `self` and `rhs` have exactly the same coordinates.
    spec fn same_spec(self, rhs: Self) -> bool;

    /// Tests whether `self` and `rhs` have exactly the same coordinates.
    fn same(self, rhs: Self) -> (r: bool)
        ensures
            r == self.same_spec(rhs),
    ;
}

/// A rigid transformation of the space of the points of type `P`.
pub trait Isometry<P: Point>: Sized {
    /// The transformation that moves nothing.
    spec fn identity_spec() -> Self;

    /// Returns the transformation that moves nothing.
    fn identity() -> (m: Self)
        ensures
            m == Self::identity_spec(),
    ;

    /// The image of a point.
    spec fn transform_point_spec(&self, p: P) -> P;

    /// Applies this transformation to a point.
    fn transform_point(&self, p: &P) -> (r: P)
        ensures
            r == self.transform_point_spec(*p),
    ;

    /// The image of a direction.
    spec fn transform_unit_vector_spec(&self, v: Unit<P::Vector>) -> Unit<P::Vector>;

    /// Applies this transformation to a direction.
    fn transform_unit_vector(&self, v: &Unit<P::Vector>) -> (r: Unit<P::Vector>)
        ensures
            r == self.transform_unit_vector_spec(*v),
    ;

    /// The direction whose image is `v`.
    spec fn inverse_transform_unit_vector_spec(&self, v: Unit<P::Vector>) -> Unit<P::Vector>;

    /// Applies the inverse of this transformation to a direction.
    fn inverse_transform_unit_vector(&self, v: &Unit<P::Vector>) -> (r: Unit<P::Vector>)
        ensures
            r == self.inverse_transform_unit_vector_spec(*v),
    ;
}

/// Operations on the two parts of a rigid transformation: its translation
/// and its rotation.
pub trait IsometryOps<P: Point>: Isometry<P> {
    /// The translation part, as a vector.
    spec fn translation_spec(&self) -> P::Vector;

    /// Returns the translation part, as a vector.
    fn translation(&self) -> (t: P::Vector)
        ensures
            t == self.translation_spec(),
    ;

    /// The transformation with the rotation of `self` and the translation
    /// `t`.
    spec fn with_translation_spec(&self, t: P::Vector) -> Self;

    /// Returns the transformation with the rotation of `self` and the
    /// translation `t`.
    fn with_translation(&self, t: P::Vector) -> (m: Self)
        ensures
            m == self.with_translation_spec(t),
    ;

    /// The transformation with the translation of `self`, whose rotation is
    /// that of `self` followed by the rotation of axis and angle
    /// `axisangle`.
    spec fn rotated_spec(&self, axisangle: P::Vector) -> Self;

    /// Returns the transformation with the translation of `self`, whose
    /// rotation is that of `self` followed by the rotation of axis and angle
    /// `axisangle`.
    fn rotated(&self, axisangle: P::Vector) -> (m: Self)
        ensures
            m == self.rotated_spec(axisangle),
    ;

    /// The transformation between `self`, at `t = 0`, and `other`, at
    /// `t = 1`: linear for the translation, spherical for the rotation.
    spec fn lerp_slerp_spec(&self, other: &Self, t: RealOf<P>) -> Self;

    /// Interpolates between `self`, at `t = 0`, and `other`, at `t = 1`.
    fn lerp_slerp(&self, other: &Self, t: RealOf<P>) -> (m: Self)
        ensures
            m == self.lerp_slerp_spec(other, t),
    ;
}

/// Whether a transformation leaves every point and every direction where it
/// is.
pub open spec fn is_identity<P: Point, M: Isometry<P>>(m: &M) -> bool {
    &&& forall|p: P| #[trigger] m.transform_point_spec(p) == p
    &&& forall|v: Unit<P::Vector>| #[trigger] m.transform_unit_vector_spec(v) == v
    &&& forall|v: Unit<P::Vector>| #[trigger] m.inverse_transform_unit_vector_spec(v) == v
}

impl<V: Vector> Unit<V> {
    /// The opposite direction.
    pub open spec fn neg_spec(self) -> Unit<V> {
        Unit { value: self.value.neg_spec() }
    }

    /// Returns the opposite direction.
    pub fn neg(self) -> (r: Unit<V>)
        ensures
            r == self.neg_spec(),
    {
        Unit { value: self.value.neg() }
    }
}

} // verus!
