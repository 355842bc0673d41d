//! Motions of a rigid body in time.

use vstd::prelude::*;
use crate::math::{IsometryOps, Point, RealOf, Vector};

verus! {

/// A continuous interpolation of isometries.
pub trait RigidMotion<P: Point, M: IsometryOps<P>> {
    /// The position at the time `t`.
    spec fn position_at_time_spec(&self, t: RealOf<P>) -> M;

    /// Get a position at the time `t`.
    fn position_at_time(&self, t: RealOf<P>) -> (m: M)
        ensures
            m == self.position_at_time_spec(t),
    ;
}

/// Interpolation between two isometries using LERP for the translation part
/// and SLERP for the rotation.
pub struct InterpolatedRigidMotion<'a, M> {
    /// The transformation at `t = 0.0`.
    pub start: &'a M,
    /// The transformation at `t = 1.0`.
    pub end: &'a M,
}

impl<'a, M> InterpolatedRigidMotion<'a, M> {
    /// Initialize a lerp-slerp interpolation with the given start and end
    /// transformations.
    ///
    /// The `start` is the transformation at the time `t = 0.0` and `end` is
    /// the transformation at the time `t = 1.0`.
    pub fn new(start: &'a M, end: &'a M) -> (r: Self)
        ensures
            r.start == start,
            r.end == end,
    {
        InterpolatedRigidMotion { start, end }
    }
}

impl<'a, P: Point, M: IsometryOps<P>> RigidMotion<P, M> for InterpolatedRigidMotion<'a, M> {
    open spec fn position_at_time_spec(&self, t: RealOf<P>) -> M {
        self.start.lerp_slerp_spec(self.end, t)
    }

    fn position_at_time(&self, t: RealOf<P>) -> (m: M) {
        self.start.lerp_slerp(self.end, t)
    }
}

/// A linear motion from a starting isometry traveling at constant
/// translational velocity.
pub struct ConstantLinearVelocityRigidMotion<'a, P: Point, M> {
    /// The starting isometry at `t = 0`.
    pub start: &'a M,
    /// The translational velocity of this motion.
    pub velocity: P::Vector,
}

impl<'a, P: Point, M> ConstantLinearVelocityRigidMotion<'a, P, M> {
    /// Initialize a linear motion from a starting isometry and a
    /// translational velocity.
    pub fn new(start: &'a M, velocity: P::Vector) -> (r: Self)
        ensures
            r.start == start,
            r.velocity == velocity,
    {
        ConstantLinearVelocityRigidMotion { start, velocity }
    }
}

impl<'a, P: Point, M: IsometryOps<P>> RigidMotion<P, M> for ConstantLinearVelocityRigidMotion<
    'a,
    P,
    M,
> {
    /// The start, moved by the velocity times `t`.
    open spec fn position_at_time_spec(&self, t: RealOf<P>) -> M {
        self.start.with_translation_spec(
            self.start.translation_spec().add_spec(self.velocity.scale_spec(t)),
        )
    }

    fn position_at_time(&self, t: RealOf<P>) -> (m: M) {
        self.start.with_translation(self.start.translation().add(self.velocity.scale(t)))
    }
}

/// A motion from a starting isometry traveling at constant translational and
/// angular velocities.
pub struct ConstantVelocityRigidMotion<'a, P: Point, M> {
    /// The starting isometry at `t = 0`.
    pub start: &'a M,
    /// The translational velocity of this motion.
    pub linvel: P::Vector,
    /// The angular velocity of this motion.
    pub angvel: P::Vector,
}

impl<'a, P: Point, M> ConstantVelocityRigidMotion<'a, P, M> {
    /// Initialize a motion from a starting isometry and linear and angular
    /// velocities.
    pub fn new(start: &'a M, linvel: P::Vector, angvel: P::Vector) -> (r: Self)
        ensures
            r.start == start,
            r.linvel == linvel,
            r.angvel == angvel,
    {
        ConstantVelocityRigidMotion { start, linvel, angvel }
    }
}

impl<'a, P: Point, M: IsometryOps<P>> RigidMotion<P, M> for ConstantVelocityRigidMotion<'a, P, M> {
    /// The start, moved by the linear velocity times `t` and turned by the
    /// angular velocity times `t`.
    open spec fn position_at_time_spec(&self, t: RealOf<P>) -> M {
        self.start.with_translation_spec(
            self.start.translation_spec().add_spec(self.linvel.scale_spec(t)),
        ).rotated_spec(self.angvel.scale_spec(t))
    }

    fn position_at_time(&self, t: RealOf<P>) -> (m: M) {
        self.start.with_translation(self.start.translation().add(self.linvel.scale(t))).rotated(
            self.angvel.scale(t),
        )
    }
}

} // verus!
