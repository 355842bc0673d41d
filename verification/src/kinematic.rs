//! Per-pair contact kinematics: which feature of one solid faces which
//! feature of the other, and the contact that follows from it as the solids
//! move.

use vstd::prelude::*;
use crate::closest_points::{line_against_line, line_against_line_spec};
use crate::cone::{polar_contains, transformed_normals, PolyhedralCone};
use crate::contact::{Contact, FeatureId};
use crate::math::{is_identity, Isometry, Point, Real, RealOf, Unit, Vector};

verus! {

/// The part that one solid plays in a contact.
pub enum Role<V> {
    /// The solid touches with a single point.
    Point,
    /// The solid touches along a line of the given direction.
    Line(Unit<V>),
    /// The solid touches with a plane.
    Plane,
}

/// The parts that the two solids play in a contact.
///
/// The name gives the first solid's part, then the second's; a direction
/// belongs to the line of the same position.
#[derive(Clone, Copy, Debug)]
pub enum KinematicVariant<V> {
    PlanePoint,
    PointPlane,
    PointPoint,
    PointLine(Unit<V>),
    LinePoint(Unit<V>),
    LineLine(Unit<V>, Unit<V>),
    /// No contact can be computed from two planes.
    PlanePlane,
    /// No contact can be computed from a plane and a line.
    PlaneLine(Unit<V>),
    /// No contact can be computed from a line and a plane.
    LinePlane(Unit<V>),
}

impl<V> KinematicVariant<V> {
    /// The part of the first solid.
    pub open spec fn role1(self) -> Role<V> {
        match self {
            KinematicVariant::PlanePoint
            | KinematicVariant::PlanePlane
            | KinematicVariant::PlaneLine(_) => Role::Plane,
            KinematicVariant::PointPlane
            | KinematicVariant::PointPoint
            | KinematicVariant::PointLine(_) => Role::Point,
            KinematicVariant::LinePoint(d)
            | KinematicVariant::LineLine(d, _)
            | KinematicVariant::LinePlane(d) => Role::Line(d),
        }
    }

    /// The part of the second solid.
    pub open spec fn role2(self) -> Role<V> {
        match self {
            KinematicVariant::PointPlane
            | KinematicVariant::PlanePlane
            | KinematicVariant::LinePlane(_) => Role::Plane,
            KinematicVariant::PlanePoint
            | KinematicVariant::PointPoint
            | KinematicVariant::LinePoint(_) => Role::Point,
            KinematicVariant::PointLine(d)
            | KinematicVariant::LineLine(_, d)
            | KinematicVariant::PlaneLine(d) => Role::Line(d),
        }
    }

    /// The variant in which the first solid plays `r1` and the second `r2`.
    pub open spec fn from_roles(r1: Role<V>, r2: Role<V>) -> KinematicVariant<V> {
        match (r1, r2) {
            (Role::Plane, Role::Point) => KinematicVariant::PlanePoint,
            (Role::Point, Role::Plane) => KinematicVariant::PointPlane,
            (Role::Point, Role::Point) => KinematicVariant::PointPoint,
            (Role::Point, Role::Line(d2)) => KinematicVariant::PointLine(d2),
            (Role::Line(d1), Role::Point) => KinematicVariant::LinePoint(d1),
            (Role::Line(d1), Role::Line(d2)) => KinematicVariant::LineLine(d1, d2),
            (Role::Plane, Role::Plane) => KinematicVariant::PlanePlane,
            (Role::Plane, Role::Line(d2)) => KinematicVariant::PlaneLine(d2),
            (Role::Line(d1), Role::Plane) => KinematicVariant::LinePlane(d1),
        }
    }

    /// The same contact seen from the other solid.
    pub open spec fn mirror(self) -> KinematicVariant<V> {
        Self::from_roles(self.role2(), self.role1())
    }

    /// This variant with the part of the first solid replaced.
    pub open spec fn with_role1(self, r: Role<V>) -> KinematicVariant<V> {
        Self::from_roles(r, self.role2())
    }

    /// This variant with the part of the second solid replaced.
    pub open spec fn with_role2(self, r: Role<V>) -> KinematicVariant<V> {
        Self::from_roles(self.role1(), r)
    }

    /// Whether a contact can be computed from this variant: at least one of
    /// the solids plays a point, or both play a line.
    pub open spec fn determines_contact(self) -> bool {
        !(self is PlanePlane || self is PlaneLine || self is LinePlane)
    }
}

/// A variant is the pair of its two parts.
pub proof fn lemma_variant_is_its_roles<V>(v: KinematicVariant<V>)
    ensures
        KinematicVariant::from_roles(v.role1(), v.role2()) == v,
{
}

/// The two parts of a variant can be chosen freely and independently.
pub proof fn lemma_roles_of_variant<V>(r1: Role<V>, r2: Role<V>)
    ensures
        KinematicVariant::from_roles(r1, r2).role1() == r1,
        KinematicVariant::from_roles(r1, r2).role2() == r2,
{
}

/// Replacing the part of the first solid is the mirror image of replacing the
/// part of the second: the two transition tables are symmetric.
pub proof fn lemma_transitions_are_mirrored<V>(v: KinematicVariant<V>, r: Role<V>)
    ensures
        v.with_role1(r).mirror() == v.mirror().with_role2(r),
        v.with_role2(r).mirror() == v.mirror().with_role1(r),
        v.mirror().mirror() == v,
{
}

/// A transition on one side leaves the part of the other side as it was, and
/// a variant from which no contact can be computed is reached exactly where a
/// plane faces a plane or a line.
pub proof fn lemma_transition_keeps_other_side<V>(v: KinematicVariant<V>, r: Role<V>)
    ensures
        v.with_role1(r).role1() == r,
        v.with_role1(r).role2() == v.role2(),
        v.with_role2(r).role2() == r,
        v.with_role2(r).role1() == v.role1(),
        v.determines_contact() <==> !(v.role1() is Plane && !(v.role2() is Point)) && !(v.role2()
            is Plane && !(v.role1() is Point)),
{
}


/// Whether a margin is zero or not below zero.
pub open spec fn non_negative<N: Real>(x: N) -> bool {
    x == N::zero_spec() || !x.lt_spec(N::zero_spec())
}

/// What a `ContactKinematic` holds, as plain values.
pub struct KinematicView<P: Point> {
    /// The tracked point in the local space of the first solid.
    pub local1: P,
    /// The tracked point in the local space of the second solid.
    pub local2: P,
    /// The generators of the normal cone of the first solid's feature.
    pub normals1: Seq<Unit<P::Vector>>,
    /// The generators of the normal cone of the second solid's feature.
    pub normals2: Seq<Unit<P::Vector>>,
    /// The dilation of the first solid.
    pub margin1: RealOf<P>,
    /// The dilation of the second solid.
    pub margin2: RealOf<P>,
    /// The feature of the first solid.
    pub feature1: FeatureId,
    /// The feature of the second solid.
    pub feature2: FeatureId,
    /// The parts that the two solids play.
    pub variant: KinematicVariant<P::Vector>,
}

/// The direction of a part after its solid moved by `m`.
pub open spec fn transformed_role<P: Point, M: Isometry<P>>(r: Role<P::Vector>, m: &M) -> Role<
    P::Vector,
> {
    match r {
        Role::Line(d) => Role::Line(m.transform_unit_vector_spec(d)),
        _ => r,
    }
}

impl<P: Point> KinematicView<P> {
    /// A solid that plays a plane has the normal of that plane as the first
    /// generator of its cone, and no margin is negative.
    pub open spec fn wf(self) -> bool {
        &&& self.variant.role1() is Plane ==> self.normals1.len() >= 1
        &&& self.variant.role2() is Plane ==> self.normals2.len() >= 1
        &&& non_negative(self.margin1)
        &&& non_negative(self.margin2)
    }

    /// The state after the first solid was reclassified.
    pub open spec fn with_side1(
        self,
        fid: FeatureId,
        pt: P,
        role: Role<P::Vector>,
        normals: Seq<Unit<P::Vector>>,
    ) -> Self {
        KinematicView {
            feature1: fid,
            local1: pt,
            normals1: normals,
            variant: self.variant.with_role1(role),
            ..self
        }
    }

    /// The state after the second solid was reclassified.
    pub open spec fn with_side2(
        self,
        fid: FeatureId,
        pt: P,
        role: Role<P::Vector>,
        normals: Seq<Unit<P::Vector>>,
    ) -> Self {
        KinematicView {
            feature2: fid,
            local2: pt,
            normals2: normals,
            variant: self.variant.with_role2(role),
            ..self
        }
    }

    /// The state after `m` was applied to the first solid: to its tracked
    /// point, to its normal cone and to the direction of its line, if it
    /// plays one.
    pub open spec fn transformed1<M: Isometry<P>>(self, m: &M) -> Self {
        KinematicView {
            local1: m.transform_point_spec(self.local1),
            normals1: transformed_normals::<P, M>(self.normals1, m),
            variant: self.variant.with_role1(transformed_role::<P, M>(self.variant.role1(), m)),
            ..self
        }
    }

    /// The state after `m` was applied to the second solid.
    pub open spec fn transformed2<M: Isometry<P>>(self, m: &M) -> Self {
        KinematicView {
            local2: m.transform_point_spec(self.local2),
            normals2: transformed_normals::<P, M>(self.normals2, m),
            variant: self.variant.with_role2(transformed_role::<P, M>(self.variant.role2(), m)),
            ..self
        }
    }

    /// Whether the surfaces have crossed along the direction `n`, which points
    /// from the first solid to the second: in the local frame of one of the
    /// solids, the polar of its normal cone holds the direction that leads to
    /// the other solid.
    pub open spec fn crossed<M: Isometry<P>>(self, m1: &M, m2: &M, n: Unit<P::Vector>) -> bool {
        let local_n1 = m1.inverse_transform_unit_vector_spec(n);
        let local_n2 = m2.inverse_transform_unit_vector_spec(n.neg_spec());
        polar_contains(self.normals1, local_n1) || polar_contains(self.normals2, local_n2)
    }

    /// The contact between the points `world1` and `world2`, which lie at the
    /// distance `d` from each other along the direction `n`: a penetration of
    /// depth `d` against `n` where the surfaces have crossed, a separation of
    /// `d` along `n` where they have not.
    pub open spec fn signed_contact<M: Isometry<P>>(
        self,
        m1: &M,
        m2: &M,
        world1: P,
        world2: P,
        n: Unit<P::Vector>,
        d: RealOf<P>,
    ) -> Contact<P> {
        if self.crossed(m1, m2, n) {
            Contact { world1, world2, normal: n.neg_spec(), depth: d }
        } else {
            Contact { world1, world2, normal: n, depth: d.neg_spec() }
        }
    }

    /// The contact where the direction between the two points cannot be
    /// told: the given normal, moved with the first solid, and no depth.
    pub open spec fn fallback_contact<M: Isometry<P>>(
        m1: &M,
        world1: P,
        world2: P,
        default_normal1: Unit<P::Vector>,
    ) -> Contact<P> {
        Contact {
            world1,
            world2,
            normal: m1.transform_unit_vector_spec(default_normal1),
            depth: RealOf::<P>::zero_spec(),
        }
    }

    /// The contact of two solids without their margins, or `None` where the
    /// parts they play do not determine it.
    pub open spec fn raw_contact<M: Isometry<P>>(
        self,
        m1: &M,
        m2: &M,
        default_normal1: Unit<P::Vector>,
    ) -> Option<Contact<P>> {
        let world1 = m1.transform_point_spec(self.local1);
        let world2 = m2.transform_point_spec(self.local2);
        let zero = RealOf::<P>::zero_spec();
        match self.variant {
            KinematicVariant::PlanePoint => {
                // The foot of the perpendicular from the point to the plane.
                let normal = m1.transform_unit_vector_spec(self.normals1[0]);
                let depth = normal.value.dot_spec(world2.sub_spec(world1)).neg_spec();
                Some(
                    Contact {
                        world1: world2.translate_spec(normal.value.scale_spec(depth)),
                        world2,
                        normal,
                        depth,
                    },
                )
            },
            KinematicVariant::PointPlane => {
                let normal2 = m2.transform_unit_vector_spec(self.normals2[0]);
                let depth = normal2.value.dot_spec(world1.sub_spec(world2)).neg_spec();
                Some(
                    Contact {
                        world1,
                        world2: world1.translate_spec(normal2.value.scale_spec(depth)),
                        normal: normal2.neg_spec(),
                        depth,
                    },
                )
            },
            KinematicVariant::PointPoint => {
                match world2.sub_spec(world1).try_normalize_spec(
                    RealOf::<P>::default_epsilon_spec(),
                ) {
                    Some((n, d)) => Some(self.signed_contact(m1, m2, world1, world2, n, d)),
                    None => Some(Self::fallback_contact(m1, world1, world2, default_normal1)),
                }
            },
            KinematicVariant::LinePoint(dir1) => {
                // The offset of the point from the line, at right angles to it.
                let world_dir1 = m1.transform_unit_vector_spec(dir1);
                let to_point = world2.sub_spec(world1);
                let along = world_dir1.value.dot_spec(to_point);
                let shift = to_point.sub_spec(world_dir1.value.scale_spec(along));
                match shift.try_normalize_spec(zero) {
                    Some((n, d)) => Some(
                        self.signed_contact(
                            m1,
                            m2,
                            world2.translate_spec(shift.neg_spec()),
                            world2,
                            n,
                            d,
                        ),
                    ),
                    None => Some(Self::fallback_contact(m1, world1, world2, default_normal1)),
                }
            },
            KinematicVariant::PointLine(dir2) => {
                let world_dir2 = m2.transform_unit_vector_spec(dir2);
                let to_point = world1.sub_spec(world2);
                let along = world_dir2.value.dot_spec(to_point);
                let shift = to_point.sub_spec(world_dir2.value.scale_spec(along)).neg_spec();
                match shift.try_normalize_spec(zero) {
                    Some((n, d)) => Some(
                        self.signed_contact(m1, m2, world1, world1.translate_spec(shift), n, d),
                    ),
                    None => Some(Self::fallback_contact(m1, world1, world2, default_normal1)),
                }
            },
            KinematicVariant::LineLine(dir1, dir2) => {
                let world_dir1 = m1.transform_unit_vector_spec(dir1);
                let world_dir2 = m2.transform_unit_vector_spec(dir2);
                let (pt1, pt2) = line_against_line_spec(
                    world1,
                    world_dir1.value,
                    world2,
                    world_dir2.value,
                );
                match pt2.sub_spec(pt1).try_normalize_spec(zero) {
                    Some((n, d)) => Some(self.signed_contact(m1, m2, pt1, pt2, n, d)),
                    None => Some(Self::fallback_contact(m1, pt1, pt2, default_normal1)),
                }
            },
            _ => None,
        }
    }

    /// A contact between the cores of two solids, carried to the surfaces of
    /// the solids dilated by `margin1` and `margin2`: each point moves outward
    /// by its margin along the normal, and the depth grows by both margins.
    pub open spec fn dilated(raw: Contact<P>, margin1: RealOf<P>, margin2: RealOf<P>) -> Contact<
        P,
    > {
        Contact {
            world1: raw.world1.translate_spec(raw.normal.value.scale_spec(margin1)),
            world2: raw.world2.translate_spec(raw.normal.value.scale_spec(margin2.neg_spec())),
            normal: raw.normal,
            depth: raw.depth.add_spec(margin1.add_spec(margin2)),
        }
    }

    /// The contact of the two solids placed by `m1` and `m2`, or `None` where
    /// the parts they play do not determine it.
    pub open spec fn contact<M: Isometry<P>>(
        self,
        m1: &M,
        m2: &M,
        default_normal1: Unit<P::Vector>,
    ) -> Option<Contact<P>> {
        match self.raw_contact(m1, m2, default_normal1) {
            Some(raw) => Some(Self::dilated(raw, self.margin1, self.margin2)),
            None => None,
        }
    }
}


/// The contact kinematics of a pair of solids.
///
/// It records that one feature of the first solid is the closest to one
/// feature of the second, and gives the contact that follows as the solids
/// move, without a new search for the closest features.
#[derive(Clone)]
pub struct ContactKinematic<P: Point> {
    local1: P,
    local2: P,
    normals1: PolyhedralCone<P>,
    normals2: PolyhedralCone<P>,
    margin1: RealOf<P>,
    margin2: RealOf<P>,
    feature1: FeatureId,
    feature2: FeatureId,
    variant: KinematicVariant<P::Vector>,
}

impl<P: Point> View for ContactKinematic<P> {
    type V = KinematicView<P>;

    closed spec fn view(&self) -> KinematicView<P> {
        KinematicView {
            local1: self.local1,
            local2: self.local2,
            normals1: self.normals1@,
            normals2: self.normals2@,
            margin1: self.margin1,
            margin2: self.margin2,
            feature1: self.feature1,
            feature2: self.feature2,
            variant: self.variant,
        }
    }
}

impl<P: Point> ContactKinematic<P> {
    /// Creates the kinematics of two points at the origin of their solids,
    /// with unknown features, empty normal cones and no margin.
    pub fn new() -> (k: Self)
        ensures
            k@ == (KinematicView::<P> {
                local1: P::origin_spec(),
                local2: P::origin_spec(),
                normals1: Seq::empty(),
                normals2: Seq::empty(),
                margin1: RealOf::<P>::zero_spec(),
                margin2: RealOf::<P>::zero_spec(),
                feature1: FeatureId::Unknown,
                feature2: FeatureId::Unknown,
                variant: KinematicVariant::PointPoint,
            }),
            k@.wf(),
    {
        ContactKinematic {
            local1: P::origin(),
            local2: P::origin(),
            margin1: RealOf::<P>::zero(),
            margin2: RealOf::<P>::zero(),
            normals1: PolyhedralCone::new(),
            normals2: PolyhedralCone::new(),
            feature1: FeatureId::Unknown,
            feature2: FeatureId::Unknown,
            variant: KinematicVariant::PointPoint,
        }
    }

    /// Applies `m` to what is tracked on the first solid: its point, its
    /// normal cone and, where it plays a line, the direction of the line.
    pub fn transform1<M: Isometry<P>>(&mut self, m: &M)
        ensures
            final(self)@ == old(self)@.transformed1(m),
            old(self)@.wf() ==> final(self)@.wf(),
    {
        self.local1 = m.transform_point(&self.local1);
        self.normals1.transform_by(m);

        self.variant = match self.variant {
            KinematicVariant::LinePoint(dir) => KinematicVariant::LinePoint(
                m.transform_unit_vector(&dir),
            ),
            KinematicVariant::LineLine(dir, dir2) => KinematicVariant::LineLine(
                m.transform_unit_vector(&dir),
                dir2,
            ),
            KinematicVariant::LinePlane(dir) => KinematicVariant::LinePlane(
                m.transform_unit_vector(&dir),
            ),
            KinematicVariant::PointLine(dir2) => KinematicVariant::PointLine(dir2),
            KinematicVariant::PlaneLine(dir2) => KinematicVariant::PlaneLine(dir2),
            KinematicVariant::PointPlane => KinematicVariant::PointPlane,
            KinematicVariant::PointPoint => KinematicVariant::PointPoint,
            KinematicVariant::PlanePoint => KinematicVariant::PlanePoint,
            KinematicVariant::PlanePlane => KinematicVariant::PlanePlane,
        };
    }

    /// Applies `m` to what is tracked on the second solid: its point, its
    /// normal cone and, where it plays a line, the direction of the line.
    pub fn transform2<M: Isometry<P>>(&mut self, m: &M)
        ensures
            final(self)@ == old(self)@.transformed2(m),
            old(self)@.wf() ==> final(self)@.wf(),
    {
        self.local2 = m.transform_point(&self.local2);
        self.normals2.transform_by(m);

        self.variant = match self.variant {
            KinematicVariant::PointLine(dir) => KinematicVariant::PointLine(
                m.transform_unit_vector(&dir),
            ),
            KinematicVariant::LineLine(dir1, dir) => KinematicVariant::LineLine(
                dir1,
                m.transform_unit_vector(&dir),
            ),
            KinematicVariant::PlaneLine(dir) => KinematicVariant::PlaneLine(
                m.transform_unit_vector(&dir),
            ),
            KinematicVariant::PointPlane => KinematicVariant::PointPlane,
            KinematicVariant::PointPoint => KinematicVariant::PointPoint,
            KinematicVariant::LinePoint(dir1) => KinematicVariant::LinePoint(dir1),
            KinematicVariant::LinePlane(dir1) => KinematicVariant::LinePlane(dir1),
            KinematicVariant::PlanePoint => KinematicVariant::PlanePoint,
            KinematicVariant::PlanePlane => KinematicVariant::PlanePlane,
        };
    }

    /// The parts that the two solids play.
    pub fn variant(&self) -> (v: KinematicVariant<P::Vector>)
        ensures
            v == self@.variant,
    {
        self.variant
    }

    /// The normal cone of the feature of the first solid.
    pub fn normals1(&self) -> (c: &PolyhedralCone<P>)
        ensures
            c@ == self@.normals1,
    {
        &self.normals1
    }

    /// The normal cone of the feature of the second solid.
    pub fn normals2(&self) -> (c: &PolyhedralCone<P>)
        ensures
            c@ == self@.normals2,
    {
        &self.normals2
    }

    /// The dilation of the first solid.
    pub fn dilation1(&self) -> (m: RealOf<P>)
        ensures
            m == self@.margin1,
    {
        self.margin1
    }

    /// The dilation of the second solid.
    pub fn dilation2(&self) -> (m: RealOf<P>)
        ensures
            m == self@.margin2,
    {
        self.margin2
    }

    /// The tracked point in local space of the first solid.
    ///
    /// This may not be the contact point in the local space of the first
    /// solid, since it does not take the dilation into account.
    pub fn local1(&self) -> (p: P)
        ensures
            p == self@.local1,
    {
        self.local1
    }

    /// The tracked point in local space of the second solid.
    ///
    /// This may not be the contact point in the local space of the second
    /// solid, since it does not take the dilation into account.
    pub fn local2(&self) -> (p: P)
        ensures
            p == self@.local2,
    {
        self.local2
    }

    /// The feature of the first solid.
    pub fn feature1(&self) -> (f: FeatureId)
        ensures
            f == self@.feature1,
    {
        self.feature1
    }

    /// The feature of the second solid.
    pub fn feature2(&self) -> (f: FeatureId)
        ensures
            f == self@.feature2,
    {
        self.feature2
    }

    /// Sets the dilation of the first solid.
    pub fn set_dilation1(&mut self, margin: RealOf<P>)
        requires
            non_negative(margin),
        ensures
            final(self)@ == (KinematicView { margin1: margin, ..old(self)@ }),
            old(self)@.wf() ==> final(self)@.wf(),
    {
        self.margin1 = margin;
    }

    /// Sets the dilation of the second solid.
    pub fn set_dilation2(&mut self, margin: RealOf<P>)
        requires
            non_negative(margin),
        ensures
            final(self)@ == (KinematicView { margin2: margin, ..old(self)@ }),
            old(self)@.wf() ==> final(self)@.wf(),
    {
        self.margin2 = margin;
    }

    /// Makes the first solid play a plane through `pt` with the given normal.
    pub fn set_plane1(&mut self, fid: FeatureId, pt: P, normal: Unit<P::Vector>)
        ensures
            final(self)@ == old(self)@.with_side1(fid, pt, Role::Plane, seq![normal]),
            old(self)@.wf() ==> final(self)@.wf(),
    {
        self.feature1 = fid;
        self.local1 = pt;
        self.normals1.clear();
        self.normals1.add_generator(normal);

        self.variant = match self.variant {
            KinematicVariant::PointPlane => KinematicVariant::PlanePlane,
            KinematicVariant::PointPoint => KinematicVariant::PlanePoint,
            KinematicVariant::PointLine(dir2) => KinematicVariant::PlaneLine(dir2),
            KinematicVariant::LinePoint(_) => KinematicVariant::PlanePoint,
            KinematicVariant::LineLine(_, dir2) => KinematicVariant::PlaneLine(dir2),
            KinematicVariant::LinePlane(_) => KinematicVariant::PlanePlane,
            KinematicVariant::PlanePoint => KinematicVariant::PlanePoint,
            KinematicVariant::PlaneLine(dir2) => KinematicVariant::PlaneLine(dir2),
            KinematicVariant::PlanePlane => KinematicVariant::PlanePlane,
        };
    }

    /// Makes the second solid play a plane through `pt` with the given normal.
    pub fn set_plane2(&mut self, fid: FeatureId, pt: P, normal: Unit<P::Vector>)
        ensures
            final(self)@ == old(self)@.with_side2(fid, pt, Role::Plane, seq![normal]),
            old(self)@.wf() ==> final(self)@.wf(),
    {
        self.feature2 = fid;
        self.local2 = pt;
        self.normals2.clear();
        self.normals2.add_generator(normal);

        self.variant = match self.variant {
            KinematicVariant::PlanePoint => KinematicVariant::PlanePlane,
            KinematicVariant::PointPoint => KinematicVariant::PointPlane,
            KinematicVariant::PointLine(_) => KinematicVariant::PointPlane,
            KinematicVariant::LinePoint(dir1) => KinematicVariant::LinePlane(dir1),
            KinematicVariant::LineLine(dir1, _) => KinematicVariant::LinePlane(dir1),
            KinematicVariant::PlaneLine(_) => KinematicVariant::PlanePlane,
            KinematicVariant::PointPlane => KinematicVariant::PointPlane,
            KinematicVariant::PlanePlane => KinematicVariant::PlanePlane,
            KinematicVariant::LinePlane(dir1) => KinematicVariant::LinePlane(dir1),
        };
    }

    /// Makes the first solid play a line through `pt` with the direction
    /// `dir`, whose admissible normals are `normals`.
    pub fn set_line1(
        &mut self,
        fid: FeatureId,
        pt: P,
        dir: Unit<P::Vector>,
        normals: PolyhedralCone<P>,
    )
        ensures
            final(self)@ == old(self)@.with_side1(fid, pt, Role::Line(dir), normals@),
            old(self)@.wf() ==> final(self)@.wf(),
    {
        self.feature1 = fid;
        self.local1 = pt;
        self.normals1 = normals;

        self.variant = match self.variant {
            KinematicVariant::PlanePoint => KinematicVariant::LinePoint(dir),
            KinematicVariant::PointPlane => KinematicVariant::LinePlane(dir),
            KinematicVariant::PointPoint => KinematicVariant::LinePoint(dir),
            KinematicVariant::PointLine(dir2) => KinematicVariant::LineLine(dir, dir2),
            KinematicVariant::LinePoint(_) => KinematicVariant::LinePoint(dir),
            KinematicVariant::LineLine(_, dir2) => KinematicVariant::LineLine(dir, dir2),
            KinematicVariant::PlanePlane => KinematicVariant::LinePlane(dir),
            KinematicVariant::PlaneLine(dir2) => KinematicVariant::LineLine(dir, dir2),
            KinematicVariant::LinePlane(_) => KinematicVariant::LinePlane(dir),
        };
    }

    /// Makes the second solid play a line through `pt` with the direction
    /// `dir`, whose admissible normals are `normals`.
    pub fn set_line2(
        &mut self,
        fid: FeatureId,
        pt: P,
        dir: Unit<P::Vector>,
        normals: PolyhedralCone<P>,
    )
        ensures
            final(self)@ == old(self)@.with_side2(fid, pt, Role::Line(dir), normals@),
            old(self)@.wf() ==> final(self)@.wf(),
    {
        self.feature2 = fid;
        self.local2 = pt;
        self.normals2 = normals;

        self.variant = match self.variant {
            KinematicVariant::PlanePoint => KinematicVariant::PlaneLine(dir),
            KinematicVariant::PointPlane => KinematicVariant::PointLine(dir),
            KinematicVariant::PointPoint => KinematicVariant::PointLine(dir),
            KinematicVariant::PointLine(_) => KinematicVariant::PointLine(dir),
            KinematicVariant::LinePoint(dir1) => KinematicVariant::LineLine(dir1, dir),
            KinematicVariant::LineLine(dir1, _) => KinematicVariant::LineLine(dir1, dir),
            KinematicVariant::PlanePlane => KinematicVariant::PlaneLine(dir),
            KinematicVariant::PlaneLine(_) => KinematicVariant::PlaneLine(dir),
            KinematicVariant::LinePlane(dir1) => KinematicVariant::LineLine(dir1, dir),
        };
    }

    /// Makes the first solid play the point `pt`, whose admissible normals
    /// are `normals`.
    pub fn set_point1(&mut self, fid: FeatureId, pt: P, normals: PolyhedralCone<P>)
        ensures
            final(self)@ == old(self)@.with_side1(fid, pt, Role::Point, normals@),
            old(self)@.wf() ==> final(self)@.wf(),
    {
        self.feature1 = fid;
        self.local1 = pt;
        self.normals1 = normals;

        self.variant = match self.variant {
            KinematicVariant::PlanePoint => KinematicVariant::PointPoint,
            KinematicVariant::LinePoint(_) => KinematicVariant::PointPoint,
            KinematicVariant::LineLine(_, dir2) => KinematicVariant::PointLine(dir2),
            KinematicVariant::PlanePlane => KinematicVariant::PointPlane,
            KinematicVariant::PlaneLine(dir2) => KinematicVariant::PointLine(dir2),
            KinematicVariant::LinePlane(_) => KinematicVariant::PointPlane,
            KinematicVariant::PointPlane => KinematicVariant::PointPlane,
            KinematicVariant::PointLine(dir2) => KinematicVariant::PointLine(dir2),
            KinematicVariant::PointPoint => KinematicVariant::PointPoint,
        };
    }

    /// Makes the second solid play the point `pt`, whose admissible normals
    /// are `normals`.
    pub fn set_point2(&mut self, fid: FeatureId, pt: P, normals: PolyhedralCone<P>)
        ensures
            final(self)@ == old(self)@.with_side2(fid, pt, Role::Point, normals@),
            old(self)@.wf() ==> final(self)@.wf(),
    {
        self.feature2 = fid;
        self.local2 = pt;
        self.normals2 = normals;

        self.variant = match self.variant {
            KinematicVariant::PointPlane => KinematicVariant::PointPoint,
            KinematicVariant::PointLine(_) => KinematicVariant::PointPoint,
            KinematicVariant::LineLine(dir1, _) => KinematicVariant::LinePoint(dir1),
            KinematicVariant::PlanePlane => KinematicVariant::PlanePoint,
            KinematicVariant::PlaneLine(_) => KinematicVariant::PlanePoint,
            KinematicVariant::LinePlane(dir1) => KinematicVariant::LinePoint(dir1),
            KinematicVariant::PlanePoint => KinematicVariant::PlanePoint,
            KinematicVariant::PointPoint => KinematicVariant::PointPoint,
            KinematicVariant::LinePoint(dir1) => KinematicVariant::LinePoint(dir1),
        };
    }
}


impl<P: Point> ContactKinematic<P> {
    /// Tells a penetration from a separation for two points at the distance
    /// `d` from each other along `n`.
    fn signed_contact<M: Isometry<P>>(
        &self,
        m1: &M,
        m2: &M,
        world1: P,
        world2: P,
        n: Unit<P::Vector>,
        d: RealOf<P>,
    ) -> (c: Contact<P>)
        ensures
            c == self@.signed_contact(m1, m2, world1, world2, n, d),
    {
        let local_n1 = m1.inverse_transform_unit_vector(&n);
        let local_n2 = m2.inverse_transform_unit_vector(&n.neg());
        if self.normals1.polar_contains_dir(&local_n1) || self.normals2.polar_contains_dir(
            &local_n2,
        ) {
            Contact::new(world1, world2, n.neg(), d)
        } else {
            Contact::new(world1, world2, n, d.neg())
        }
    }

    /// Computes the contact of the cores of the two solids, before the
    /// margins are taken into account.
    fn raw_contact<M: Isometry<P>>(
        &self,
        m1: &M,
        m2: &M,
        default_normal1: &Unit<P::Vector>,
    ) -> (r: Option<Contact<P>>)
        requires
            self@.wf(),
        ensures
            r == self@.raw_contact(m1, m2, *default_normal1),
    {
        let world1 = m1.transform_point(&self.local1);
        let world2 = m2.transform_point(&self.local2);
        let zero = RealOf::<P>::zero();

        match self.variant {
            KinematicVariant::PlanePoint => {
                let normal = m1.transform_unit_vector(&self.normals1.generator(0));
                let depth = normal.value.dot(world2.sub(world1)).neg();
                Some(Contact::new(world2.translate(normal.value.scale(depth)), world2, normal, depth))
            },
            KinematicVariant::PointPlane => {
                let normal2 = m2.transform_unit_vector(&self.normals2.generator(0));
                let depth = normal2.value.dot(world1.sub(world2)).neg();
                Some(
                    Contact::new(
                        world1,
                        world1.translate(normal2.value.scale(depth)),
                        normal2.neg(),
                        depth,
                    ),
                )
            },
            KinematicVariant::PointPoint => {
                match world2.sub(world1).try_normalize(RealOf::<P>::default_epsilon()) {
                    Some((n, d)) => Some(self.signed_contact(m1, m2, world1, world2, n, d)),
                    None => Some(
                        Contact::new(world1, world2, m1.transform_unit_vector(default_normal1), zero),
                    ),
                }
            },
            KinematicVariant::LinePoint(dir1) => {
                let world_dir1 = m1.transform_unit_vector(&dir1);
                let to_point = world2.sub(world1);
                let along = world_dir1.value.dot(to_point);
                let shift = to_point.sub(world_dir1.value.scale(along));
                match shift.try_normalize(zero) {
                    Some((n, d)) => Some(
                        self.signed_contact(m1, m2, world2.translate(shift.neg()), world2, n, d),
                    ),
                    None => Some(
                        Contact::new(world1, world2, m1.transform_unit_vector(default_normal1), zero),
                    ),
                }
            },
            KinematicVariant::PointLine(dir2) => {
                let world_dir2 = m2.transform_unit_vector(&dir2);
                let to_point = world1.sub(world2);
                let along = world_dir2.value.dot(to_point);
                let shift = to_point.sub(world_dir2.value.scale(along)).neg();
                match shift.try_normalize(zero) {
                    Some((n, d)) => Some(
                        self.signed_contact(m1, m2, world1, world1.translate(shift), n, d),
                    ),
                    None => Some(
                        Contact::new(world1, world2, m1.transform_unit_vector(default_normal1), zero),
                    ),
                }
            },
            KinematicVariant::LineLine(dir1, dir2) => {
                let world_dir1 = m1.transform_unit_vector(&dir1);
                let world_dir2 = m2.transform_unit_vector(&dir2);
                let (pt1, pt2) = line_against_line(
                    &world1,
                    &world_dir1.value,
                    &world2,
                    &world_dir2.value,
                );
                match pt2.sub(pt1).try_normalize(zero) {
                    Some((n, d)) => Some(self.signed_contact(m1, m2, pt1, pt2, n, d)),
                    None => Some(
                        Contact::new(pt1, pt2, m1.transform_unit_vector(default_normal1), zero),
                    ),
                }
            },
            _ => None,
        }
    }

    /// Computes the contact of the two solids placed by `m1` and `m2`.
    ///
    /// The result is `None` exactly where a plane faces a plane or a line:
    /// the kinematics does not determine a contact then, and the closest
    /// features have to be searched for anew. `default_normal1`, in the local
    /// space of the first solid, is the normal of the result where the two
    /// tracked points are too close to each other to give a direction; it is
    /// best set to the last normal known.
    pub fn contact<M: Isometry<P>>(
        &self,
        m1: &M,
        m2: &M,
        default_normal1: &Unit<P::Vector>,
    ) -> (r: Option<Contact<P>>)
        requires
            self@.wf(),
        ensures
            r == self@.contact(m1, m2, *default_normal1),
            r is Some <==> self@.variant.determines_contact(),
    {
        match self.raw_contact(m1, m2, default_normal1) {
            Some(raw) => {
                let world1 = raw.world1.translate(raw.normal.value.scale(self.margin1));
                let world2 = raw.world2.translate(raw.normal.value.scale(self.margin2.neg()));
                let depth = raw.depth.add(self.margin1.add(self.margin2));
                Some(Contact::new(world1, world2, raw.normal, depth))
            },
            None => None,
        }
    }
}


/// For two points that are apart, the contact normal is the direction from
/// the first point to the second or its opposite, and the depth before the
/// margins is the distance between the points or its opposite: the normal is
/// reversed and the depth positive exactly where the surfaces have crossed.
pub proof fn lemma_point_point_contact<P: Point, M: Isometry<P>>(
    k: KinematicView<P>,
    m1: &M,
    m2: &M,
    default_normal1: Unit<P::Vector>,
)
    requires
        k.variant is PointPoint,
        m2.transform_point_spec(k.local2).sub_spec(
            m1.transform_point_spec(k.local1),
        ).try_normalize_spec(RealOf::<P>::default_epsilon_spec()) is Some,
    ensures
        ({
            let world1 = m1.transform_point_spec(k.local1);
            let world2 = m2.transform_point_spec(k.local2);
            let (n, d) = world2.sub_spec(world1).try_normalize_spec(
                RealOf::<P>::default_epsilon_spec(),
            )->0;
            let margins = k.margin1.add_spec(k.margin2);
            &&& k.contact(m1, m2, default_normal1) matches Some(c)
            &&& k.crossed(m1, m2, n) ==> c.normal == n.neg_spec() && c.depth == d.add_spec(margins)
            &&& !k.crossed(m1, m2, n) ==> c.normal == n && c.depth == d.neg_spec().add_spec(
                margins,
            )
        }),
{
}

/// A transformation that moves nothing leaves the kinematics as it is, and
/// with it every contact computed from it.
pub proof fn lemma_identity_transform<P: Point, M: Isometry<P>>(k: KinematicView<P>, m: &M)
    requires
        is_identity::<P, M>(m),
    ensures
        k.transformed1(m) == k,
        k.transformed2(m) == k,
        forall|m1: &M, m2: &M, n: Unit<P::Vector>|
            k.transformed1(m).transformed2(m).contact(m1, m2, n) == k.contact(m1, m2, n),
{
    assert(transformed_normals::<P, M>(k.normals1, m) =~= k.normals1);
    assert(transformed_normals::<P, M>(k.normals2, m) =~= k.normals2);
    lemma_variant_is_its_roles(k.variant);
}

/// Whether the arithmetic of the points of type `P` is exact: sums of scalars
/// depend neither on the order nor on the grouping of their terms, and
/// scaling and translation distribute over sums.
///
/// Arithmetic that rounds does not have this property.
pub open spec fn exact_arithmetic<P: Point>() -> bool {
    &&& forall|a: RealOf<P>, b: RealOf<P>, c: RealOf<P>| #[trigger]
        a.add_spec(b).add_spec(c) == a.add_spec(b.add_spec(c))
    &&& forall|a: RealOf<P>, b: RealOf<P>| #[trigger] a.add_spec(b) == b.add_spec(a)
    &&& forall|a: RealOf<P>, b: RealOf<P>| #[trigger]
        a.add_spec(b).neg_spec() == a.neg_spec().add_spec(b.neg_spec())
    &&& forall|v: P::Vector, a: RealOf<P>, b: RealOf<P>| #[trigger]
        v.scale_spec(a.add_spec(b)) == v.scale_spec(a).add_spec(v.scale_spec(b))
    &&& forall|p: P, v: P::Vector, w: P::Vector| #[trigger]
        p.translate_spec(v.add_spec(w)) == p.translate_spec(v).translate_spec(w)
}

/// In exact arithmetic, a margin of the first solid that grows by `delta`
/// makes the depth grow by `delta` and moves the contact point of the first
/// solid by `delta` along the normal; the normal and the other contact point
/// stay.
pub proof fn lemma_margin1_shifts_contact<P: Point, M: Isometry<P>>(
    k: KinematicView<P>,
    delta: RealOf<P>,
    m1: &M,
    m2: &M,
    default_normal1: Unit<P::Vector>,
)
    requires
        exact_arithmetic::<P>(),
        k.variant.determines_contact(),
    ensures
        ({
            let grown = KinematicView { margin1: k.margin1.add_spec(delta), ..k };
            &&& k.contact(m1, m2, default_normal1) matches Some(c)
            &&& grown.contact(m1, m2, default_normal1) matches Some(g)
            &&& g.depth == c.depth.add_spec(delta)
            &&& g.world1 == c.world1.translate_spec(c.normal.value.scale_spec(delta))
            &&& g.world2 == c.world2
            &&& g.normal == c.normal
        }),
{
    let grown = KinematicView { margin1: k.margin1.add_spec(delta), ..k };
    let raw = k.raw_contact(m1, m2, default_normal1)->0;
    assert(grown.raw_contact(m1, m2, default_normal1) == Some(raw));
    let n = raw.normal.value;
    // (m1 + delta) + m2 == m1 + (m2 + delta) == (m1 + m2) + delta
    assert(k.margin1.add_spec(delta).add_spec(k.margin2) == k.margin1.add_spec(
        delta.add_spec(k.margin2),
    ));
    assert(delta.add_spec(k.margin2) == k.margin2.add_spec(delta));
    assert(k.margin1.add_spec(k.margin2).add_spec(delta) == k.margin1.add_spec(
        k.margin2.add_spec(delta),
    ));
    assert(raw.depth.add_spec(k.margin1.add_spec(k.margin2)).add_spec(delta) == raw.depth.add_spec(
        k.margin1.add_spec(k.margin2).add_spec(delta),
    ));
    assert(n.scale_spec(k.margin1.add_spec(delta)) == n.scale_spec(k.margin1).add_spec(
        n.scale_spec(delta),
    ));
}

/// In exact arithmetic, a margin of the second solid that grows by `delta`
/// makes the depth grow by `delta` and moves the contact point of the second
/// solid by `delta` against the normal; the normal and the other contact
/// point stay.
pub proof fn lemma_margin2_shifts_contact<P: Point, M: Isometry<P>>(
    k: KinematicView<P>,
    delta: RealOf<P>,
    m1: &M,
    m2: &M,
    default_normal1: Unit<P::Vector>,
)
    requires
        exact_arithmetic::<P>(),
        k.variant.determines_contact(),
    ensures
        ({
            let grown = KinematicView { margin2: k.margin2.add_spec(delta), ..k };
            &&& k.contact(m1, m2, default_normal1) matches Some(c)
            &&& grown.contact(m1, m2, default_normal1) matches Some(g)
            &&& g.depth == c.depth.add_spec(delta)
            &&& g.world2 == c.world2.translate_spec(c.normal.value.scale_spec(delta.neg_spec()))
            &&& g.world1 == c.world1
            &&& g.normal == c.normal
        }),
{
    let grown = KinematicView { margin2: k.margin2.add_spec(delta), ..k };
    let raw = k.raw_contact(m1, m2, default_normal1)->0;
    assert(grown.raw_contact(m1, m2, default_normal1) == Some(raw));
    let n = raw.normal.value;
    assert(k.margin1.add_spec(k.margin2).add_spec(delta) == k.margin1.add_spec(
        k.margin2.add_spec(delta),
    ));
    assert(raw.depth.add_spec(k.margin1.add_spec(k.margin2)).add_spec(delta) == raw.depth.add_spec(
        k.margin1.add_spec(k.margin2).add_spec(delta),
    ));
    assert(k.margin2.add_spec(delta).neg_spec() == k.margin2.neg_spec().add_spec(
        delta.neg_spec(),
    ));
    assert(n.scale_spec(k.margin2.neg_spec().add_spec(delta.neg_spec())) == n.scale_spec(
        k.margin2.neg_spec(),
    ).add_spec(n.scale_spec(delta.neg_spec())));
}

} // verus!
