//! Generators of the contacts of a pair of shapes.

use vstd::prelude::*;
use crate::dispatcher::ContactDispatcher;
use crate::id_allocator::{AllocatorView, IdAllocator};
use crate::manifold::{ContactManifold, ManifoldView};
use crate::math::{Isometry, Point, Real, RealOf};
use crate::shape::{capsule_segment, core_segment, Capsule, Shape};

verus! {

/// How far ahead of an actual touch a contact is reported.
#[derive(Clone, Copy)]
pub struct ContactPrediction<N> {
    linear: N,
    angular1: N,
    angular2: N,
}

impl<N: Real> ContactPrediction<N> {
    /// The distance up to which two solids that do not touch still give a
    /// contact.
    pub closed spec fn linear_spec(&self) -> N {
        self.linear
    }

    /// The angle up to which a feature of the first solid that does not face
    /// the second still gives a contact.
    pub closed spec fn angular1_spec(&self) -> N {
        self.angular1
    }

    /// The angle up to which a feature of the second solid that does not face
    /// the first still gives a contact.
    pub closed spec fn angular2_spec(&self) -> N {
        self.angular2
    }

    /// This prediction with another distance.
    pub closed spec fn with_linear(self, linear: N) -> Self {
        ContactPrediction { linear, ..self }
    }

    /// A prediction with another distance has that distance, and the angles
    /// that it had.
    pub proof fn lemma_with_linear(self, linear: N)
        ensures
            self.with_linear(linear).linear_spec() == linear,
            self.with_linear(linear).angular1_spec() == self.angular1_spec(),
            self.with_linear(linear).angular2_spec() == self.angular2_spec(),
    {
    }

    /// Whether a contact of the given depth is to be reported: the depth is
    /// not below the opposite of the prediction distance.
    pub open spec fn admits_spec(&self, depth: N) -> bool {
        !depth.lt_spec(self.linear_spec().neg_spec())
    }

    /// Creates a prediction from its distance and its two angles.
    pub fn new(linear: N, angular1: N, angular2: N) -> (p: Self)
        ensures
            p.linear_spec() == linear,
            p.angular1_spec() == angular1,
            p.angular2_spec() == angular2,
    {
        ContactPrediction { linear, angular1, angular2 }
    }

    /// The distance up to which two solids that do not touch still give a
    /// contact.
    pub fn linear(&self) -> (l: N)
        ensures
            l == self.linear_spec(),
    {
        self.linear
    }

    /// The angle of prediction on the first solid.
    pub fn angular1(&self) -> (a: N)
        ensures
            a == self.angular1_spec(),
    {
        self.angular1
    }

    /// The angle of prediction on the second solid.
    pub fn angular2(&self) -> (a: N)
        ensures
            a == self.angular2_spec(),
    {
        self.angular2
    }

    /// Sets the distance of prediction.
    pub fn set_linear(&mut self, linear: N)
        ensures
            *final(self) == old(self).with_linear(linear),
            final(self).linear_spec() == linear,
            final(self).angular1_spec() == old(self).angular1_spec(),
            final(self).angular2_spec() == old(self).angular2_spec(),
    {
        self.linear = linear;
    }

    /// Tests whether a contact of the given depth is to be reported.
    pub fn admits(&self, depth: N) -> (r: bool)
        ensures
            r == self.admits_spec(depth),
    {
        !depth.lt(self.linear.neg())
    }
}

/// What a generator applies to the contacts of a shape that is given by its
/// core: the radius by which the core is dilated.
#[derive(Clone, Copy)]
pub struct ContactPreprocessor<N> {
    /// The radius of the dilation.
    pub radius: N,
}

/// The preprocessor of the contacts of a capsule, which is handled as its
/// core segment.
pub fn capsule_contact_preprocessor<N: Real>(capsule: &Capsule<N>) -> (p: ContactPreprocessor<N>)
    ensures
        p.radius == capsule.radius_spec(),
{
    ContactPreprocessor { radius: capsule.radius() }
}

/// An algorithm that finds the contacts of a pair of shapes and keeps them in
/// a manifold.
pub trait ContactManifoldGenerator<P: Point, M: Isometry<P>>: Sized {
    /// Whether a run of this generator on the given shapes can lead from the
    /// state `self`, with the allocator `alloc` and the manifold `manifold`,
    /// to the state `after`, with `alloc_after` and `manifold_after`, and
    /// give the result `handled`.
    spec fn generates(
        &self,
        dispatcher: &ContactDispatcher,
        ma: &M,
        a: &Shape<P>,
        proc1: Option<ContactPreprocessor<RealOf<P>>>,
        mb: &M,
        b: &Shape<P>,
        proc2: Option<ContactPreprocessor<RealOf<P>>>,
        prediction: &ContactPrediction<RealOf<P>>,
        alloc: AllocatorView,
        manifold: ManifoldView<P>,
        after: &Self,
        alloc_after: AllocatorView,
        manifold_after: ManifoldView<P>,
        handled: bool,
    ) -> bool;

    /// Finds the contacts of the shapes `a` and `b` placed by `ma` and `mb`,
    /// and updates the manifold with them.
    ///
    /// The result tells whether this generator handles the pair. A generator
    /// that does not handle the pair changes nothing.
    fn generate_contacts(
        &mut self,
        dispatcher: &ContactDispatcher,
        ma: &M,
        a: &Shape<P>,
        proc1: Option<&ContactPreprocessor<RealOf<P>>>,
        mb: &M,
        b: &Shape<P>,
        proc2: Option<&ContactPreprocessor<RealOf<P>>>,
        prediction: &ContactPrediction<RealOf<P>>,
        id_alloc: &mut IdAllocator,
        manifold: &mut ContactManifold<P>,
    ) -> (handled: bool)
        requires
            old(id_alloc)@.wf(),
            old(manifold)@.wf(old(id_alloc)@),
        ensures
            final(id_alloc)@.wf(),
            final(manifold)@.wf(final(id_alloc)@),
            old(self).generates(
                dispatcher,
                ma,
                a,
                deref_preprocessor(proc1),
                mb,
                b,
                deref_preprocessor(proc2),
                prediction,
                old(id_alloc)@,
                old(manifold)@,
                final(self),
                final(id_alloc)@,
                final(manifold)@,
                handled,
            ),
    ;
}

/// The preprocessor behind an optional reference.
pub open spec fn deref_preprocessor<N>(proc: Option<&ContactPreprocessor<N>>) -> Option<
    ContactPreprocessor<N>,
> {
    match proc {
        Some(p) => Some(*p),
        None => None,
    }
}

/// The prediction for the core segments of two capsules: the distance of
/// prediction grows by the two radii.
pub open spec fn inflated_prediction<N: Real>(
    prediction: ContactPrediction<N>,
    radius1: N,
    radius2: N,
) -> ContactPrediction<N> {
    prediction.with_linear(prediction.linear_spec().add_spec(radius1).add_spec(radius2))
}

/// Contact generator between two capsules.
///
/// Each capsule is handled as its core segment; the generator of the two
/// segments does the work.
pub struct CapsuleCapsuleManifoldGenerator<G> {
    sub_detector: G,
}

impl<G> CapsuleCapsuleManifoldGenerator<G> {
    /// The generator for the two core segments.
    pub closed spec fn sub_detector_spec(&self) -> G {
        self.sub_detector
    }

    /// Creates a contact generator between two capsules from the generator
    /// for their core segments.
    pub fn new(sub_detector: G) -> (g: Self)
        ensures
            g.sub_detector_spec() == sub_detector,
    {
        CapsuleCapsuleManifoldGenerator { sub_detector }
    }

    /// The generator for the two core segments.
    pub fn sub_detector(&self) -> (g: &G)
        ensures
            *g == self.sub_detector_spec(),
    {
        &self.sub_detector
    }
}

impl<G> CapsuleCapsuleManifoldGenerator<G> {
    /// Whether a run on two capsules can lead from `self` to `after`: the
    /// generator for the segments runs on the two core segments, each with
    /// the preprocessor of its capsule, under the prediction inflated by the
    /// two radii.
    pub open spec fn updates<P: Point, M: Isometry<P>>(
        &self,
        dispatcher: &ContactDispatcher,
        m1: &M,
        g1: &Capsule<RealOf<P>>,
        m2: &M,
        g2: &Capsule<RealOf<P>>,
        prediction: &ContactPrediction<RealOf<P>>,
        alloc: AllocatorView,
        manifold: ManifoldView<P>,
        after: &Self,
        alloc_after: AllocatorView,
        manifold_after: ManifoldView<P>,
        handled: bool,
    ) -> bool where G: ContactManifoldGenerator<P, M> {
        self.sub_detector_spec().generates(
            dispatcher,
            m1,
            &Shape::Segment(core_segment::<P>(g1.half_height_spec())),
            Some(ContactPreprocessor { radius: g1.radius_spec() }),
            m2,
            &Shape::Segment(core_segment::<P>(g2.half_height_spec())),
            Some(ContactPreprocessor { radius: g2.radius_spec() }),
            &inflated_prediction(*prediction, g1.radius_spec(), g2.radius_spec()),
            alloc,
            manifold,
            &after.sub_detector_spec(),
            alloc_after,
            manifold_after,
            handled,
        )
    }

    fn do_update<P: Point, M: Isometry<P>>(
        &mut self,
        dispatcher: &ContactDispatcher,
        m1: &M,
        g1: &Capsule<RealOf<P>>,
        _proc1: Option<&ContactPreprocessor<RealOf<P>>>,
        m2: &M,
        g2: &Capsule<RealOf<P>>,
        _proc2: Option<&ContactPreprocessor<RealOf<P>>>,
        prediction: &ContactPrediction<RealOf<P>>,
        id_alloc: &mut IdAllocator,
        manifold: &mut ContactManifold<P>,
    ) -> (handled: bool) where G: ContactManifoldGenerator<P, M>
        requires
            old(id_alloc)@.wf(),
            old(manifold)@.wf(old(id_alloc)@),
        ensures
            final(id_alloc)@.wf(),
            final(manifold)@.wf(final(id_alloc)@),
            old(self).updates(
                dispatcher,
                m1,
                g1,
                m2,
                g2,
                prediction,
                old(id_alloc)@,
                old(manifold)@,
                final(self),
                final(id_alloc)@,
                final(manifold)@,
                handled,
            ),
    {
        let segment1 = Shape::Segment(capsule_segment::<P>(g1));
        let segment2 = Shape::Segment(capsule_segment::<P>(g2));

        let mut prediction = *prediction;
        let new_linear_prediction = prediction.linear().add(g1.radius()).add(g2.radius());
        prediction.set_linear(new_linear_prediction);

        let proc1 = capsule_contact_preprocessor(g1);
        let proc2 = capsule_contact_preprocessor(g2);

        // Update all collisions.
        self.sub_detector.generate_contacts(
            dispatcher,
            m1,
            &segment1,
            Some(&proc1),
            m2,
            &segment2,
            Some(&proc2),
            &prediction,
            id_alloc,
            manifold,
        )
    }
}

impl<P: Point, M: Isometry<P>, G: ContactManifoldGenerator<P, M>> ContactManifoldGenerator<
    P,
    M,
> for CapsuleCapsuleManifoldGenerator<G> {
    /// A pair of capsules is handed to the generator for their core
    /// segments; any other pair is not handled, and nothing changes.
    open spec fn generates(
        &self,
        dispatcher: &ContactDispatcher,
        ma: &M,
        a: &Shape<P>,
        proc1: Option<ContactPreprocessor<RealOf<P>>>,
        mb: &M,
        b: &Shape<P>,
        proc2: Option<ContactPreprocessor<RealOf<P>>>,
        prediction: &ContactPrediction<RealOf<P>>,
        alloc: AllocatorView,
        manifold: ManifoldView<P>,
        after: &Self,
        alloc_after: AllocatorView,
        manifold_after: ManifoldView<P>,
        handled: bool,
    ) -> bool {
        match (*a, *b) {
            (Shape::Capsule(cs1), Shape::Capsule(cs2)) => self.updates(
                dispatcher,
                ma,
                &cs1,
                mb,
                &cs2,
                prediction,
                alloc,
                manifold,
                after,
                alloc_after,
                manifold_after,
                handled,
            ),
            _ => !handled && *after == *self && alloc_after == alloc && manifold_after == manifold,
        }
    }

    fn generate_contacts(
        &mut self,
        d: &ContactDispatcher,
        ma: &M,
        a: &Shape<P>,
        proc1: Option<&ContactPreprocessor<RealOf<P>>>,
        mb: &M,
        b: &Shape<P>,
        proc2: Option<&ContactPreprocessor<RealOf<P>>>,
        prediction: &ContactPrediction<RealOf<P>>,
        id_alloc: &mut IdAllocator,
        manifold: &mut ContactManifold<P>,
    ) -> (handled: bool) {
        match (a.as_capsule(), b.as_capsule()) {
            (Some(cs1), Some(cs2)) => self.do_update(
                d,
                ma,
                cs1,
                proc1,
                mb,
                cs2,
                proc2,
                prediction,
                id_alloc,
                manifold,
            ),
            _ => false,
        }
    }
}

} // verus!
