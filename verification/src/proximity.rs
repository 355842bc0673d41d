//! Proximity classification between two shapes.

use vstd::prelude::*;
use crate::ball::Ball;
use crate::dispatcher::ProximityDispatcher;
use crate::math::{Isometry, Point, Real, RealOf, Vector};
use crate::shape::Shape;

verus! {

/// How close two shapes are.
#[derive(Clone, Copy, Debug, PartialEq, Eq, Structural)]
pub enum Proximity {
    /// The two shapes overlap.
    Intersecting,
    /// The two shapes do not overlap but lie within the margin of each other.
    WithinMargin,
    /// The two shapes are further apart than the margin.
    Disjoint,
}

/// The proximity of two balls whose centers are at the distance `distance`
/// from each other and whose radii add up to `radii`:
/// intersecting where the distance is below the sum of the radii, within
/// the margin where it is not but does not exceed that sum plus the margin,
/// and disjoint beyond.
pub open spec fn proximity_of_distance<N: Real>(distance: N, radii: N, margin: N) -> Proximity {
    if distance.lt_spec(radii) {
        Proximity::Intersecting
    } else if distance.le_spec(radii.add_spec(margin)) {
        Proximity::WithinMargin
    } else {
        Proximity::Disjoint
    }
}

/// The proximity of two balls, given their centers and their radii.
pub open spec fn proximity_ball_ball_spec<P: Point>(
    center1: P,
    radius1: RealOf<P>,
    center2: P,
    radius2: RealOf<P>,
    margin: RealOf<P>,
) -> Proximity {
    proximity_of_distance(
        center2.sub_spec(center1).norm_spec(),
        radius1.add_spec(radius2),
        margin,
    )
}

/// Classifies the proximity of two balls from the distance between their
/// centers and the sum of their radii.
pub fn proximity_ball_ball<P: Point>(
    center1: &P,
    b1: &Ball<RealOf<P>>,
    center2: &P,
    b2: &Ball<RealOf<P>>,
    margin: RealOf<P>,
) -> (p: Proximity)
    ensures
        p == proximity_ball_ball_spec(
            *center1,
            b1.radius_spec(),
            *center2,
            b2.radius_spec(),
            margin,
        ),
        p == Proximity::Intersecting <==> center2.sub_spec(*center1).norm_spec().lt_spec(
            b1.radius_spec().add_spec(b2.radius_spec()),
        ),
        p == Proximity::WithinMargin <==> !center2.sub_spec(*center1).norm_spec().lt_spec(
            b1.radius_spec().add_spec(b2.radius_spec()),
        ) && center2.sub_spec(*center1).norm_spec().le_spec(
            b1.radius_spec().add_spec(b2.radius_spec()).add_spec(margin),
        ),
{
    let distance = center2.sub(*center1).norm();
    let radii = b1.radius().add(b2.radius());

    if distance.lt(radii) {
        Proximity::Intersecting
    } else if distance.le(radii.add(margin)) {
        Proximity::WithinMargin
    } else {
        Proximity::Disjoint
    }
}

/// Whether the scalars of type `N` are totally ordered: `a` is not below `b`
/// exactly where `b` is at most `a`.
///
/// Scalars that include values which compare with nothing do not have this
/// property.
pub open spec fn totally_ordered<N: Real>() -> bool {
    forall|a: N, b: N| !(#[trigger] a.lt_spec(b)) <==> b.le_spec(a)
}

/// For totally ordered scalars, two balls intersect exactly where the
/// distance between their centers is below the sum of their radii; they are
/// within the margin exactly where that distance is at least the sum of the
/// radii and at most that sum plus the margin; and they are disjoint
/// otherwise.
pub proof fn lemma_proximity_by_distance<P: Point>(
    center1: P,
    radius1: RealOf<P>,
    center2: P,
    radius2: RealOf<P>,
    margin: RealOf<P>,
)
    requires
        totally_ordered::<RealOf<P>>(),
    ensures
        ({
            let p = proximity_ball_ball_spec(center1, radius1, center2, radius2, margin);
            let distance = center2.sub_spec(center1).norm_spec();
            let radii = radius1.add_spec(radius2);
            &&& p == Proximity::Intersecting <==> distance.lt_spec(radii)
            &&& p == Proximity::WithinMargin <==> radii.le_spec(distance) && distance.le_spec(
                radii.add_spec(margin),
            )
            &&& p == Proximity::Disjoint <==> !distance.lt_spec(radii) && !distance.le_spec(
                radii.add_spec(margin),
            )
        }),
{
    let distance = center2.sub_spec(center1).norm_spec();
    let radii = radius1.add_spec(radius2);
    assert(!distance.lt_spec(radii) <==> radii.le_spec(distance));
}

/// Proximity detector between two balls.
#[derive(Clone, Copy)]
pub struct BallBallProximityDetector {
    proximity: Proximity,
}

impl BallBallProximityDetector {
    /// The proximity found by the last update.
    pub closed spec fn proximity_spec(&self) -> Proximity {
        self.proximity
    }

    /// Creates a new persistent proximity detector between two balls.
    pub fn new() -> (d: BallBallProximityDetector)
        ensures
            d.proximity_spec() == Proximity::Disjoint,
    {
        BallBallProximityDetector { proximity: Proximity::Disjoint }
    }

    /// Updates the proximity from the placements of two shapes.
    ///
    /// Where both shapes are balls, the proximity of the two balls, centred
    /// where `ma` and `mb` send the origin, is recorded and the result is
    /// `true`. Otherwise the detector does not handle the pair: it stays as it
    /// is, and the result is `false`.
    pub fn update<P: Point, M: Isometry<P>>(
        &mut self,
        _dispatcher: &ProximityDispatcher,
        ma: &M,
        a: &Shape<P>,
        mb: &M,
        b: &Shape<P>,
        margin: RealOf<P>,
    ) -> (handled: bool)
        ensures
            handled == (*a is Ball && *b is Ball),
            match (*a, *b) {
                (Shape::Ball(ball_a), Shape::Ball(ball_b)) => final(self).proximity_spec()
                    == proximity_ball_ball_spec(
                    ma.transform_point_spec(P::origin_spec()),
                    ball_a.radius_spec(),
                    mb.transform_point_spec(P::origin_spec()),
                    ball_b.radius_spec(),
                    margin,
                ),
                _ => final(self).proximity_spec() == old(self).proximity_spec(),
            },
    {
        match (a.as_ball(), b.as_ball()) {
            (Some(ball_a), Some(ball_b)) => {
                let origin = P::origin();
                self.proximity = proximity_ball_ball(
                    &ma.transform_point(&origin),
                    ball_a,
                    &mb.transform_point(&origin),
                    ball_b,
                    margin,
                );
                true
            },
            _ => false,
        }
    }

    /// The proximity found by the last update.
    pub fn proximity(&self) -> (p: Proximity)
        ensures
            p == self.proximity_spec(),
    {
        self.proximity
    }
}

} // verus!
