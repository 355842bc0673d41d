//! Cones of admissible normal directions.

use vstd::prelude::*;
use crate::math::{Isometry, Point, Real, Unit, Vector};

verus! {

/// A convex cone of admissible outward normals of a feature, given by its
/// generator directions.
///
/// A face-like feature has one generator, an edge-like feature two, and a
/// vertex-like feature may have none.
#[derive(Clone, Debug)]
pub struct PolyhedralCone<P: Point> {
    generators: Vec<Unit<P::Vector>>,
}

/// Whether no generator among the first `n` has a positive dot product with
/// `dir`.
pub open spec fn polar_contains_upto<V: Vector>(gens: Seq<Unit<V>>, dir: Unit<V>, n: int) -> bool {
    forall|i: int|
        0 <= i < n ==> !V::Real::zero_spec().lt_spec((#[trigger] gens[i]).value.dot_spec(dir.value))
}

/// Whether the polar of the cone of the given generators holds `dir`: no
/// generator has a positive dot product with it.
pub open spec fn polar_contains<V: Vector>(gens: Seq<Unit<V>>, dir: Unit<V>) -> bool {
    polar_contains_upto(gens, dir, gens.len() as int)
}

/// The generators of a cone after its solid moved by `m`.
pub open spec fn transformed_normals<P: Point, M: Isometry<P>>(
    normals: Seq<Unit<P::Vector>>,
    m: &M,
) -> Seq<Unit<P::Vector>> {
    Seq::new(normals.len(), |i: int| m.transform_unit_vector_spec(normals[i]))
}

impl<P: Point> View for PolyhedralCone<P> {
    type V = Seq<Unit<P::Vector>>;

    /// The generators, in the order in which they were added.
    closed spec fn view(&self) -> Seq<Unit<P::Vector>> {
        self.generators@
    }
}

impl<P: Point> PolyhedralCone<P> {
    /// Whether the polar of this cone holds `dir`.
    pub open spec fn polar_contains_dir_spec(&self, dir: Unit<P::Vector>) -> bool {
        polar_contains(self@, dir)
    }

    /// Creates a cone without generators.
    pub fn new() -> (c: Self)
        ensures
            c@ == Seq::<Unit<P::Vector>>::empty(),
    {
        PolyhedralCone { generators: Vec::new() }
    }

    /// Removes all the generators.
    pub fn clear(&mut self)
        ensures
            final(self)@ == Seq::<Unit<P::Vector>>::empty(),
    {
        self.generators.clear();
    }

    /// Adds a generator.
    pub fn add_generator(&mut self, generator: Unit<P::Vector>)
        ensures
            final(self)@ == old(self)@.push(generator),
    {
        self.generators.push(generator);
    }

    /// The number of generators.
    pub fn len(&self) -> (n: usize)
        ensures
            n == self@.len(),
    {
        self.generators.len()
    }

    /// The generator at index `i`.
    pub fn generator(&self, i: usize) -> (g: Unit<P::Vector>)
        requires
            i < self@.len(),
        ensures
            g == self@[i as int],
    {
        self.generators[i]
    }

    /// The generators, in the order in which they were added.
    pub fn generators(&self) -> (g: &Vec<Unit<P::Vector>>)
        ensures
            g@ == self@,
    {
        &self.generators
    }

    /// Replaces each generator by its image under `m`.
    pub fn transform_by<M: Isometry<P>>(&mut self, m: &M)
        ensures
            final(self)@ == transformed_normals::<P, M>(old(self)@, m),
    {
        let n = self.generators.len();
        let mut i: usize = 0;
        while i < n
            invariant
                i <= n,
                n == self@.len(),
                self@.len() == old(self)@.len(),
                forall|j: int| 0 <= j < i ==> self@[j] == m.transform_unit_vector_spec(old(self)@[j]),
                forall|j: int| i <= j < n ==> self@[j] == old(self)@[j],
            decreases n - i,
        {
            let g = m.transform_unit_vector(&self.generators[i]);
            self.generators.set(i, g);
            i = i + 1;
        }
    }

    /// Tests whether the polar of this cone holds `dir`.
    pub fn polar_contains_dir(&self, dir: &Unit<P::Vector>) -> (r: bool)
        ensures
            r == self.polar_contains_dir_spec(*dir),
    {
        let n = self.generators.len();
        let mut i: usize = 0;
        while i < n
            invariant
                i <= n,
                n == self@.len(),
                polar_contains_upto(self@, *dir, i as int),
            decreases n - i,
        {
            let d = self.generators[i].value.dot(dir.value);
            if <P::Vector as Vector>::Real::zero().lt(d) {
                return false;
            }
            i = i + 1;
        }
        true
    }
}

} // verus!
