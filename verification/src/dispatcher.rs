//! The choice of the algorithm that handles a pair of shapes.

use vstd::prelude::*;
use crate::shape::ShapeKind;

verus! {

/// An algorithm registered for the pairs of shapes of two given kinds.
#[derive(Clone, Copy)]
pub struct Registration {
    /// The kind of the first shape.
    pub kind1: ShapeKind,
    /// The kind of the second shape.
    pub kind2: ShapeKind,
    /// The algorithm, by the number under which its owner knows it.
    pub algorithm: usize,
}

impl Registration {
    /// Whether this registration is for shapes of the kinds `a` and `b`, in
    /// this order.
    pub open spec fn handles(self, a: ShapeKind, b: ShapeKind) -> bool {
        self.kind1 == a && self.kind2 == b
    }
}

/// The index of the first registration from `from` on that handles the kinds
/// `a` and `b`.
pub open spec fn first_handler_from(
    registry: Seq<Registration>,
    a: ShapeKind,
    b: ShapeKind,
    from: int,
) -> Option<int>
    decreases registry.len() - from,
{
    if from < 0 || from >= registry.len() {
        None
    } else if registry[from].handles(a, b) {
        Some(from)
    } else {
        first_handler_from(registry, a, b, from + 1)
    }
}

/// A registry of the specialised algorithms, by the kinds of the two shapes,
/// with one generic algorithm for the pairs that none of them handles.
pub struct Dispatcher {
    registry: Vec<Registration>,
    generic: usize,
}

/// The dispatcher of the algorithms that generate contacts.
pub type ContactDispatcher = Dispatcher;

/// The dispatcher of the algorithms that detect proximity.
pub type ProximityDispatcher = Dispatcher;

impl Dispatcher {
    /// The registrations, in the order in which they were made.
    pub closed spec fn registry(&self) -> Seq<Registration> {
        self.registry@
    }

    /// The generic algorithm.
    pub closed spec fn generic(&self) -> usize {
        self.generic
    }

    /// The specialised algorithm that handles the kinds `a` and `b`: the
    /// first one registered for them, if there is one.
    pub open spec fn specialized_spec(&self, a: ShapeKind, b: ShapeKind) -> Option<usize> {
        match first_handler_from(self.registry(), a, b, 0) {
            Some(i) => Some(self.registry()[i].algorithm),
            None => None,
        }
    }

    /// The algorithm that handles the kinds `a` and `b`: the specialised one
    /// if there is one, else the generic one.
    pub open spec fn algorithm_spec(&self, a: ShapeKind, b: ShapeKind) -> usize {
        match self.specialized_spec(a, b) {
            Some(algorithm) => algorithm,
            None => self.generic(),
        }
    }

    /// Creates a dispatcher without specialised algorithms.
    pub fn new(generic: usize) -> (d: Dispatcher)
        ensures
            d.registry() == Seq::<Registration>::empty(),
            d.generic() == generic,
    {
        Dispatcher { registry: Vec::new(), generic }
    }

    /// Registers a specialised algorithm for the shapes of the kinds `kind1`
    /// and `kind2`. It comes after those registered before.
    pub fn register(&mut self, kind1: ShapeKind, kind2: ShapeKind, algorithm: usize)
        ensures
            final(self).registry() == old(self).registry().push(
                Registration { kind1, kind2, algorithm },
            ),
            final(self).generic() == old(self).generic(),
    {
        self.registry.push(Registration { kind1, kind2, algorithm });
    }

    /// Looks for the specialised algorithm that handles a pair of shapes of
    /// the kinds `a` and `b`.
    pub fn get_specialized_algorithm(&self, a: ShapeKind, b: ShapeKind) -> (r: Option<usize>)
        ensures
            r == self.specialized_spec(a, b),
            r is None <==> forall|k: int|
                0 <= k < self.registry().len() ==> !(#[trigger] self.registry()[k]).handles(a, b),
            r matches Some(algorithm) ==> exists|i: int|
                {
                    &&& 0 <= i < self.registry().len()
                    &&& (#[trigger] self.registry()[i]).handles(a, b)
                    &&& self.registry()[i].algorithm == algorithm
                    &&& forall|k: int| 0 <= k < i ==> !(#[trigger] self.registry()[k]).handles(a, b)
                },
    {
        proof {
            lemma_first_handler(self.registry(), a, b, 0);
        }
        let mut i: usize = 0;
        while i < self.registry.len()
            invariant
                i <= self.registry().len(),
                first_handler_from(self.registry(), a, b, 0) == first_handler_from(
                    self.registry(),
                    a,
                    b,
                    i as int,
                ),
                forall|k: int| 0 <= k < i ==> !(#[trigger] self.registry()[k]).handles(a, b),
            decreases self.registry().len() - i,
        {
            let entry = self.registry[i];
            if entry.kind1 == a && entry.kind2 == b {
                assert(self.registry()[i as int].handles(a, b));
                return Some(entry.algorithm);
            }
            i = i + 1;
        }
        None
    }

    /// The algorithm that handles a pair of shapes of the kinds `a` and `b`.
    pub fn get_algorithm(&self, a: ShapeKind, b: ShapeKind) -> (algorithm: usize)
        ensures
            algorithm == self.algorithm_spec(a, b),
            (forall|k: int|
                0 <= k < self.registry().len() ==> !(#[trigger] self.registry()[k]).handles(a, b))
                ==> algorithm == self.generic(),
            forall|i: int|
                0 <= i < self.registry().len() && (#[trigger] self.registry()[i]).handles(a, b) && (
                forall|k: int| 0 <= k < i ==> !(#[trigger] self.registry()[k]).handles(a, b))
                    ==> algorithm == self.registry()[i].algorithm,
    {
        proof {
            lemma_first_handler(self.registry(), a, b, 0);
        }
        match self.get_specialized_algorithm(a, b) {
            Some(algorithm) => algorithm,
            None => self.generic,
        }
    }
}

/// The first handler handles the pair, and no registration before it does;
/// where there is no first handler, no registration from `from` on handles
/// the pair.
pub proof fn lemma_first_handler(registry: Seq<Registration>, a: ShapeKind, b: ShapeKind, from: int)
    requires
        0 <= from,
    ensures
        match first_handler_from(registry, a, b, from) {
            Some(i) => {
                &&& from <= i < registry.len()
                &&& registry[i].handles(a, b)
                &&& forall|k: int| from <= k < i ==> !(#[trigger] registry[k]).handles(a, b)
            },
            None => forall|k: int| from <= k < registry.len() ==> !(#[trigger] registry[k]).handles(
                a,
                b,
            ),
        },
    decreases registry.len() - from,
{
    if from < registry.len() && !registry[from].handles(a, b) {
        lemma_first_handler(registry, a, b, from + 1);
    }
}

/// A pair of kinds for which nothing is registered goes to the generic
/// algorithm; a pair for which something is registered goes to the first
/// algorithm registered for it.
pub proof fn lemma_dispatch(d: Dispatcher, a: ShapeKind, b: ShapeKind)
    ensures
        (forall|k: int| 0 <= k < d.registry().len() ==> !(#[trigger] d.registry()[k]).handles(a, b))
            ==> d.algorithm_spec(a, b) == d.generic(),
        forall|i: int|
            0 <= i < d.registry().len() && (#[trigger] d.registry()[i]).handles(a, b) && (forall|
                k: int,
            |
                0 <= k < i ==> !(#[trigger] d.registry()[k]).handles(a, b)) ==> d.algorithm_spec(
                a,
                b,
            ) == d.registry()[i].algorithm,
{
    lemma_first_handler(d.registry(), a, b, 0);
}

} // verus!
