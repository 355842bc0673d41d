//! Unordered pairs of uniquely identified objects, and a hash for them.

use vstd::prelude::*;
use vstd::std_specs::cmp::PartialEqSpecImpl;

verus! {

/// Objects that carry a unique identifier.
pub trait HasUid {
    /// The identifier of this object.
    spec fn uid_spec(&self) -> usize;

    /// Returns the identifier of this object.
    fn uid(&self) -> (id: usize)
        ensures
            id == self.uid_spec(),
    ;
}

impl HasUid for usize {
    open spec fn uid_spec(&self) -> usize {
        *self
    }

    fn uid(&self) -> (id: usize) {
        *self
    }
}

/// The smaller of two identifiers.
pub open spec fn min_uid(a: usize, b: usize) -> usize {
    if a < b {
        a
    } else {
        b
    }
}

/// The larger of two identifiers.
pub open spec fn max_uid(a: usize, b: usize) -> usize {
    if a < b {
        b
    } else {
        a
    }
}

/// An unordered pair of elements implementing `HasUid`.
///
/// The elements are kept in the order they were given; the identifiers are
/// kept sorted, so that two pairs of the same objects compare equal whatever
/// the order of construction.
pub struct Pair<B> {
    first: B,
    second: B,
    ifirst: usize,
    isecond: usize,
}

impl<B> Pair<B> {
    /// The first object, as given at construction.
    pub closed spec fn first_spec(&self) -> B {
        self.first
    }

    /// The second object, as given at construction.
    pub closed spec fn second_spec(&self) -> B {
        self.second
    }

    /// First object of the pair.
    pub fn first(&self) -> (r: &B)
        ensures
            *r == self.first_spec(),
    {
        &self.first
    }

    /// Second object of the pair.
    pub fn second(&self) -> (r: &B)
        ensures
            *r == self.second_spec(),
    {
        &self.second
    }

    /// The smaller identifier of the two objects.
    pub closed spec fn ifirst(&self) -> usize {
        self.ifirst
    }

    /// The larger identifier of the two objects.
    pub closed spec fn isecond(&self) -> usize {
        self.isecond
    }

    /// The identifiers are stored in increasing order.
    pub open spec fn wf(&self) -> bool {
        self.ifirst() <= self.isecond()
    }

    /// Whether both pairs hold the same two identifiers.
    pub open spec fn same_objects(&self, other: &Pair<B>) -> bool {
        self.ifirst() == other.ifirst() && self.isecond() == other.isecond()
    }

    /// The pair of sorted identifiers, by which pairs are compared and hashed.
    pub fn key(&self) -> (k: (usize, usize))
        ensures
            k == (self.ifirst(), self.isecond()),
    {
        (self.ifirst, self.isecond)
    }
}

impl<B: HasUid> Pair<B> {
    /// Builds a new `Pair`.
    pub fn new(a: B, b: B) -> (p: Pair<B>)
        ensures
            p.first_spec() == a,
            p.second_spec() == b,
            p.ifirst() == min_uid(a.uid_spec(), b.uid_spec()),
            p.isecond() == max_uid(a.uid_spec(), b.uid_spec()),
            p.wf(),
    {
        let ia = a.uid();
        let ib = b.uid();

        if ia < ib {
            Pair { first: a, second: b, ifirst: ia, isecond: ib }
        } else {
            Pair { first: a, second: b, ifirst: ib, isecond: ia }
        }
    }
}

impl<B> PartialEq for Pair<B> {
    fn eq(&self, other: &Pair<B>) -> (r: bool) {
        self.ifirst == other.ifirst && self.isecond == other.isecond
    }
}

impl<B> PartialEqSpecImpl for Pair<B> {
    open spec fn obeys_eq_spec() -> bool {
        true
    }

    open spec fn eq_spec(&self, other: &Pair<B>) -> bool {
        self.same_objects(other)
    }
}

/// Two pairs built from the same two objects are equal, in whichever order
/// the objects were given.
pub proof fn lemma_pair_unordered<B: HasUid>(p: Pair<B>, q: Pair<B>, a: B, b: B)
    requires
        p.ifirst() == min_uid(a.uid_spec(), b.uid_spec()),
        p.isecond() == max_uid(a.uid_spec(), b.uid_spec()),
        q.ifirst() == min_uid(b.uid_spec(), a.uid_spec()),
        q.isecond() == max_uid(b.uid_spec(), a.uid_spec()),
    ensures
        p.same_objects(&q),
{
}

/// Hash functions over keys of type `K`.
pub trait HashFun<K> {
    /// The hash of a key.
    spec fn hash_spec(&self, k: &K) -> usize;

    /// Computes the hash of a key.
    fn hash(&self, k: &K) -> (h: usize)
        ensures
            h == self.hash_spec(k),
    ;
}

/// Packs two identifiers into one key: the low 16 bits of the first, below
/// the second shifted up by 16 bits.
pub open spec fn key_from_pair_spec(a: usize, b: usize) -> usize {
    (a & 0xffff) | (b << 16)
}

/// Packs two identifiers into one key.
pub fn key_from_pair(a: usize, b: usize) -> (k: usize)
    ensures
        k == key_from_pair_spec(a, b),
{
    (a & 0xffff) | (b << 16)
}

/// The mix of the bits of a key that Thomas Wang gave for 64-bit integers,
/// in wrapping arithmetic.
pub open spec fn tomas_wang_hash_spec(k: usize) -> usize {
    let r = (!k).wrapping_add(k << 21);
    let r = r ^ (r >> 24);
    let r = r.wrapping_add(r << 3).wrapping_add(r << 8);
    let r = r ^ (r >> 14);
    let r = r.wrapping_add(r << 2).wrapping_add(r << 4);
    let r = r ^ (r >> 28);
    r.wrapping_add(r << 31)
}

/// Mixes the bits of a key.
pub fn tomas_wang_hash(k: usize) -> (h: usize)
    ensures
        h == tomas_wang_hash_spec(k),
{
    let mut res = k;
    res = (!res).wrapping_add(res << 21);
    res = res ^ (res >> 24);
    res = res.wrapping_add(res << 3).wrapping_add(res << 8);
    res = res ^ (res >> 14);
    res = res.wrapping_add(res << 2).wrapping_add(res << 4);
    res = res ^ (res >> 28);
    res = res.wrapping_add(res << 31);
    res
}

/// Hash function for a `Pair` object, after Thomas Wang.
pub struct PairTWHash {}

impl PairTWHash {
    /// Creates a new PairTWHash.
    pub fn new() -> (h: PairTWHash)
        ensures
            h == (PairTWHash {  }),
    {
        PairTWHash {  }
    }
}

impl<B> HashFun<Pair<B>> for PairTWHash {
    /// The mixed bits of the key packed from the two sorted identifiers.
    open spec fn hash_spec(&self, p: &Pair<B>) -> usize {
        tomas_wang_hash_spec(key_from_pair_spec(p.ifirst(), p.isecond()))
    }

    fn hash(&self, p: &Pair<B>) -> (h: usize) {
        tomas_wang_hash(key_from_pair(p.ifirst, p.isecond))
    }
}

/// Pairs that compare equal have the same hash, so that the order in which
/// the two objects of a pair were given does not show in its hash.
pub proof fn lemma_equal_pairs_hash_alike<B>(h: PairTWHash, p: Pair<B>, q: Pair<B>)
    requires
        p.same_objects(&q),
    ensures
        h.hash_spec(&p) == h.hash_spec(&q),
{
}

} // verus!
