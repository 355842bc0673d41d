//! The contacts of one pair of solids, which keep their identifiers from one
//! step to the next.

use vstd::prelude::*;
use crate::contact::{Contact, FeatureId};
use crate::id_allocator::{AllocatorView, IdAllocator};
use crate::math::Point;

verus! {

/// A contact with the identifier under which it is tracked and the features
/// of the two solids that touch.
#[derive(Clone, Copy)]
pub struct TrackedContact<P: Point> {
    /// The geometry of the contact.
    pub contact: Contact<P>,
    /// The identifier of the contact. It stays the same for as long as the
    /// same two features touch.
    pub id: usize,
    /// The feature of the first solid.
    pub feature1: FeatureId,
    /// The feature of the second solid.
    pub feature2: FeatureId,
}

/// The identifier that a pair of features had in the previous step.
#[derive(Clone, Copy)]
pub struct CachedId {
    /// The feature of the first solid.
    pub feature1: FeatureId,
    /// The feature of the second solid.
    pub feature2: FeatureId,
    /// The identifier.
    pub id: usize,
    /// Whether a contact of the present step has taken the identifier.
    pub claimed: bool,
}

impl CachedId {
    /// Whether this identifier is there to take for a contact of the given
    /// features.
    pub open spec fn is_match(self, feature1: FeatureId, feature2: FeatureId) -> bool {
        !self.claimed && self.feature1 == feature1 && self.feature2 == feature2
    }
}

/// The index of the first cached identifier from `from` on that is there to
/// take for a contact of the given features.
pub open spec fn first_match_from(
    cache: Seq<CachedId>,
    feature1: FeatureId,
    feature2: FeatureId,
    from: int,
) -> Option<int>
    decreases cache.len() - from,
{
    if from < 0 || from >= cache.len() {
        None
    } else if cache[from].is_match(feature1, feature2) {
        Some(from)
    } else {
        first_match_from(cache, feature1, feature2, from + 1)
    }
}

/// What a `ContactManifold` holds, as plain values.
pub struct ManifoldView<P: Point> {
    /// The contacts of the present step.
    pub contacts: Seq<TrackedContact<P>>,
    /// The identifiers of the contacts of the previous step.
    pub cache: Seq<CachedId>,
}

impl<P: Point> ManifoldView<P> {
    /// Whether `id` is cached and no contact of the present step has taken
    /// it.
    pub open spec fn is_unclaimed(self, id: usize) -> bool {
        exists|j: int| 0 <= j < self.cache.len() && !(#[trigger] self.cache[j]).claimed
            && self.cache[j].id == id
    }

    /// Whether `id` is the identifier of a contact of the present step.
    pub open spec fn is_tracked(self, id: usize) -> bool {
        exists|i: int| 0 <= i < self.contacts.len() && (#[trigger] self.contacts[i]).id == id
    }

    /// The identifiers that this manifold holds are live, and no two of its
    /// contacts or unclaimed cached identifiers are the same.
    pub open spec fn wf(self, alloc: AllocatorView) -> bool {
        &&& forall|i: int|
            0 <= i < self.contacts.len() ==> alloc.is_live((#[trigger] self.contacts[i]).id)
        &&& forall|j: int|
            0 <= j < self.cache.len() && !(#[trigger] self.cache[j]).claimed ==> alloc.is_live(
                self.cache[j].id,
            )
        &&& forall|i: int, k: int|
            0 <= i < self.contacts.len() && 0 <= k < self.contacts.len() && i != k ==> (
            #[trigger] self.contacts[i]).id != (#[trigger] self.contacts[k]).id
        &&& forall|j: int, l: int|
            0 <= j < self.cache.len() && 0 <= l < self.cache.len() && j != l && !(
            #[trigger] self.cache[j]).claimed && !(#[trigger] self.cache[l]).claimed
                ==> self.cache[j].id != self.cache[l].id
        &&& forall|i: int, j: int|
            0 <= i < self.contacts.len() && 0 <= j < self.cache.len() && !(
            #[trigger] self.cache[j]).claimed ==> (#[trigger] self.contacts[i]).id
                != self.cache[j].id
    }

    /// The cached identifier that a new contact of the given features takes,
    /// by its index: the first one of these features that is not taken yet.
    pub open spec fn first_match(self, feature1: FeatureId, feature2: FeatureId) -> Option<int> {
        first_match_from(self.cache, feature1, feature2, 0)
    }

    /// Whether the cached identifier of index `j` is the first that is there
    /// to take for a contact of the given features.
    pub open spec fn is_first_match(self, j: int, feature1: FeatureId, feature2: FeatureId) -> bool {
        &&& 0 <= j < self.cache.len()
        &&& self.cache[j].is_match(feature1, feature2)
        &&& forall|k: int| 0 <= k < j ==> !(#[trigger] self.cache[k]).is_match(feature1, feature2)
    }

    /// Whether no cached identifier is there to take for a contact of the
    /// given features.
    pub open spec fn has_no_match(self, feature1: FeatureId, feature2: FeatureId) -> bool {
        forall|k: int|
            0 <= k < self.cache.len() ==> !(#[trigger] self.cache[k]).is_match(feature1, feature2)
    }

    /// The state after a contact was added under the identifier `id`.
    pub open spec fn with_contact(
        self,
        contact: Contact<P>,
        feature1: FeatureId,
        feature2: FeatureId,
        id: usize,
    ) -> Self {
        ManifoldView {
            contacts: self.contacts.push(TrackedContact { contact, id, feature1, feature2 }),
            ..self
        }
    }

    /// The state after the cached identifier of index `j` was taken.
    pub open spec fn with_claimed(self, j: int) -> Self {
        ManifoldView {
            cache: self.cache.update(j, CachedId { claimed: true, ..self.cache[j] }),
            ..self
        }
    }

    /// The state at the start of a new step: no contact, and the identifiers
    /// of the contacts of the step before in the cache, none of them taken.
    pub open spec fn next_step(self) -> Self {
        ManifoldView {
            contacts: Seq::empty(),
            cache: Seq::new(
                self.contacts.len(),
                |i: int|
                    CachedId {
                        feature1: self.contacts[i].feature1,
                        feature2: self.contacts[i].feature2,
                        id: self.contacts[i].id,
                        claimed: false,
                    },
            ),
        }
    }
}

/// The first match is a match, and nothing before it is one; where there is
/// no first match, nothing from `from` on is a match.
pub proof fn lemma_first_match(
    cache: Seq<CachedId>,
    feature1: FeatureId,
    feature2: FeatureId,
    from: int,
)
    requires
        0 <= from,
    ensures
        match first_match_from(cache, feature1, feature2, from) {
            Some(j) => {
                &&& from <= j < cache.len()
                &&& cache[j].is_match(feature1, feature2)
                &&& forall|k: int| from <= k < j ==> !(#[trigger] cache[k]).is_match(feature1, feature2)
            },
            None => forall|k: int|
                from <= k < cache.len() ==> !(#[trigger] cache[k]).is_match(feature1, feature2),
        },
    decreases cache.len() - from,
{
    if from < cache.len() && !cache[from].is_match(feature1, feature2) {
        lemma_first_match(cache, feature1, feature2, from + 1);
    }
}

/// A contact keeps its identifier from one step to the next: at the start of
/// a step, the identifier that a new contact takes is that of the first
/// contact of the step before that had the same two features.
pub proof fn lemma_identifier_persists<P: Point>(s: ManifoldView<P>, i: int)
    requires
        0 <= i < s.contacts.len(),
        forall|k: int|
            0 <= k < i ==> !((#[trigger] s.contacts[k]).feature1 == s.contacts[i].feature1
                && s.contacts[k].feature2 == s.contacts[i].feature2),
    ensures
        s.next_step().first_match(s.contacts[i].feature1, s.contacts[i].feature2) == Some(i),
        s.next_step().cache[i].id == s.contacts[i].id,
{
    let f1 = s.contacts[i].feature1;
    let f2 = s.contacts[i].feature2;
    let cache = s.next_step().cache;
    lemma_first_match(cache, f1, f2, 0);
}

/// A contact whose two features did not touch in the step before, or whose
/// identifier was taken already, finds nothing in the cache: it gets a new
/// identifier.
pub proof fn lemma_new_features_find_no_identifier<P: Point>(
    s: ManifoldView<P>,
    feature1: FeatureId,
    feature2: FeatureId,
)
    requires
        forall|j: int|
            0 <= j < s.cache.len() ==> !(#[trigger] s.cache[j]).is_match(feature1, feature2),
    ensures
        s.first_match(feature1, feature2) is None,
{
    lemma_first_match(s.cache, feature1, feature2, 0);
}

/// The contacts between two solids.
///
/// A contact is matched to the contacts of the step before by the features
/// that touch, not by where it lies: where the same two features touch
/// again, the contact keeps its identifier.
pub struct ContactManifold<P: Point> {
    contacts: Vec<TrackedContact<P>>,
    cache: Vec<CachedId>,
}

impl<P: Point> View for ContactManifold<P> {
    type V = ManifoldView<P>;

    closed spec fn view(&self) -> ManifoldView<P> {
        ManifoldView { contacts: self.contacts@, cache: self.cache@ }
    }
}

impl<P: Point> ContactManifold<P> {
    /// Creates a manifold without contacts.
    pub fn new() -> (m: ContactManifold<P>)
        ensures
            m@ == (ManifoldView::<P> { contacts: Seq::empty(), cache: Seq::empty() }),
            forall|alloc: AllocatorView| m@.wf(alloc),
    {
        ContactManifold { contacts: Vec::new(), cache: Vec::new() }
    }

    /// The number of contacts of the present step.
    pub fn len(&self) -> (n: usize)
        ensures
            n == self@.contacts.len(),
    {
        self.contacts.len()
    }

    /// The contacts of the present step, in the order in which they were
    /// added.
    pub fn contacts(&self) -> (c: &Vec<TrackedContact<P>>)
        ensures
            c@ == self@.contacts,
    {
        &self.contacts
    }

    /// Looks for the first cached identifier that is there to take for a
    /// contact of the given features.
    fn find_match(&self, feature1: FeatureId, feature2: FeatureId) -> (r: Option<usize>)
        ensures
            match r {
                Some(j) => self@.first_match(feature1, feature2) == Some(j as int),
                None => self@.first_match(feature1, feature2) is None,
            },
    {
        let mut j: usize = 0;
        while j < self.cache.len()
            invariant
                j <= self@.cache.len(),
                first_match_from(self@.cache, feature1, feature2, 0) == first_match_from(
                    self@.cache,
                    feature1,
                    feature2,
                    j as int,
                ),
            decreases self@.cache.len() - j,
        {
            let entry = self.cache[j];
            if !entry.claimed && entry.feature1 == feature1 && entry.feature2 == feature2 {
                return Some(j);
            }
            j = j + 1;
        }
        None
    }

    /// Adds a contact between the features `feature1` and `feature2`, and
    /// returns its identifier.
    ///
    /// The identifier is the one that a contact of the same two features had
    /// in the step before, if there was one and no contact has taken it yet;
    /// otherwise it is a new one. The result is `None`, and nothing changes,
    /// where a new identifier is needed and the allocator has none left.
    pub fn push(
        &mut self,
        contact: Contact<P>,
        feature1: FeatureId,
        feature2: FeatureId,
        id_alloc: &mut IdAllocator,
    ) -> (r: Option<usize>)
        requires
            old(id_alloc)@.wf(),
            old(self)@.wf(old(id_alloc)@),
        ensures
            final(id_alloc)@.wf(),
            final(self)@.wf(final(id_alloc)@),
            old(self)@.has_no_match(feature1, feature2) <==> old(self)@.first_match(
                feature1,
                feature2,
            ) is None,
            forall|j: int|
                old(self)@.is_first_match(j, feature1, feature2) <==> old(self)@.first_match(
                    feature1,
                    feature2,
                ) == Some(j),
            match old(self)@.first_match(feature1, feature2) {
                Some(j) => {
                    &&& r == Some(old(self)@.cache[j].id)
                    &&& final(self)@ == old(self)@.with_claimed(j).with_contact(
                        contact,
                        feature1,
                        feature2,
                        old(self)@.cache[j].id,
                    )
                    &&& final(id_alloc)@ == old(id_alloc)@
                },
                None => match r {
                    Some(id) => {
                        &&& id == old(id_alloc)@.next_id()
                        &&& !old(id_alloc)@.is_live(id)
                        &&& final(id_alloc)@ == old(id_alloc)@.after_allocation()
                        &&& final(self)@ == old(self)@.with_contact(contact, feature1, feature2, id)
                    },
                    None => {
                        &&& !old(id_alloc)@.can_allocate()
                        &&& final(self)@ == old(self)@
                        &&& final(id_alloc)@ == old(id_alloc)@
                    },
                },
            },
    {
        proof {
            lemma_first_match(self@.cache, feature1, feature2, 0);
        }
        match self.find_match(feature1, feature2) {
            Some(j) => {
                let entry = self.cache[j];
                self.cache.set(
                    j,
                    CachedId {
                        feature1: entry.feature1,
                        feature2: entry.feature2,
                        id: entry.id,
                        claimed: true,
                    },
                );
                self.contacts.push(TrackedContact { contact, id: entry.id, feature1, feature2 });
                Some(entry.id)
            },
            None => {
                match id_alloc.allocate() {
                    Some(id) => {
                        self.contacts.push(TrackedContact { contact, id, feature1, feature2 });
                        Some(id)
                    },
                    None => None,
                }
            },
        }
    }
}

impl<P: Point> ContactManifold<P> {
    /// Frees the cached identifiers that no contact has taken.
    fn release_cache(&self, id_alloc: &mut IdAllocator)
        requires
            old(id_alloc)@.wf(),
            self@.wf(old(id_alloc)@),
        ensures
            final(id_alloc)@.wf(),
            final(id_alloc)@.next == old(id_alloc)@.next,
            final(id_alloc)@.free == old(id_alloc)@.free,
            forall|id: usize|
                final(id_alloc)@.is_live(id) <==> old(id_alloc)@.is_live(id) && !self@.is_unclaimed(
                    id,
                ),
    {
        let mut j: usize = 0;
        while j < self.cache.len()
            invariant
                j <= self@.cache.len(),
                id_alloc@.wf(),
                self@.wf(old(id_alloc)@),
                id_alloc@.next == old(id_alloc)@.next,
                id_alloc@.free == old(id_alloc)@.free,
                forall|id: usize|
                    id_alloc@.is_live(id) <==> old(id_alloc)@.is_live(id) && !(exists|k: int|
                        0 <= k < j && !(#[trigger] self@.cache[k]).claimed && self@.cache[k].id
                            == id),
            decreases self@.cache.len() - j,
        {
            let entry = self.cache[j];
            if !entry.claimed {
                let ghost before = id_alloc@;
                id_alloc.free(entry.id);
                proof {
                    assert forall|id: usize|
                        id_alloc@.is_live(id) <==> old(id_alloc)@.is_live(id) && !(exists|k: int|
                            0 <= k < j + 1 && !(#[trigger] self@.cache[k]).claimed
                                && self@.cache[k].id == id) by {
                        assert(id_alloc@.live().contains(id) == before.live().remove(
                            entry.id,
                        ).contains(id));
                    }
                }
            }
            j = j + 1;
        }
    }

    /// Starts a new step.
    ///
    /// The contacts of the step that ends are forgotten, but their
    /// identifiers are kept for the contacts of the new step to take. The
    /// identifiers that were kept from the step before and that no contact
    /// took are freed.
    pub fn save_cache_and_clear(&mut self, id_alloc: &mut IdAllocator)
        requires
            old(id_alloc)@.wf(),
            old(self)@.wf(old(id_alloc)@),
        ensures
            final(self)@ == old(self)@.next_step(),
            final(id_alloc)@.wf(),
            final(self)@.wf(final(id_alloc)@),
            final(id_alloc)@.next == old(id_alloc)@.next,
            final(id_alloc)@.free == old(id_alloc)@.free,
            forall|id: usize|
                final(id_alloc)@.is_live(id) <==> old(id_alloc)@.is_live(id) && !old(
                    self,
                )@.is_unclaimed(id),
    {
        self.release_cache(id_alloc);
        self.cache.clear();
        let n = self.contacts.len();
        let mut i: usize = 0;
        while i < n
            invariant
                i <= n,
                n == self@.contacts.len(),
                self@.contacts == old(self)@.contacts,
                self@.cache.len() == i,
                forall|k: int|
                    0 <= k < i ==> #[trigger] self@.cache[k] == old(self)@.next_step().cache[k],
            decreases n - i,
        {
            let c = self.contacts[i];
            self.cache.push(
                CachedId { feature1: c.feature1, feature2: c.feature2, id: c.id, claimed: false },
            );
            i = i + 1;
        }
        self.contacts.clear();
        assert(self@.cache =~= old(self)@.next_step().cache);
    }

    /// Forgets the contacts and the cached identifiers, and frees the
    /// identifiers that this manifold held.
    pub fn clear(&mut self, id_alloc: &mut IdAllocator)
        requires
            old(id_alloc)@.wf(),
            old(self)@.wf(old(id_alloc)@),
        ensures
            final(self)@ == (ManifoldView::<P> { contacts: Seq::empty(), cache: Seq::empty() }),
            final(id_alloc)@.wf(),
            final(self)@.wf(final(id_alloc)@),
            final(id_alloc)@.next == old(id_alloc)@.next,
            final(id_alloc)@.free == old(id_alloc)@.free,
            forall|id: usize|
                final(id_alloc)@.is_live(id) <==> old(id_alloc)@.is_live(id) && !old(
                    self,
                )@.is_unclaimed(id) && !old(self)@.is_tracked(id),
    {
        self.release_cache(id_alloc);
        self.cache.clear();
        let ghost released = id_alloc@;
        let n = self.contacts.len();
        let mut i: usize = 0;
        while i < n
            invariant
                i <= n,
                n == self@.contacts.len(),
                self@.contacts == old(self)@.contacts,
                self@.cache.len() == 0,
                old(self)@.wf(old(id_alloc)@),
                id_alloc@.wf(),
                id_alloc@.next == old(id_alloc)@.next,
                id_alloc@.free == old(id_alloc)@.free,
                forall|id: usize|
                    #[trigger] released.is_live(id) <==> old(id_alloc)@.is_live(id) && !old(
                        self,
                    )@.is_unclaimed(id),
                forall|id: usize|
                    #[trigger] id_alloc@.is_live(id) <==> released.is_live(id) && !(exists|k: int|
                        0 <= k < i && (#[trigger] self@.contacts[k]).id == id),
            decreases n - i,
        {
            let c = self.contacts[i];
            let ghost before = id_alloc@;
            id_alloc.free(c.id);
            i = i + 1;
            proof {
                assert forall|id: usize|
                    id_alloc@.is_live(id) <==> released.is_live(id) && !(exists|k: int|
                        0 <= k < i && (#[trigger] self@.contacts[k]).id == id) by {
                    assert(id_alloc@.live().contains(id) == before.live().remove(c.id).contains(
                        id,
                    ));
                }
            }
        }
        self.contacts.clear();
    }
}

} // verus!
