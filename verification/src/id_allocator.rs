//! Allocation of the identifiers of tracked contacts.

use vstd::prelude::*;

verus! {

/// An allocator of identifiers.
///
/// An identifier that is handed out stays live until it is freed. A freed
/// identifier is retired first: it is handed out again only after the step
/// in which it was freed has ended, so that whoever still refers to it within
/// that step does not see it under a new owner.
pub struct IdAllocator {
    next: usize,
    free: Vec<usize>,
    retired: Vec<usize>,
}

/// What an `IdAllocator` holds, as plain values.
pub struct AllocatorView {
    /// The least identifier that was never handed out.
    pub next: usize,
    /// The identifiers that can be handed out again.
    pub free: Seq<usize>,
    /// The identifiers that were freed during the present step.
    pub retired: Seq<usize>,
}

impl AllocatorView {
    /// Whether `id` was handed out and not freed since.
    pub open spec fn is_live(self, id: usize) -> bool {
        id < self.next && !self.free.contains(id) && !self.retired.contains(id)
    }

    /// The identifiers that are handed out and not freed.
    pub open spec fn live(self) -> Set<usize> {
        Set::new(|id: usize| self.is_live(id))
    }

    /// Every identifier that is free or retired was handed out before, and
    /// none stands twice among them.
    pub open spec fn wf(self) -> bool {
        &&& forall|i: int| 0 <= i < self.free.len() ==> #[trigger] self.free[i] < self.next
        &&& forall|i: int| 0 <= i < self.retired.len() ==> #[trigger] self.retired[i] < self.next
        &&& self.free.no_duplicates()
        &&& self.retired.no_duplicates()
        &&& forall|i: int, j: int|
            0 <= i < self.free.len() && 0 <= j < self.retired.len() ==> #[trigger] self.free[i]
                != #[trigger] self.retired[j]
    }

    /// Whether an identifier can be handed out: one is free, or the counter
    /// has not reached its end.
    pub open spec fn can_allocate(self) -> bool {
        self.free.len() > 0 || self.next < usize::MAX
    }

    /// The identifier that is handed out next: the free one that was freed
    /// last, or else the least one that was never handed out.
    pub open spec fn next_id(self) -> usize {
        if self.free.len() > 0 {
            self.free.last()
        } else {
            self.next
        }
    }

    /// The state after the next identifier was handed out.
    pub open spec fn after_allocation(self) -> Self {
        if self.free.len() > 0 {
            AllocatorView { free: self.free.drop_last(), ..self }
        } else {
            AllocatorView { next: (self.next + 1) as usize, ..self }
        }
    }
}

impl View for IdAllocator {
    type V = AllocatorView;

    closed spec fn view(&self) -> AllocatorView {
        AllocatorView { next: self.next, free: self.free@, retired: self.retired@ }
    }
}

impl IdAllocator {
    /// Creates an allocator that has handed out nothing.
    pub fn new() -> (a: IdAllocator)
        ensures
            a@ == (AllocatorView { next: 0, free: Seq::empty(), retired: Seq::empty() }),
            a@.wf(),
            a@.live() == Set::<usize>::empty(),
    {
        let a = IdAllocator { next: 0, free: Vec::new(), retired: Vec::new() };
        a
    }

    /// Hands out an identifier that is not live and was not freed during the
    /// present step, or `None` where none is left.
    pub fn allocate(&mut self) -> (r: Option<usize>)
        requires
            old(self)@.wf(),
        ensures
            final(self)@.wf(),
            r is Some <==> old(self)@.can_allocate(),
            r is None ==> final(self)@ == old(self)@,
            r matches Some(id) ==> {
                &&& id == old(self)@.next_id()
                &&& final(self)@ == old(self)@.after_allocation()
                &&& !old(self)@.is_live(id)
                &&& !old(self)@.retired.contains(id)
                &&& final(self)@.live() == old(self)@.live().insert(id)
            },
    {
        let n = self.free.len();
        if n > 0 {
            let id = self.free[n - 1];
            self.free.pop();
            proof {
                let before = old(self)@;
                let after = self@;
                assert forall|x: usize| after.is_live(x) == (before.is_live(x) || x == id) by {
                    if before.free.contains(x) && x != id {
                        let k = choose|k: int| 0 <= k < before.free.len() && before.free[k] == x;
                        assert(after.free[k] == x);
                    }
                }
            }
            Some(id)
        } else if self.next < usize::MAX {
            let id = self.next;
            self.next = self.next + 1;
            Some(id)
        } else {
            None
        }
    }

    /// Frees a live identifier. It is retired until the present step ends.
    pub fn free(&mut self, id: usize)
        requires
            old(self)@.wf(),
            old(self)@.is_live(id),
        ensures
            final(self)@ == (AllocatorView { retired: old(self)@.retired.push(id), ..old(self)@ }),
            final(self)@.wf(),
            final(self)@.live() == old(self)@.live().remove(id),
    {
        self.retired.push(id);
        proof {
            let before = old(self)@;
            let after = self@;
            assert(after.retired[before.retired.len() as int] == id);
            assert forall|x: usize| after.is_live(x) == (before.is_live(x) && x != id) by {
                if before.retired.contains(x) {
                    let k = choose|k: int| 0 <= k < before.retired.len() && before.retired[k] == x;
                    assert(after.retired[k] == x);
                }
            }
        }
    }

    /// Ends the present step: the identifiers that were freed during it can
    /// be handed out again from now on. No identifier becomes live or ceases
    /// to be.
    pub fn end_step(&mut self)
        requires
            old(self)@.wf(),
        ensures
            final(self)@ == (AllocatorView {
                free: old(self)@.free + old(self)@.retired,
                retired: Seq::empty(),
                ..old(self)@
            }),
            final(self)@.wf(),
            final(self)@.live() == old(self)@.live(),
    {
        self.free.append(&mut self.retired);
        proof {
            let before = old(self)@;
            let after = self@;
            assert forall|x: usize| after.is_live(x) == before.is_live(x) by {
                if before.free.contains(x) {
                    let k = choose|k: int| 0 <= k < before.free.len() && before.free[k] == x;
                    assert(after.free[k] == x);
                }
                if before.retired.contains(x) {
                    let k = choose|k: int| 0 <= k < before.retired.len() && before.retired[k] == x;
                    assert(after.free[before.free.len() + k] == x);
                }
            }
        }
    }

    /// Tests whether `id` is live.
    pub fn is_live(&self, id: usize) -> (r: bool)
        requires
            self@.wf(),
        ensures
            r == self@.is_live(id),
    {
        if id >= self.next {
            return false;
        }
        let mut i: usize = 0;
        while i < self.free.len()
            invariant
                i <= self@.free.len(),
                forall|k: int| 0 <= k < i ==> self@.free[k] != id,
            decreases self@.free.len() - i,
        {
            if self.free[i] == id {
                return false;
            }
            i = i + 1;
        }
        let mut j: usize = 0;
        while j < self.retired.len()
            invariant
                j <= self@.retired.len(),
                forall|k: int| 0 <= k < j ==> self@.retired[k] != id,
            decreases self@.retired.len() - j,
        {
            if self.retired[j] == id {
                return false;
            }
            j = j + 1;
        }
        true
    }
}

} // verus!
