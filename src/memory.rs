use vstd::prelude::*;

use crate::error::SolverError;

verus! {

/// Bookkeeping of the limited memory of the quasi-Newton estimator: which
/// of `capacity` preallocated slots hold a correction pair, from the oldest
/// to the newest. When all slots are taken, recording a new pair reuses the
/// slot of the oldest one.
#[derive(Debug)]
pub struct PairRing {
    capacity: usize,
    start: usize,
    count: usize,
    primed: bool,
}

impl PairRing {
    /// Number of slots the memory was created with.
    pub closed spec fn capacity_spec(&self) -> nat {
        self.capacity as nat
    }

    /// Physical slot of the pair at logical position `i`, counted from the
    /// oldest one.
    closed spec fn physical(&self, i: int) -> int {
        if self.start + i < self.capacity {
            self.start + i
        } else {
            self.start + i - self.capacity
        }
    }

    /// The occupied slots, from the oldest pair to the newest.
    pub closed spec fn slots(&self) -> Seq<int> {
        Seq::new(self.count as nat, |i: int| self.physical(i))
    }

    /// Whether an iterate and residual have been seen since creation or the
    /// last reset, so that the next observation can form a pair.
    pub closed spec fn primed_spec(&self) -> bool {
        self.primed
    }

    /// Well-formedness: a positive capacity, and no more pairs than slots.
    pub closed spec fn inv(&self) -> bool {
        &&& self.capacity > 0
        &&& self.start < self.capacity
        &&& self.count <= self.capacity
    }

    /// Creates an empty memory with `capacity` slots; a capacity of zero is
    /// rejected.
    pub fn new(capacity: usize) -> (r: Result<PairRing, SolverError>)
        ensures
            capacity == 0 <==> r == Err::<PairRing, SolverError>(SolverError::BadParameter),
            capacity > 0 <==> r is Ok,
            r matches Ok(ring) ==> ring.inv() && ring.capacity_spec() == capacity
                && ring.slots() == Seq::<int>::empty() && !ring.primed_spec(),
    {
        if capacity == 0 {
            return Err(SolverError::BadParameter);
        }
        let ring = PairRing { capacity, start: 0, count: 0, primed: false };
        assert(ring.slots() =~= Seq::<int>::empty());
        Ok(ring)
    }

    /// Number of slots.
    pub fn capacity(&self) -> (r: usize)
        ensures
            r == self.capacity_spec(),
    {
        self.capacity
    }

    /// Number of pairs currently held.
    pub fn len(&self) -> (r: usize)
        requires
            self.inv(),
        ensures
            r == self.slots().len(),
    {
        self.count
    }

    /// Whether every slot holds a pair.
    pub fn is_full(&self) -> (r: bool)
        requires
            self.inv(),
        ensures
            r == (self.slots().len() == self.capacity_spec()),
    {
        self.count == self.capacity
    }

    /// Physical slot of the `i`-th pair, counted from the oldest (`i == 0`)
    /// to the newest (`i == len() - 1`).
    pub fn slot(&self, i: usize) -> (r: usize)
        requires
            self.inv(),
            i < self.slots().len(),
        ensures
            r == self.slots()[i as int],
            r < self.capacity_spec(),
    {
        if i < self.capacity - self.start {
            self.start + i
        } else {
            i - (self.capacity - self.start)
        }
    }

    /// Records a new pair and returns the slot it is to be written to: the
    /// first free slot while there is one, otherwise the slot of the oldest
    /// pair, which is thereby forgotten.
    pub fn push(&mut self) -> (slot: usize)
        requires
            old(self).inv(),
        ensures
            final(self).inv(),
            final(self).capacity_spec() == old(self).capacity_spec(),
            final(self).primed_spec() == old(self).primed_spec(),
            slot < old(self).capacity_spec(),
            old(self).slots().len() < old(self).capacity_spec() ==> {
                &&& !old(self).slots().contains(slot as int)
                &&& final(self).slots() == old(self).slots().push(slot as int)
            },
            old(self).slots().len() == old(self).capacity_spec() ==> {
                &&& slot == old(self).slots()[0]
                &&& final(self).slots() == old(self).slots().drop_first().push(slot as int)
            },
    {
        let ghost pre = *self;
        if self.count < self.capacity {
            let slot = if self.count < self.capacity - self.start {
                self.start + self.count
            } else {
                self.count - (self.capacity - self.start)
            };
            self.count = self.count + 1;
            assert(self.slots() =~= pre.slots().push(slot as int));
            proof {
                pre.lemma_slots_distinct();
                self.lemma_slots_distinct();
                if pre.slots().contains(slot as int) {
                    let j = choose|j: int| 0 <= j < pre.slots().len() && pre.slots()[j] == slot;
                    assert(self.slots()[j] == self.slots()[pre.count as int]);
                }
            }
            slot
        } else {
            let slot = self.start;
            self.start = if self.start + 1 < self.capacity {
                self.start + 1
            } else {
                0
            };
            assert(self.slots() =~= pre.slots().drop_first().push(slot as int));
            slot
        }
    }

    /// Notes that an iterate and its residual have been seen. Returns whether
    /// one had been seen before, that is, whether a correction pair can be
    /// formed from the difference; the first observation only primes the
    /// memory. The pairs held are not changed.
    pub fn observe(&mut self) -> (can_form_pair: bool)
        requires
            old(self).inv(),
        ensures
            can_form_pair == old(self).primed_spec(),
            final(self).primed_spec(),
            final(self).inv(),
            final(self).capacity_spec() == old(self).capacity_spec(),
            final(self).slots() == old(self).slots(),
    {
        let can_form_pair = self.primed;
        self.primed = true;
        can_form_pair
    }

    /// Forgets every pair; the capacity is kept.
    pub fn reset(&mut self)
        requires
            old(self).inv(),
        ensures
            final(self).inv(),
            final(self).capacity_spec() == old(self).capacity_spec(),
            final(self).slots() == Seq::<int>::empty(),
            !final(self).primed_spec(),
    {
        self.start = 0;
        self.count = 0;
        self.primed = false;
        assert(self.slots() =~= Seq::<int>::empty());
    }

    /// Every pair held occupies a slot of its own, within the capacity.
    pub proof fn lemma_slots_distinct(&self)
        requires
            self.inv(),
        ensures
            self.slots().len() <= self.capacity_spec(),
            forall|i: int|
                0 <= i < self.slots().len() ==> 0 <= #[trigger] self.slots()[i] < self.capacity_spec(),
            forall|i: int, j: int|
                0 <= i < self.slots().len() && 0 <= j < self.slots().len() && i != j
                    ==> self.slots()[i] != self.slots()[j],
    {
    }
}

} // verus!
