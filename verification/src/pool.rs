//! Bookkeeping for one fixed-capacity pool of pre-registered memory
//! regions.  A region is either vacant or occupied by exactly one
//! work-request id; the forward map (wrid to region index) and the inverse
//! map (region index to wrid) stay mutual inverses at all times.
use std::collections::BTreeMap;
use vstd::prelude::*;

verus! {

/// One pool of `capacity` regions, each addressed by its index.
#[derive(Debug)]
pub struct MrPool {
    capacity: usize,
    fwd: BTreeMap<u64, u32>,
    bwd: BTreeMap<u32, u64>,
}

impl MrPool {
    /// Number of regions in the pool; fixed at construction.
    pub closed spec fn spec_capacity(self) -> int {
        self.capacity as int
    }

    /// The forward map: which region index each work-request id occupies.
    pub closed spec fn occ(self) -> Map<u64, u32> {
        self.fwd@
    }

    /// The inverse map: which work-request id occupies each region index.
    pub closed spec fn occ_inv(self) -> Map<u32, u64> {
        self.bwd@
    }

    /// Pool exclusivity: every bound index is below the capacity, and the
    /// two maps are mutual inverses, so each region index is occupied by
    /// at most one work-request id and each id occupies at most one index.
    pub open spec fn wf(self) -> bool {
        &&& self.occ().dom().finite()
        &&& self.occ_inv().dom().finite()
        &&& forall|w: u64| #[trigger]
            self.occ().contains_key(w) ==> {
                &&& self.occ()[w] < self.spec_capacity()
                &&& self.occ_inv().contains_key(self.occ()[w])
                &&& self.occ_inv()[self.occ()[w]] == w
            }
        &&& forall|i: u32| #[trigger]
            self.occ_inv().contains_key(i) ==> {
                &&& i < self.spec_capacity()
                &&& self.occ().contains_key(self.occ_inv()[i])
                &&& self.occ()[self.occ_inv()[i]] == i
            }
    }

    /// A pool with `capacity` regions, all vacant.
    pub fn new(capacity: usize) -> (r: MrPool)
        ensures
            r.wf(),
            r.spec_capacity() == capacity,
            r.occ() == Map::<u64, u32>::empty(),
            r.occ_inv() == Map::<u32, u64>::empty(),
    {
        MrPool { capacity, fwd: BTreeMap::new(), bwd: BTreeMap::new() }
    }

    /// Number of regions in the pool.
    pub fn capacity(&self) -> (r: usize)
        ensures
            r == self.spec_capacity(),
    {
        self.capacity
    }

    /// Scans region indices in order and binds `wr_id` to the first vacant
    /// one; `None` exactly when every region is occupied.  The id must be
    /// fresh: a monotonic work-request counter guarantees that upstream.
    pub fn acquire(&mut self, wr_id: u64) -> (r: Option<u32>)
        requires
            old(self).wf(),
            !old(self).occ().contains_key(wr_id),
            old(self).spec_capacity() <= u32::MAX,
        ensures
            final(self).wf(),
            final(self).spec_capacity() == old(self).spec_capacity(),
            match r {
                Some(i) => {
                    &&& i < old(self).spec_capacity()
                    &&& !old(self).occ_inv().contains_key(i)
                    &&& forall|j: u32| j < i ==> old(self).occ_inv().contains_key(j)
                    &&& final(self).occ() == old(self).occ().insert(wr_id, i)
                    &&& final(self).occ_inv() == old(self).occ_inv().insert(i, wr_id)
                },
                None => {
                    &&& *final(self) == *old(self)
                    &&& forall|j: u32|
                        j < old(self).spec_capacity() ==> old(self).occ_inv().contains_key(j)
                },
            },
    {
        let mut i: usize = 0;
        while i < self.capacity
            invariant
                *self == *old(self),
                self.wf(),
                !self.occ().contains_key(wr_id),
                i <= self.capacity,
                self.spec_capacity() <= u32::MAX,
                forall|j: u32| j < i ==> self.occ_inv().contains_key(j),
            decreases self.capacity - i,
        {
            let mr_index = i as u32;
            if !self.bwd.contains_key(&mr_index) {
                self.fwd.insert(wr_id, mr_index);
                self.bwd.insert(mr_index, wr_id);
                proof {
                    let pre = *old(self);
                    assert forall|w: u64| #[trigger] self.occ().contains_key(w) implies {
                        &&& self.occ()[w] < self.spec_capacity()
                        &&& self.occ_inv().contains_key(self.occ()[w])
                        &&& self.occ_inv()[self.occ()[w]] == w
                    } by {
                        if w != wr_id {
                            assert(pre.occ().contains_key(w));
                            assert(pre.occ()[w] != mr_index);
                        }
                    }
                    assert forall|j: u32| #[trigger] self.occ_inv().contains_key(j) implies {
                        &&& j < self.spec_capacity()
                        &&& self.occ().contains_key(self.occ_inv()[j])
                        &&& self.occ()[self.occ_inv()[j]] == j
                    } by {
                        if j != mr_index {
                            assert(pre.occ_inv().contains_key(j));
                            assert(pre.occ_inv()[j] != wr_id);
                        }
                    }
                }
                return Some(mr_index);
            }
            i = i + 1;
        }
        None
    }

    /// Unbinds `wr_id` from its region, removing both directions;
    /// idempotent for unknown ids.
    pub fn release(&mut self, wr_id: u64)
        requires
            old(self).wf(),
        ensures
            final(self).wf(),
            final(self).spec_capacity() == old(self).spec_capacity(),
            if old(self).occ().contains_key(wr_id) {
                &&& final(self).occ() == old(self).occ().remove(wr_id)
                &&& final(self).occ_inv() == old(self).occ_inv().remove(old(self).occ()[wr_id])
            } else {
                *final(self) == *old(self)
            },
    {
        if self.fwd.contains_key(&wr_id) {
            let mr_index = match self.fwd.remove(&wr_id) {
                Some(i) => i,
                None => 0,
            };
            self.bwd.remove(&mr_index);
            proof {
                let pre = *old(self);
                assert(mr_index == pre.occ()[wr_id]);
                assert forall|w: u64| #[trigger] self.occ().contains_key(w) implies {
                    &&& self.occ()[w] < self.spec_capacity()
                    &&& self.occ_inv().contains_key(self.occ()[w])
                    &&& self.occ_inv()[self.occ()[w]] == w
                } by {
                    assert(pre.occ().contains_key(w) && w != wr_id);
                    assert(pre.occ_inv()[pre.occ()[w]] == w);
                    assert(pre.occ_inv()[mr_index] == wr_id);
                }
                assert forall|j: u32| #[trigger] self.occ_inv().contains_key(j) implies {
                    &&& j < self.spec_capacity()
                    &&& self.occ().contains_key(self.occ_inv()[j])
                    &&& self.occ()[self.occ_inv()[j]] == j
                } by {
                    assert(pre.occ_inv().contains_key(j) && j != mr_index);
                    assert(pre.occ()[pre.occ_inv()[j]] == j);
                }
            }
        }
    }

    /// Pure lookup: the region index `wr_id` occupies, if any.
    pub fn region_of(&self, wr_id: u64) -> (r: Option<u32>)
        ensures
            match r {
                Some(i) => self.occ().contains_key(wr_id) && self.occ()[wr_id] == i,
                None => !self.occ().contains_key(wr_id),
            },
    {
        match self.fwd.get(&wr_id) {
            Some(i) => Some(*i),
            None => None,
        }
    }

    /// The set of region indices below `cap` has exactly `cap` elements.
    proof fn lemma_u32_range(cap: u32)
        ensures
            Set::new(|j: u32| j < cap).finite(),
            Set::new(|j: u32| j < cap).len() == cap,
        decreases cap,
    {
        if cap == 0 {
            assert(Set::new(|j: u32| j < cap) =~= Set::<u32>::empty());
        } else {
            let prev = (cap - 1) as u32;
            Self::lemma_u32_range(prev);
            assert(Set::new(|j: u32| j < cap) =~= Set::new(|j: u32| j < prev).insert(prev));
        }
    }

    /// A pool in which every region index is bound holds exactly
    /// `capacity` bindings.
    pub proof fn lemma_full_occupancy(p: MrPool)
        requires
            p.wf(),
            p.spec_capacity() <= u32::MAX,
            forall|j: u32| j < p.spec_capacity() ==> p.occ_inv().contains_key(j),
        ensures
            p.occ_inv().dom().len() == p.spec_capacity(),
    {
        let cap = p.spec_capacity() as u32;
        Self::lemma_u32_range(cap);
        assert(p.occ_inv().dom() =~= Set::new(|j: u32| j < cap));
    }

    /// Pool exclusivity: in a well-formed pool, no region index is held
    /// by two different work-request ids.
    pub proof fn lemma_exclusive(p: MrPool, w1: u64, w2: u64)
        requires
            p.wf(),
            p.occ().contains_key(w1),
            p.occ().contains_key(w2),
            p.occ()[w1] == p.occ()[w2],
        ensures
            w1 == w2,
    {
    }

    /// Pool conservation: acquiring a fresh id and then releasing it puts
    /// both maps back exactly as they were; nothing is leaked.
    pub proof fn lemma_acquire_release_conserves(
        pre: MrPool,
        mid: MrPool,
        post: MrPool,
        wr_id: u64,
        i: u32,
    )
        requires
            pre.wf(),
            !pre.occ().contains_key(wr_id),
            !pre.occ_inv().contains_key(i),
            mid.occ() == pre.occ().insert(wr_id, i),
            mid.occ_inv() == pre.occ_inv().insert(i, wr_id),
            mid.occ().contains_key(wr_id),
            post.occ() == mid.occ().remove(wr_id),
            post.occ_inv() == mid.occ_inv().remove(mid.occ()[wr_id]),
        ensures
            post.occ() == pre.occ(),
            post.occ_inv() == pre.occ_inv(),
    {
        assert(post.occ() =~= pre.occ());
        assert(post.occ_inv() =~= pre.occ_inv());
    }
}

} // verus!
