//! The network engine's decision logic.  It owns the send and receive
//! memory-region pools, the monotonic work-request counter, the map from
//! work-request id to session id, and the set of connected sessions.  The
//! hardware itself is driven outside the crate: `send_to` hands back post
//! descriptors naming which region to post under which work-request id,
//! and the completion poller feeds completions back in.
use std::collections::BTreeMap;
use std::collections::BTreeSet;
use vstd::prelude::*;

use crate::errors::RpcError;
use crate::pool::MrPool;

verus! {

/// Default number of regions pre-registered per pool.
pub const DEFAULT_POOL_ENTRIES: usize = 1024;

/// A receive to post: region `mr_index` becomes the landing slot for the
/// next inbound frame, tagged `wr_id`.
#[derive(Debug)]
pub struct RecvPost {
    pub wr_id: u64,
    pub mr_index: u32,
}

/// A send to post: `frame` is to be copied into region `mr_index` and
/// posted under `wr_id`.
#[derive(Debug)]
pub struct SendPost {
    pub wr_id: u64,
    pub mr_index: u32,
    pub frame: Vec<u8>,
}

/// What one successful `send_to` asks the hardware to do: pre-post a
/// receive slot, then post the frame as a send.
#[derive(Debug)]
pub struct PostPair {
    pub recv: RecvPost,
    pub send: SendPost,
}

/// Opcode of a drained work completion.
#[derive(Debug, Clone, Copy, PartialEq, Eq, Structural)]
pub enum CompletionOpcode {
    /// A posted send finished; its region is reusable.
    Send,
    /// A posted receive landed an inbound frame.
    Recv,
    /// Any other opcode; reported, never fatal.
    Other,
}

/// The engine: bookkeeping for one process's RDMA data plane.
#[derive(Debug)]
pub struct RpcNetworkCore {
    mr_size: usize,
    wr_cnt: u64,
    sessions: BTreeSet<u32>,
    wrid_map: BTreeMap<u64, u32>,
    smr_pool: MrPool,
    rmr_pool: MrPool,
}

impl RpcNetworkCore {
    /// Frame size in bytes; every region holds exactly one frame.
    pub closed spec fn spec_mr_size(self) -> int {
        self.mr_size as int
    }

    /// Next work-request id to hand out.
    pub closed spec fn spec_wr_cnt(self) -> u64 {
        self.wr_cnt
    }

    /// The sessions with an established queue pair.
    pub closed spec fn spec_sessions(self) -> Set<u32> {
        self.sessions@
    }

    /// Which session each posted work-request id belongs to.
    pub closed spec fn wrid_sessions(self) -> Map<u64, u32> {
        self.wrid_map@
    }

    /// The send-region pool.
    pub closed spec fn smr(self) -> MrPool {
        self.smr_pool
    }

    /// The receive-region pool.
    pub closed spec fn rmr(self) -> MrPool {
        self.rmr_pool
    }

    /// Engine invariant: both pools are well formed and no bookkeeping
    /// entry names a work-request id the counter has not handed out yet.
    pub open spec fn wf(self) -> bool {
        &&& self.spec_mr_size() >= 3
        &&& self.spec_wr_cnt() >= 1
        &&& self.smr().wf()
        &&& self.rmr().wf()
        &&& self.smr().spec_capacity() <= u32::MAX
        &&& self.rmr().spec_capacity() <= u32::MAX
        &&& forall|w: u64| #[trigger] self.smr().occ().contains_key(w) ==> w < self.spec_wr_cnt()
        &&& forall|w: u64| #[trigger] self.rmr().occ().contains_key(w) ==> w < self.spec_wr_cnt()
        &&& forall|w: u64| #[trigger]
            self.wrid_sessions().contains_key(w) ==> w < self.spec_wr_cnt()
    }

    /// The invariant survives any step that keeps the pools well formed,
    /// never rebinds an id the counter has not reached, and never moves
    /// the counter backwards.
    proof fn lemma_wf_preserved(pre: RpcNetworkCore, post: RpcNetworkCore)
        requires
            pre.wf(),
            post.spec_mr_size() == pre.spec_mr_size(),
            post.spec_wr_cnt() >= pre.spec_wr_cnt(),
            post.smr().wf(),
            post.rmr().wf(),
            post.smr().spec_capacity() == pre.smr().spec_capacity(),
            post.rmr().spec_capacity() == pre.rmr().spec_capacity(),
            forall|w: u64| #[trigger]
                post.smr().occ().contains_key(w) ==> pre.smr().occ().contains_key(w),
            forall|w: u64| #[trigger]
                post.rmr().occ().contains_key(w) ==> pre.rmr().occ().contains_key(w),
            forall|w: u64| #[trigger]
                post.wrid_sessions().contains_key(w) ==> pre.wrid_sessions().contains_key(w),
        ensures
            post.wf(),
    {
    }

    /// An engine with vacant pools of `entries` regions each and the
    /// work-request counter at its start value.
    pub fn new_with_entries(mr_size: usize, entries: usize) -> (r: RpcNetworkCore)
        requires
            mr_size >= 3,
            entries <= u32::MAX,
        ensures
            r.wf(),
            r.spec_mr_size() == mr_size,
            r.spec_wr_cnt() == 1,
            r.spec_sessions() == Set::<u32>::empty(),
            r.wrid_sessions() == Map::<u64, u32>::empty(),
            r.smr().occ() == Map::<u64, u32>::empty(),
            r.rmr().occ() == Map::<u64, u32>::empty(),
            r.smr().occ_inv() == Map::<u32, u64>::empty(),
            r.rmr().occ_inv() == Map::<u32, u64>::empty(),
            r.smr().spec_capacity() == entries,
            r.rmr().spec_capacity() == entries,
    {
        RpcNetworkCore {
            mr_size,
            wr_cnt: 1,
            sessions: BTreeSet::new(),
            wrid_map: BTreeMap::new(),
            smr_pool: MrPool::new(entries),
            rmr_pool: MrPool::new(entries),
        }
    }

    /// The engine as one process owns it: default pool sizing.
    pub fn new_singleton(mr_size: usize) -> (r: RpcNetworkCore)
        requires
            mr_size >= 3,
        ensures
            r.wf(),
            r.spec_mr_size() == mr_size,
            r.spec_wr_cnt() == 1,
            r.spec_sessions() == Set::<u32>::empty(),
            r.wrid_sessions() == Map::<u64, u32>::empty(),
            r.smr().occ() == Map::<u64, u32>::empty(),
            r.rmr().occ() == Map::<u64, u32>::empty(),
            r.smr().spec_capacity() == DEFAULT_POOL_ENTRIES,
            r.rmr().spec_capacity() == DEFAULT_POOL_ENTRIES,
    {
        Self::new_with_entries(mr_size, DEFAULT_POOL_ENTRIES)
    }

    /// Frame size in bytes.
    pub fn mr_size(&self) -> (r: usize)
        ensures
            r == self.spec_mr_size(),
    {
        self.mr_size
    }

    /// Hands out the next work-request id.  Ids are assigned at post time
    /// and strictly increase across the process lifetime.
    pub fn get_wr_id(&mut self) -> (r: u64)
        requires
            old(self).spec_wr_cnt() < u64::MAX,
        ensures
            r == old(self).spec_wr_cnt(),
            final(self).spec_wr_cnt() == old(self).spec_wr_cnt() + 1,
            final(self).spec_mr_size() == old(self).spec_mr_size(),
            final(self).spec_sessions() == old(self).spec_sessions(),
            final(self).wrid_sessions() == old(self).wrid_sessions(),
            final(self).smr() == old(self).smr(),
            final(self).rmr() == old(self).rmr(),
            old(self).wf() ==> final(self).wf(),
    {
        let wr_cnt = self.wr_cnt;
        self.wr_cnt = self.wr_cnt + 1;
        wr_cnt
    }

    /// Work-request id monotonicity: of two ids handed out in order, the
    /// later is strictly greater, whatever the engine did in between.
    pub proof fn lemma_wrid_monotonic(
        s0: RpcNetworkCore,
        s1: RpcNetworkCore,
        s2: RpcNetworkCore,
        w1: u64,
        w2: u64,
    )
        requires
            w1 == s0.spec_wr_cnt(),
            s1.spec_wr_cnt() > s0.spec_wr_cnt(),
            s2.spec_wr_cnt() >= s1.spec_wr_cnt(),
            w2 == s2.spec_wr_cnt(),
        ensures
            w2 > w1,
    {
    }

    /// Registers `session_id` as connected.  The endpoint exchange and the
    /// queue-pair state transition happen outside the crate; this is the
    /// bookkeeping the engine keeps of them.
    pub fn connect_to(&mut self, session_id: u32, _peer_uri: &str) -> (r: bool)
        ensures
            r == true,
            final(self).spec_sessions() == old(self).spec_sessions().insert(session_id),
            final(self).spec_mr_size() == old(self).spec_mr_size(),
            final(self).spec_wr_cnt() == old(self).spec_wr_cnt(),
            final(self).wrid_sessions() == old(self).wrid_sessions(),
            final(self).smr() == old(self).smr(),
            final(self).rmr() == old(self).rmr(),
            old(self).wf() ==> final(self).wf(),
    {
        self.sessions.insert(session_id);
        proof {
            if old(self).wf() {
                Self::lemma_wf_preserved(*old(self), *self);
            }
        }
        true
    }

    /// Connection teardown is deliberately left without effect: the
    /// underlying reliable transport scopes a queue pair to its session,
    /// and no teardown semantics are defined for the data plane.
    pub fn disconnect(&mut self, _conn_id: u32)
        ensures
            *final(self) == *old(self),
    {
    }

    /// Takes a fresh work-request id, binds a vacant receive region to it
    /// as a landing slot, binds a second fresh id to a vacant send region,
    /// records both ids against the session, and hands back the two posts
    /// to perform.  Fails with `UnknownPeer` when no session is
    /// registered, and with `PoolExhausted`, leaving the pools and the id
    /// map as they were, when a pool has no vacant region.
    pub fn send_to(&mut self, session_id: u32, bin: &Vec<u8>) -> (r: Result<PostPair, RpcError>)
        requires
            old(self).wf(),
            old(self).spec_wr_cnt() + 2 <= u64::MAX,
            bin@.len() == old(self).spec_mr_size(),
        ensures
            final(self).wf(),
            final(self).spec_mr_size() == old(self).spec_mr_size(),
            final(self).spec_sessions() == old(self).spec_sessions(),
            final(self).rmr().spec_capacity() == old(self).rmr().spec_capacity(),
            final(self).smr().spec_capacity() == old(self).smr().spec_capacity(),
            old(self).spec_wr_cnt() <= final(self).spec_wr_cnt() <= old(self).spec_wr_cnt() + 2,
            match r {
                Ok(p) => {
                    &&& old(self).spec_sessions().contains(session_id)
                    &&& p.recv.wr_id == old(self).spec_wr_cnt()
                    &&& p.send.wr_id == old(self).spec_wr_cnt() + 1
                    &&& final(self).spec_wr_cnt() == old(self).spec_wr_cnt() + 2
                    &&& p.send.frame@ == bin@
                    &&& p.recv.mr_index < old(self).rmr().spec_capacity()
                    &&& p.send.mr_index < old(self).smr().spec_capacity()
                    &&& !old(self).rmr().occ_inv().contains_key(p.recv.mr_index)
                    &&& !old(self).smr().occ_inv().contains_key(p.send.mr_index)
                    &&& final(self).rmr().occ() == old(self).rmr().occ().insert(
                        p.recv.wr_id,
                        p.recv.mr_index,
                    )
                    &&& final(self).smr().occ() == old(self).smr().occ().insert(
                        p.send.wr_id,
                        p.send.mr_index,
                    )
                    &&& final(self).rmr().occ_inv() == old(self).rmr().occ_inv().insert(
                        p.recv.mr_index,
                        p.recv.wr_id,
                    )
                    &&& final(self).smr().occ_inv() == old(self).smr().occ_inv().insert(
                        p.send.mr_index,
                        p.send.wr_id,
                    )
                    &&& final(self).wrid_sessions() == old(self).wrid_sessions().insert(
                        p.recv.wr_id,
                        session_id,
                    ).insert(p.send.wr_id, session_id)
                },
                Err(RpcError::UnknownPeer) => {
                    &&& !old(self).spec_sessions().contains(session_id)
                    &&& *final(self) == *old(self)
                },
                Err(RpcError::PoolExhausted) => {
                    &&& old(self).spec_sessions().contains(session_id)
                    &&& final(self).rmr().occ() == old(self).rmr().occ()
                    &&& final(self).smr().occ() == old(self).smr().occ()
                    &&& final(self).rmr().occ_inv() == old(self).rmr().occ_inv()
                    &&& final(self).smr().occ_inv() == old(self).smr().occ_inv()
                    &&& final(self).wrid_sessions() == old(self).wrid_sessions()
                    &&& {
                        ||| forall|j: u32|
                            j < old(self).rmr().spec_capacity() ==> old(
                                self,
                            ).rmr().occ_inv().contains_key(j)
                        ||| forall|j: u32|
                            j < old(self).smr().spec_capacity() ==> old(
                                self,
                            ).smr().occ_inv().contains_key(j)
                    }
                },
                Err(_) => false,
            },
    {
        if !self.sessions.contains(&session_id) {
            return Err(RpcError::UnknownPeer);
        }
        let recv_wr_id = self.get_wr_id();
        let recv_index = match self.rmr_pool.acquire(recv_wr_id) {
            Some(i) => i,
            None => {
                return Err(RpcError::PoolExhausted);
            },
        };
        self.wrid_map.insert(recv_wr_id, session_id);
        let send_wr_id = self.get_wr_id();
        let send_index = match self.smr_pool.acquire(send_wr_id) {
            Some(i) => i,
            None => {
                self.rmr_pool.release(recv_wr_id);
                self.wrid_map.remove(&recv_wr_id);
                return Err(RpcError::PoolExhausted);
            },
        };
        self.wrid_map.insert(send_wr_id, session_id);
        let frame = crate::msg::clone_bytes(bin);
        Ok(
            PostPair {
                recv: RecvPost { wr_id: recv_wr_id, mr_index: recv_index },
                send: SendPost { wr_id: send_wr_id, mr_index: send_index, frame },
            },
        )
    }

    /// A receive completion landed: finds which session the work-request
    /// id was posted for and hands the frame bytes back with it.  Fails
    /// with `CompletionError` exactly when no posted work request carries
    /// the id.  The region stays bound until it is released.
    pub fn on_recv(&self, wr_id: u64, region: &[u8]) -> (r: Result<(u32, Vec<u8>), RpcError>)
        ensures
            match r {
                Ok((session_id, frame)) => {
                    &&& self.wrid_sessions().contains_key(wr_id)
                    &&& self.wrid_sessions()[wr_id] == session_id
                    &&& frame@ == region@
                },
                Err(e) => {
                    &&& e == RpcError::CompletionError
                    &&& !self.wrid_sessions().contains_key(wr_id)
                },
            },
    {
        let session_id = match self.wrid_map.get(&wr_id) {
            Some(s) => *s,
            None => {
                return Err(RpcError::CompletionError);
            },
        };
        let frame = vstd::slice::slice_to_vec(region);
        Ok((session_id, frame))
    }

    /// A send completion: the send region bound to the id, if any.
    pub fn on_send(&self, wr_id: u64) -> (r: Option<u32>)
        ensures
            match r {
                Some(i) => self.smr().occ().contains_key(wr_id) && self.smr().occ()[wr_id] == i,
                None => !self.smr().occ().contains_key(wr_id),
            },
    {
        self.get_smr_index_by_wr_id(wr_id)
    }

    /// Releases the send region bound to `wr_id`; idempotent for ids that
    /// hold no region.
    pub fn release_occupied_smr(&mut self, wr_id: u64)
        requires
            old(self).wf(),
        ensures
            final(self).wf(),
            final(self).spec_mr_size() == old(self).spec_mr_size(),
            final(self).spec_wr_cnt() == old(self).spec_wr_cnt(),
            final(self).spec_sessions() == old(self).spec_sessions(),
            final(self).wrid_sessions() == old(self).wrid_sessions(),
            final(self).rmr() == old(self).rmr(),
            if old(self).smr().occ().contains_key(wr_id) {
                &&& final(self).smr().occ() == old(self).smr().occ().remove(wr_id)
                &&& final(self).smr().occ_inv() == old(self).smr().occ_inv().remove(
                    old(self).smr().occ()[wr_id],
                )
            } else {
                final(self).smr() == old(self).smr()
            },
    {
        self.smr_pool.release(wr_id);
        proof {
            Self::lemma_wf_preserved(*old(self), *self);
        }
    }

    /// Releases the receive region bound to `wr_id`; idempotent for ids
    /// that hold no region.
    pub fn release_occupied_rmr(&mut self, wr_id: u64)
        requires
            old(self).wf(),
        ensures
            final(self).wf(),
            final(self).spec_mr_size() == old(self).spec_mr_size(),
            final(self).spec_wr_cnt() == old(self).spec_wr_cnt(),
            final(self).spec_sessions() == old(self).spec_sessions(),
            final(self).wrid_sessions() == old(self).wrid_sessions(),
            final(self).smr() == old(self).smr(),
            if old(self).rmr().occ().contains_key(wr_id) {
                &&& final(self).rmr().occ() == old(self).rmr().occ().remove(wr_id)
                &&& final(self).rmr().occ_inv() == old(self).rmr().occ_inv().remove(
                    old(self).rmr().occ()[wr_id],
                )
            } else {
                final(self).rmr() == old(self).rmr()
            },
    {
        self.rmr_pool.release(wr_id);
        proof {
            Self::lemma_wf_preserved(*old(self), *self);
        }
    }

    /// Pure lookup: the send region index bound to `wr_id`.
    pub fn get_smr_index_by_wr_id(&self, wr_id: u64) -> (r: Option<u32>)
        ensures
            match r {
                Some(i) => self.smr().occ().contains_key(wr_id) && self.smr().occ()[wr_id] == i,
                None => !self.smr().occ().contains_key(wr_id),
            },
    {
        self.smr_pool.region_of(wr_id)
    }

    /// Pure lookup: the receive region index bound to `wr_id`.
    pub fn get_rmr_index_by_wr_id(&self, wr_id: u64) -> (r: Option<u32>)
        ensures
            match r {
                Some(i) => self.rmr().occ().contains_key(wr_id) && self.rmr().occ()[wr_id] == i,
                None => !self.rmr().occ().contains_key(wr_id),
            },
    {
        self.rmr_pool.region_of(wr_id)
    }

    /// Pure lookup: the session a posted work-request id belongs to.
    pub fn get_session_id_by_wr_id(&self, wr_id: u64) -> (r: Option<u32>)
        ensures
            match r {
                Some(s) => self.wrid_sessions().contains_key(wr_id) && self.wrid_sessions()[wr_id]
                    == s,
                None => !self.wrid_sessions().contains_key(wr_id),
            },
    {
        match self.wrid_map.get(&wr_id) {
            Some(s) => Some(*s),
            None => None,
        }
    }
}

} // verus!
