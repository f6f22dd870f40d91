//! The dispatcher: owner of the four message queues, the session and peer
//! maps, and the network engine.  The run loop drains each queue once per
//! invocation, processing exactly the items present at entry.
use std::collections::BTreeMap;
use std::collections::VecDeque;
use vstd::prelude::*;

use crate::codec::{msg_encodable, spec_encode_msg};
use crate::errors::RpcError;
use crate::frame::{frame_ok, spec_frame, spec_unframe};
use crate::msg::{MsgHandleModel, OnceMsgModel, RpcMsgHandle, RpcMsgType};
use crate::network::{PostPair, RpcNetworkCore};
use crate::pool::MrPool;
use crate::session::{RpcSession, RpcSessionStatus};

verus! {

/// The models of a sequence of queued message handles.
pub open spec fn hviews(s: Seq<RpcMsgHandle>) -> Seq<MsgHandleModel> {
    s.map_values(|h: RpcMsgHandle| h@)
}

/// Whether one queued handle can be sent at all: its message encodes,
/// the encoding fits a frame, and its peer id maps to a registered
/// session.
pub open spec fn send_ok(
    m: MsgHandleModel,
    peers: Map<u32, u32>,
    sessions: Set<u32>,
    mr_size: int,
) -> bool {
    &&& msg_encodable(m.msg)
    &&& frame_ok(spec_encode_msg(m.msg).len() as int, mr_size)
    &&& peers.contains_key(m.peer_id)
    &&& sessions.contains(peers[m.peer_id])
}

/// The sendable items of a queue, in order, each with the session id its
/// peer maps to; the rest are dropped with an error.
pub open spec fn send_eligible(
    msgs: Seq<MsgHandleModel>,
    peers: Map<u32, u32>,
    sessions: Set<u32>,
    mr_size: int,
) -> Seq<(u32, OnceMsgModel)>
    decreases msgs.len(),
{
    if msgs.len() == 0 {
        Seq::empty()
    } else {
        let rest = send_eligible(msgs.drop_last(), peers, sessions, mr_size);
        let m = msgs.last();
        if send_ok(m, peers, sessions, mr_size) {
            rest.push((peers[m.peer_id], m.msg))
        } else {
            rest
        }
    }
}

/// The handles of `msgs` whose request tag is `t`, in order: what the
/// handler registered for `t` receives when `msgs` are drained.
pub open spec fn routed_to(msgs: Seq<MsgHandleModel>, t: u8) -> Seq<MsgHandleModel>
    decreases msgs.len(),
{
    if msgs.len() == 0 {
        Seq::empty()
    } else {
        let rest = routed_to(msgs.drop_last(), t);
        if msgs.last().msg.req_type == t {
            rest.push(msgs.last())
        } else {
            rest
        }
    }
}

/// Unfolding `routed_to` one message at a time, from the back.
pub proof fn lemma_routed_to_push(s: Seq<MsgHandleModel>, m: MsgHandleModel, t: u8)
    ensures
        routed_to(s.push(m), t) == if m.msg.req_type == t {
            routed_to(s, t).push(m)
        } else {
            routed_to(s, t)
        },
{
    assert(s.push(m).drop_last() =~= s);
    assert(s.push(m).last() == m);
}

/// How many of `msgs` carry a request tag with no handler in `reg`: the
/// messages a drain drops with `UnknownTag`.
pub open spec fn unrouted_count<CB: crate::srpc_core::CallBack>(
    msgs: Seq<MsgHandleModel>,
    reg: crate::srpc_core::CbRegistry<CB>,
) -> nat
    decreases msgs.len(),
{
    if msgs.len() == 0 {
        0
    } else {
        unrouted_count(msgs.drop_last(), reg) + if reg.slot(msgs.last().msg.req_type) is None {
            1nat
        } else {
            0nat
        }
    }
}

/// Unfolding `unrouted_count` one message at a time, from the back.
pub proof fn lemma_unrouted_count_push<CB: crate::srpc_core::CallBack>(
    s: Seq<MsgHandleModel>,
    m: MsgHandleModel,
    reg: crate::srpc_core::CbRegistry<CB>,
)
    ensures
        unrouted_count(s.push(m), reg) == unrouted_count(s, reg) + if reg.slot(
            m.msg.req_type,
        ) is None {
            1nat
        } else {
            0nat
        },
{
    assert(s.push(m).drop_last() =~= s);
    assert(s.push(m).last() == m);
}

/// Unfolding `send_eligible` one message at a time, from the back.
pub proof fn lemma_send_eligible_push(
    s: Seq<MsgHandleModel>,
    m: MsgHandleModel,
    peers: Map<u32, u32>,
    sessions: Set<u32>,
    mr_size: int,
)
    ensures
        send_eligible(s.push(m), peers, sessions, mr_size) == if send_ok(
            m,
            peers,
            sessions,
            mr_size,
        ) {
            send_eligible(s, peers, sessions, mr_size).push((peers[m.peer_id], m.msg))
        } else {
            send_eligible(s, peers, sessions, mr_size)
        },
{
    assert(s.push(m).drop_last() =~= s);
    assert(s.push(m).last() == m);
}

/// Popping the front of a queue consumes exactly the next model element.
pub proof fn lemma_hviews_pop(
    qpre: Seq<RpcMsgHandle>,
    qpost: Seq<RpcMsgHandle>,
    q0: Seq<MsgHandleModel>,
    k: int,
    len: int,
)
    requires
        0 <= k < len,
        len == q0.len(),
        hviews(qpre) == q0.subrange(k, len),
        qpost == qpre.subrange(1, qpre.len() as int),
    ensures
        hviews(qpost) == q0.subrange(k + 1, len),
        qpre.len() == len - k,
        qpre[0]@ == q0[k],
{
    assert(hviews(qpre).len() == qpre.len());
    assert(qpre[0]@ == hviews(qpre)[0]);
    assert forall|i: int| 0 <= i < qpost.len() implies hviews(qpost)[i] == q0.subrange(
        k + 1,
        len,
    )[i] by {
        assert(hviews(qpost)[i] == qpost[i]@);
        assert(qpost[i] == qpre[i + 1]);
        assert(qpre[i + 1]@ == hviews(qpre)[i + 1]);
        assert(hviews(qpre)[i + 1] == q0.subrange(k, len)[i + 1]);
        assert(q0.subrange(k, len)[i + 1] == q0.subrange(k + 1, len)[i]);
    }
    assert(hviews(qpost) =~= q0.subrange(k + 1, len));
}

/// The dispatcher.
#[derive(Debug)]
pub struct RpcDispatcher {
    send_req_queue: VecDeque<RpcMsgHandle>,
    send_resp_queue: VecDeque<RpcMsgHandle>,
    recv_req_queue: VecDeque<RpcMsgHandle>,
    recv_resp_queue: VecDeque<RpcMsgHandle>,
    network: RpcNetworkCore,
    session_map: BTreeMap<u32, RpcSession>,
    peer_map: BTreeMap<u32, u32>,
    session_counter: u32,
}

impl RpcDispatcher {
    /// The send-request queue, oldest first.
    pub closed spec fn send_req(self) -> Seq<MsgHandleModel> {
        hviews(self.send_req_queue@)
    }

    /// The send-response queue, oldest first.
    pub closed spec fn send_resp(self) -> Seq<MsgHandleModel> {
        hviews(self.send_resp_queue@)
    }

    /// The receive-request queue, oldest first.
    pub closed spec fn recv_req(self) -> Seq<MsgHandleModel> {
        hviews(self.recv_req_queue@)
    }

    /// The receive-response queue, oldest first.
    pub closed spec fn recv_resp(self) -> Seq<MsgHandleModel> {
        hviews(self.recv_resp_queue@)
    }

    /// The owned network engine.
    pub closed spec fn spec_network(self) -> RpcNetworkCore {
        self.network
    }

    /// The sessions by session id.
    pub closed spec fn sessions_map(self) -> Map<u32, RpcSession> {
        self.session_map@
    }

    /// Which session id each peer id maps to.
    pub closed spec fn peer_sessions(self) -> Map<u32, u32> {
        self.peer_map@
    }

    /// The next session id to allocate.
    pub closed spec fn spec_session_counter(self) -> u32 {
        self.session_counter
    }

    /// Dispatcher invariant: the engine's own invariant.
    pub open spec fn wf(self) -> bool {
        self.spec_network().wf()
    }

    /// The sendable items of this dispatcher's send-request queue.
    pub open spec fn spec_send_eligible(self) -> Seq<(u32, OnceMsgModel)> {
        send_eligible(
            self.send_req(),
            self.peer_sessions(),
            self.spec_network().spec_sessions(),
            self.spec_network().spec_mr_size(),
        )
    }

    /// A dispatcher with empty queues, no sessions, and a fresh engine
    /// whose frames hold `mr_size` bytes.
    pub fn new_arc(mr_size: usize) -> (r: RpcDispatcher)
        requires
            mr_size >= 3,
        ensures
            r.wf(),
            r.send_req() == Seq::<MsgHandleModel>::empty(),
            r.send_resp() == Seq::<MsgHandleModel>::empty(),
            r.recv_req() == Seq::<MsgHandleModel>::empty(),
            r.recv_resp() == Seq::<MsgHandleModel>::empty(),
            r.sessions_map() == Map::<u32, RpcSession>::empty(),
            r.peer_sessions() == Map::<u32, u32>::empty(),
            r.spec_session_counter() == 0,
            r.spec_network().spec_mr_size() == mr_size,
            r.spec_network().spec_wr_cnt() == 1,
            r.spec_network().spec_sessions() == Set::<u32>::empty(),
            r.spec_network().wrid_sessions() == Map::<u64, u32>::empty(),
            r.spec_network().smr().occ() == Map::<u64, u32>::empty(),
            r.spec_network().rmr().occ() == Map::<u64, u32>::empty(),
            r.spec_network().smr().occ_inv() == Map::<u32, u64>::empty(),
            r.spec_network().rmr().occ_inv() == Map::<u32, u64>::empty(),
            r.spec_network().smr().spec_capacity() == crate::network::DEFAULT_POOL_ENTRIES,
            r.spec_network().rmr().spec_capacity() == crate::network::DEFAULT_POOL_ENTRIES,
    {
        let r = RpcDispatcher {
            send_req_queue: VecDeque::new(),
            send_resp_queue: VecDeque::new(),
            recv_req_queue: VecDeque::new(),
            recv_resp_queue: VecDeque::new(),
            network: RpcNetworkCore::new_singleton(mr_size),
            session_map: BTreeMap::new(),
            peer_map: BTreeMap::new(),
            session_counter: 0,
        };
        proof {
            assert(hviews(Seq::<RpcMsgHandle>::empty()) =~= Seq::<MsgHandleModel>::empty());
        }
        r
    }

    /// Read access to the owned network engine's bookkeeping, for the
    /// driver and its logs.
    pub fn network(&self) -> (r: &RpcNetworkCore)
        ensures
            *r == self.spec_network(),
    {
        &self.network
    }

    /// Replaces the owned network engine.
    pub fn set_network(&mut self, network: RpcNetworkCore)
        ensures
            final(self).spec_network() == network,
            final(self).send_req() == old(self).send_req(),
            final(self).send_resp() == old(self).send_resp(),
            final(self).recv_req() == old(self).recv_req(),
            final(self).recv_resp() == old(self).recv_resp(),
            final(self).sessions_map() == old(self).sessions_map(),
            final(self).peer_sessions() == old(self).peer_sessions(),
            final(self).spec_session_counter() == old(self).spec_session_counter(),
    {
        self.network = network;
    }

    /// Allocates a fresh session id, registers it with the engine, and
    /// records the session in both maps, connected to `peer_id` at
    /// `peer_uri`.  The endpoint exchange itself happens outside the
    /// crate.
    pub fn connect_to(&mut self, peer_id: u32, peer_uri: &str) -> (r: Result<u32, RpcError>)
        requires
            old(self).spec_session_counter() < u32::MAX,
        ensures
            r == Ok::<u32, RpcError>(old(self).spec_session_counter()),
            final(self).spec_session_counter() == old(self).spec_session_counter() + 1,
            final(self).spec_network().spec_sessions() == old(self).spec_network().spec_sessions().insert(old(self).spec_session_counter()),
            final(self).spec_network().spec_mr_size() == old(self).spec_network().spec_mr_size(),
            final(self).spec_network().spec_wr_cnt() == old(self).spec_network().spec_wr_cnt(),
            final(self).spec_network().wrid_sessions() == old(self).spec_network().wrid_sessions(),
            final(self).spec_network().smr() == old(self).spec_network().smr(),
            final(self).spec_network().rmr() == old(self).spec_network().rmr(),
            final(self).peer_sessions() == old(self).peer_sessions().insert(
                peer_id,
                old(self).spec_session_counter(),
            ),
            final(self).sessions_map().dom() == old(self).sessions_map().dom().insert(
                old(self).spec_session_counter(),
            ),
            final(self).sessions_map()[old(self).spec_session_counter()].spec_status()
                == RpcSessionStatus::Connected,
            final(self).sessions_map()[old(self).spec_session_counter()].spec_peer_id() == peer_id,
            final(self).sessions_map()[old(self).spec_session_counter()].spec_peer_uri()
                == peer_uri@,
            forall|s: u32|
                s != old(self).spec_session_counter() && old(self).sessions_map().contains_key(s)
                    ==> final(self).sessions_map()[s] == old(self).sessions_map()[s],
            final(self).send_req() == old(self).send_req(),
            final(self).send_resp() == old(self).send_resp(),
            final(self).recv_req() == old(self).recv_req(),
            final(self).recv_resp() == old(self).recv_resp(),
            old(self).wf() ==> final(self).wf(),
    {
        let session_id = self.session_counter;
        self.session_counter = self.session_counter + 1;
        let connected = self.network.connect_to(session_id, peer_uri);
        let mut session = RpcSession::new(peer_id, peer_uri.to_owned());
        if connected {
            session.set_status(RpcSessionStatus::Connected);
        }
        self.session_map.insert(session_id, session);
        self.peer_map.insert(peer_id, session_id);
        Ok(session_id)
    }

    /// Decodes an inbound frame and enqueues the message on the
    /// receive-request queue.  A frame of the wrong size, a trailer
    /// naming more bytes than the frame has, or a prefix that is not one
    /// encoded message is dropped with `DecodeError`; the session
    /// survives.
    pub fn on_recv_msg(&mut self, _session_id: u32, bin: &[u8]) -> (r: Result<(), RpcError>)
        ensures
            final(self).spec_network() == old(self).spec_network(),
            final(self).sessions_map() == old(self).sessions_map(),
            final(self).peer_sessions() == old(self).peer_sessions(),
            final(self).spec_session_counter() == old(self).spec_session_counter(),
            final(self).send_req() == old(self).send_req(),
            final(self).send_resp() == old(self).send_resp(),
            final(self).recv_resp() == old(self).recv_resp(),
            match r {
                Ok(()) => {
                    &&& bin@.len() == old(self).spec_network().spec_mr_size()
                    &&& spec_unframe(bin@) is Some
                    &&& crate::codec::spec_decode_msg(spec_unframe(bin@).unwrap()) is Some
                    &&& final(self).recv_req() == old(self).recv_req().push(
                        MsgHandleModel {
                            msg_type: RpcMsgType::Request,
                            peer_id: 0,
                            peer_uri: Seq::<char>::empty(),
                            msg: crate::codec::spec_decode_msg(spec_unframe(bin@).unwrap()).unwrap(),
                        },
                    )
                },
                Err(e) => {
                    &&& e == RpcError::DecodeError
                    &&& final(self).recv_req() == old(self).recv_req()
                    &&& !{
                        &&& bin@.len() == old(self).spec_network().spec_mr_size()
                        &&& spec_unframe(bin@) is Some
                        &&& crate::codec::spec_decode_msg(spec_unframe(bin@).unwrap()) is Some
                    }
                },
            },
    {
        if bin.len() != self.network.mr_size() {
            return Err(RpcError::DecodeError);
        }
        let raw_msg = match crate::frame::unframe_msg(bin) {
            Ok(p) => p,
            Err(_) => {
                return Err(RpcError::DecodeError);
            },
        };
        let msg = match crate::codec::decode_msg(raw_msg.as_slice()) {
            Some(m) => m,
            None => {
                return Err(RpcError::DecodeError);
            },
        };
        let mut msg_handle = RpcMsgHandle::default();
        msg_handle.set_msg(msg);
        match msg_handle.msg_type {
            RpcMsgType::Request => {
                self.on_recv_req(_session_id, msg_handle);
            },
            RpcMsgType::Response => {
                self.on_recv_resp(_session_id, msg_handle);
            },
            RpcMsgType::Notification => {},
        }
        Ok(())
    }

    /// Enqueues an inbound request for the next drain.
    pub fn on_recv_req(&mut self, _peer_id: u32, req: RpcMsgHandle)
        ensures
            final(self).recv_req() == old(self).recv_req().push(req@),
            final(self).send_req() == old(self).send_req(),
            final(self).send_resp() == old(self).send_resp(),
            final(self).recv_resp() == old(self).recv_resp(),
            final(self).spec_network() == old(self).spec_network(),
            final(self).sessions_map() == old(self).sessions_map(),
            final(self).peer_sessions() == old(self).peer_sessions(),
            final(self).spec_session_counter() == old(self).spec_session_counter(),
    {
        self.recv_req_queue.push_back(req);
        proof {
            assert(self.recv_req() =~= old(self).recv_req().push(req@));
        }
    }

    /// Enqueues an inbound response for the next drain.
    pub fn on_recv_resp(&mut self, _peer_id: u32, resp: RpcMsgHandle)
        ensures
            final(self).recv_resp() == old(self).recv_resp().push(resp@),
            final(self).send_req() == old(self).send_req(),
            final(self).send_resp() == old(self).send_resp(),
            final(self).recv_req() == old(self).recv_req(),
            final(self).spec_network() == old(self).spec_network(),
            final(self).sessions_map() == old(self).sessions_map(),
            final(self).peer_sessions() == old(self).peer_sessions(),
            final(self).spec_session_counter() == old(self).spec_session_counter(),
    {
        self.recv_resp_queue.push_back(resp);
        proof {
            assert(self.recv_resp() =~= old(self).recv_resp().push(resp@));
        }
    }

    /// Enqueues an outbound request for the next drain.
    pub fn push_req(&mut self, req: RpcMsgHandle)
        ensures
            final(self).send_req() == old(self).send_req().push(req@),
            final(self).send_resp() == old(self).send_resp(),
            final(self).recv_req() == old(self).recv_req(),
            final(self).recv_resp() == old(self).recv_resp(),
            final(self).spec_network() == old(self).spec_network(),
            final(self).sessions_map() == old(self).sessions_map(),
            final(self).peer_sessions() == old(self).peer_sessions(),
            final(self).spec_session_counter() == old(self).spec_session_counter(),
    {
        self.send_req_queue.push_back(req);
        proof {
            assert(self.send_req() =~= old(self).send_req().push(req@));
        }
    }

    /// Enqueues an outbound response for the next drain.
    pub fn push_resp(&mut self, resp: RpcMsgHandle)
        ensures
            final(self).send_resp() == old(self).send_resp().push(resp@),
            final(self).send_req() == old(self).send_req(),
            final(self).recv_req() == old(self).recv_req(),
            final(self).recv_resp() == old(self).recv_resp(),
            final(self).spec_network() == old(self).spec_network(),
            final(self).sessions_map() == old(self).sessions_map(),
            final(self).peer_sessions() == old(self).peer_sessions(),
            final(self).spec_session_counter() == old(self).spec_session_counter(),
    {
        self.send_resp_queue.push_back(resp);
        proof {
            assert(self.send_resp() =~= old(self).send_resp().push(resp@));
        }
    }

    /// Drains the receive-request queue: exactly the messages present at
    /// entry, oldest first.  Each is routed to the handler registered for
    /// its request tag and invoked on it exactly once; a message whose
    /// tag has no handler is dropped with `UnknownTag`, and the number of
    /// messages so dropped comes back for the caller's log.
    pub fn check_recv_req<CB: crate::srpc_core::CallBack>(
        &mut self,
        registry: &mut crate::srpc_core::CbRegistry<CB>,
    ) -> (dropped: usize)
        requires
            old(registry).wf(),
        ensures
            dropped == unrouted_count(old(self).recv_req(), *old(registry)),
            dropped <= old(self).recv_req().len(),
            final(registry).wf(),
            final(self).recv_req() == Seq::<MsgHandleModel>::empty(),
            final(self).send_req() == old(self).send_req(),
            final(self).send_resp() == old(self).send_resp(),
            final(self).recv_resp() == old(self).recv_resp(),
            final(self).spec_network() == old(self).spec_network(),
            final(self).sessions_map() == old(self).sessions_map(),
            final(self).peer_sessions() == old(self).peer_sessions(),
            final(self).spec_session_counter() == old(self).spec_session_counter(),
            forall|t: u8|
                {
                    &&& (old(registry).slot(t) is None ==> final(registry).slot(t) is None)
                    &&& (old(registry).slot(t) is Some ==> {
                        &&& #[trigger] final(registry).slot(t) is Some
                        &&& final(registry).slot(t).unwrap().history() == old(
                            registry,
                        ).slot(t).unwrap().history() + routed_to(old(self).recv_req(), t)
                    })
                },
    {
        let ghost q0 = self.recv_req();
        let ghost reg0 = *old(registry);
        let len = self.recv_req_queue.len();
        let mut k: usize = 0;
        let mut dropped: usize = 0;
        proof {
            assert(q0.subrange(0, 0) =~= Seq::<MsgHandleModel>::empty());
            assert(hviews(self.recv_req_queue@) =~= q0.subrange(0 as int, len as int));
            assert forall|t: u8| reg0.slot(t) is Some implies reg0.slot(t).unwrap().history()
                + routed_to(q0.subrange(0, 0), t) == reg0.slot(t).unwrap().history() by {
                assert(routed_to(q0.subrange(0, 0), t) =~= Seq::<MsgHandleModel>::empty());
                assert(reg0.slot(t).unwrap().history() + Seq::<MsgHandleModel>::empty()
                    =~= reg0.slot(t).unwrap().history());
            }
        }
        while k < len
            invariant
                k <= len,
                len == q0.len(),
                registry.wf(),
                hviews(self.recv_req_queue@) == q0.subrange(k as int, len as int),
                self.send_req() == old(self).send_req(),
                self.send_resp() == old(self).send_resp(),
                self.recv_resp() == old(self).recv_resp(),
                self.spec_network() == old(self).spec_network(),
                self.sessions_map() == old(self).sessions_map(),
                self.peer_sessions() == old(self).peer_sessions(),
                self.spec_session_counter() == old(self).spec_session_counter(),
                reg0 == *old(registry),
                dropped <= k,
                dropped == unrouted_count(q0.subrange(0, k as int), reg0),
                forall|t: u8|
                    {
                        &&& (reg0.slot(t) is None ==> registry.slot(t) is None)
                        &&& (reg0.slot(t) is Some ==> {
                            &&& #[trigger] registry.slot(t) is Some
                            &&& registry.slot(t).unwrap().history() == reg0.slot(
                                t,
                            ).unwrap().history() + routed_to(q0.subrange(0, k as int), t)
                        })
                    },
            decreases len - k,
        {
            let ghost qpre = self.recv_req_queue@;
            let msg = match self.recv_req_queue.pop_front() {
                Some(m) => m,
                None => {
                    proof {
                        assert(q0.subrange(k as int, len as int).len() > 0);
                        assert(false);
                    }
                    RpcMsgHandle::default()
                },
            };
            proof {
                lemma_hviews_pop(qpre, self.recv_req_queue@, q0, k as int, len as int);
                assert(msg@ == q0[k as int]);
            }
            let ghost pre_reg = *registry;
            let handled = registry.dispatch(msg);
            if !handled {
                dropped = dropped + 1;
            }
            k = k + 1;
            proof {
                let prefix = q0.subrange(0, k as int - 1);
                assert(q0.subrange(0, k as int) =~= prefix.push(q0[k as int - 1]));
                assert(msg@ == q0[k as int - 1]);
                lemma_unrouted_count_push(prefix, msg@, reg0);
                assert(handled == (pre_reg.slot(msg@.msg.req_type) is Some));
                assert((pre_reg.slot(msg@.msg.req_type) is Some) == (reg0.slot(
                    msg@.msg.req_type,
                ) is Some));
                assert forall|t: u8| reg0.slot(t) is Some implies {
                    &&& registry.slot(t) is Some
                    &&& registry.slot(t).unwrap().history() == reg0.slot(t).unwrap().history()
                        + routed_to(q0.subrange(0, k as int), t)
                } by {
                    lemma_routed_to_push(prefix, msg@, t);
                    if t == msg@.msg.req_type {
                        assert(registry.slot(t).unwrap().history() == pre_reg.slot(
                            t,
                        ).unwrap().history().push(msg@));
                        assert(reg0.slot(t).unwrap().history() + routed_to(prefix, t).push(msg@)
                            =~= (reg0.slot(t).unwrap().history() + routed_to(prefix, t)).push(
                            msg@,
                        ));
                    } else {
                        assert(registry.slot(t) == pre_reg.slot(t));
                    }
                }
            }
        }
        proof {
            assert(q0.subrange(0, len as int) =~= q0);
            assert(self.recv_req() =~= Seq::<MsgHandleModel>::empty());
        }
        dropped
    }

    /// Drains the send-request queue: exactly the messages present at
    /// entry, oldest first.  Each sendable message is encoded, framed,
    /// routed to its peer's session, and handed to the engine; the posts
    /// to perform come back in order.  A message that does not encode or
    /// fit the frame, or whose peer has no session, is dropped.  Once a
    /// pool runs out of regions, the remaining sendable messages are
    /// dropped too, and that pool is still full when the drain ends.  The
    /// number of messages dropped, for whichever reason, comes back for
    /// the caller's log.
    pub fn check_send_req(&mut self) -> ((posts, dropped): (Vec<PostPair>, usize))
        requires
            old(self).wf(),
            old(self).spec_network().spec_wr_cnt() + 2 * old(self).send_req().len() <= u64::MAX,
        ensures
            dropped + posts@.len() == old(self).send_req().len(),
            final(self).wf(),
            final(self).send_req() == Seq::<MsgHandleModel>::empty(),
            final(self).send_resp() == old(self).send_resp(),
            final(self).recv_req() == old(self).recv_req(),
            final(self).recv_resp() == old(self).recv_resp(),
            final(self).sessions_map() == old(self).sessions_map(),
            final(self).peer_sessions() == old(self).peer_sessions(),
            final(self).spec_session_counter() == old(self).spec_session_counter(),
            final(self).spec_network().spec_mr_size() == old(self).spec_network().spec_mr_size(),
            final(self).spec_network().spec_sessions() == old(self).spec_network().spec_sessions(),
            final(self).spec_network().rmr().spec_capacity() == old(self).spec_network().rmr().spec_capacity(),
            final(self).spec_network().smr().spec_capacity() == old(self).spec_network().smr().spec_capacity(),
            final(self).spec_network().rmr().occ_inv().dom().len() == old(self).spec_network().rmr().occ_inv().dom().len() + posts@.len(),
            final(self).spec_network().smr().occ_inv().dom().len() == old(self).spec_network().smr().occ_inv().dom().len() + posts@.len(),
            forall|w: u64| #[trigger]
                old(self).spec_network().rmr().occ().contains_key(w) ==> final(self).spec_network().rmr().occ().contains_key(w) && final(self).spec_network().rmr().occ()[w] == old(self).spec_network().rmr().occ()[w],
            forall|w: u64| #[trigger]
                old(self).spec_network().smr().occ().contains_key(w) ==> final(self).spec_network().smr().occ().contains_key(w) && final(self).spec_network().smr().occ()[w] == old(self).spec_network().smr().occ()[w],
            forall|w: u64| #[trigger]
                old(self).spec_network().wrid_sessions().contains_key(w) ==> final(self).spec_network().wrid_sessions().contains_key(w) && final(self).spec_network().wrid_sessions()[w] == old(self).spec_network().wrid_sessions()[w],
            posts@.len() <= old(self).spec_send_eligible().len(),
            forall|i: int|
                0 <= i < posts@.len() ==> {
                    let e = old(self).spec_send_eligible()[i];
                    &&& (#[trigger] posts@[i]).send.frame@ == spec_frame(
                        spec_encode_msg(e.1),
                        old(self).spec_network().spec_mr_size(),
                    )
                    &&& posts@[i].recv.wr_id == old(self).spec_network().spec_wr_cnt() + 2 * i
                    &&& posts@[i].send.wr_id == old(self).spec_network().spec_wr_cnt() + 2 * i + 1
                    &&& final(self).spec_network().wrid_sessions().contains_key(
                        posts@[i].recv.wr_id,
                    )
                    &&& final(self).spec_network().wrid_sessions()[posts@[i].recv.wr_id] == e.0
                    &&& final(self).spec_network().wrid_sessions().contains_key(
                        posts@[i].send.wr_id,
                    )
                    &&& final(self).spec_network().wrid_sessions()[posts@[i].send.wr_id] == e.0
                    &&& final(self).spec_network().rmr().occ().contains_key(posts@[i].recv.wr_id)
                    &&& final(self).spec_network().rmr().occ()[posts@[i].recv.wr_id] == posts@[i]
                        .recv.mr_index
                    &&& final(self).spec_network().smr().occ().contains_key(posts@[i].send.wr_id)
                    &&& final(self).spec_network().smr().occ()[posts@[i].send.wr_id] == posts@[i]
                        .send.mr_index
                },
            posts@.len() == old(self).spec_send_eligible().len() ==> final(self).spec_network().spec_wr_cnt() == old(self).spec_network().spec_wr_cnt() + 2
                * posts@.len(),
            posts@.len() < old(self).spec_send_eligible().len() ==> {
                ||| old(self).spec_network().rmr().occ_inv().dom().len() + posts@.len() == old(self).spec_network().rmr().spec_capacity()
                ||| old(self).spec_network().smr().occ_inv().dom().len() + posts@.len() == old(self).spec_network().smr().spec_capacity()
            },
            posts@.len() < old(self).spec_send_eligible().len() ==> {
                ||| forall|j: u32|
                    j < final(self).spec_network().rmr().spec_capacity() ==> final(self).spec_network().rmr().occ_inv().contains_key(j)
                ||| forall|j: u32|
                    j < final(self).spec_network().smr().spec_capacity() ==> final(self).spec_network().smr().occ_inv().contains_key(j)
            },
    {
        let ghost q0 = self.send_req();
        let ghost peers = self.peer_sessions();
        let ghost sess = self.spec_network().spec_sessions();
        let ghost msz = self.spec_network().spec_mr_size();
        let ghost w0 = self.spec_network().spec_wr_cnt();
        let ghost rcap0 = self.spec_network().rmr().spec_capacity();
        let ghost scap0 = self.spec_network().smr().spec_capacity();
        let ghost r0len = self.spec_network().rmr().occ_inv().dom().len();
        let ghost s0len = self.spec_network().smr().occ_inv().dom().len();
        let ghost r0occ = self.spec_network().rmr().occ();
        let ghost s0occ = self.spec_network().smr().occ();
        let ghost wmap0 = self.spec_network().wrid_sessions();
        let ghost elig_all = old(self).spec_send_eligible();
        let len = self.send_req_queue.len();
        let mut posts: Vec<PostPair> = Vec::new();
        let mut dropped: usize = 0;
        let mut k: usize = 0;
        let ghost mut failed: bool = false;
        proof {
            assert(q0.subrange(0, 0) =~= Seq::<MsgHandleModel>::empty());
            assert(q0.subrange(0, len as int) =~= q0);
            assert(hviews(self.send_req_queue@).len() == self.send_req_queue@.len());
        }
        while k < len
            invariant
                k <= len,
                len == q0.len(),
                dropped + posts@.len() == k,
                self.wf(),
                w0 + 2 * (len as int) <= u64::MAX,
                hviews(self.send_req_queue@) == q0.subrange(k as int, len as int),
                self.send_resp() == old(self).send_resp(),
                self.recv_req() == old(self).recv_req(),
                self.recv_resp() == old(self).recv_resp(),
                self.sessions_map() == old(self).sessions_map(),
                self.peer_sessions() == peers,
                self.spec_session_counter() == old(self).spec_session_counter(),
                self.spec_network().spec_mr_size() == msz,
                self.spec_network().spec_sessions() == sess,
                self.spec_network().rmr().spec_capacity() == rcap0,
                self.spec_network().smr().spec_capacity() == scap0,
                self.spec_network().rmr().occ_inv().dom().len() == r0len + posts@.len(),
                self.spec_network().smr().occ_inv().dom().len() == s0len + posts@.len(),
                forall|w: u64| #[trigger]
                    r0occ.contains_key(w) ==> self.spec_network().rmr().occ().contains_key(w)
                        && self.spec_network().rmr().occ()[w] == r0occ[w],
                forall|w: u64| #[trigger]
                    s0occ.contains_key(w) ==> self.spec_network().smr().occ().contains_key(w)
                        && self.spec_network().smr().occ()[w] == s0occ[w],
                forall|w: u64| #[trigger]
                    wmap0.contains_key(w) ==> self.spec_network().wrid_sessions().contains_key(w)
                        && self.spec_network().wrid_sessions()[w] == wmap0[w],
                elig_all == send_eligible(q0, peers, sess, msz),
                w0 + 2 * posts@.len() <= self.spec_network().spec_wr_cnt(),
                self.spec_network().spec_wr_cnt() <= w0 + 2 * (k as int),
                posts@.len() <= send_eligible(
                    q0.subrange(0, k as int),
                    peers,
                    sess,
                    msz,
                ).len(),
                !failed ==> {
                    &&& posts@.len() == send_eligible(
                        q0.subrange(0, k as int),
                        peers,
                        sess,
                        msz,
                    ).len()
                    &&& self.spec_network().spec_wr_cnt() == w0 + 2 * posts@.len()
                },
                failed ==> {
                    &&& posts@.len() < send_eligible(
                        q0.subrange(0, k as int),
                        peers,
                        sess,
                        msz,
                    ).len()
                    &&& (r0len + posts@.len() == rcap0 || s0len + posts@.len() == scap0)
                    &&& {
                        ||| forall|j: u32|
                            j < self.spec_network().rmr().spec_capacity() ==> self.spec_network(
                            ).rmr().occ_inv().contains_key(j)
                        ||| forall|j: u32|
                            j < self.spec_network().smr().spec_capacity() ==> self.spec_network(
                            ).smr().occ_inv().contains_key(j)
                    }
                },
                forall|i: int|
                    0 <= i < posts@.len() ==> {
                        let e = send_eligible(q0.subrange(0, k as int), peers, sess, msz)[i];
                        &&& (#[trigger] posts@[i]).send.frame@ == spec_frame(
                            spec_encode_msg(e.1),
                            msz,
                        )
                        &&& posts@[i].recv.wr_id == w0 + 2 * i
                        &&& posts@[i].send.wr_id == w0 + 2 * i + 1
                        &&& self.spec_network().wrid_sessions().contains_key(posts@[i].recv.wr_id)
                        &&& self.spec_network().wrid_sessions()[posts@[i].recv.wr_id] == e.0
                        &&& self.spec_network().wrid_sessions().contains_key(posts@[i].send.wr_id)
                        &&& self.spec_network().wrid_sessions()[posts@[i].send.wr_id] == e.0
                        &&& self.spec_network().rmr().occ().contains_key(posts@[i].recv.wr_id)
                        &&& self.spec_network().rmr().occ()[posts@[i].recv.wr_id] == posts@[i].recv
                            .mr_index
                        &&& self.spec_network().smr().occ().contains_key(posts@[i].send.wr_id)
                        &&& self.spec_network().smr().occ()[posts@[i].send.wr_id] == posts@[i].send
                            .mr_index
                    },
            decreases len - k,
        {
            let ghost qpre = self.send_req_queue@;
            let ghost prefix = q0.subrange(0, k as int);
            let ghost elig_k = send_eligible(prefix, peers, sess, msz);
            let msg_handle = match self.send_req_queue.pop_front() {
                Some(m) => m,
                None => {
                    proof {
                        assert(q0.subrange(k as int, len as int).len() > 0);
                        assert(false);
                    }
                    RpcMsgHandle::default()
                },
            };
            proof {
                lemma_hviews_pop(
                    qpre,
                    self.send_req_queue@,
                    q0,
                    k as int,
                    len as int,
                );
                assert(msg_handle@ == q0[k as int]);
                assert(q0.subrange(0, k as int + 1) =~= prefix.push(q0[k as int]));
                lemma_send_eligible_push(prefix, q0[k as int], peers, sess, msz);
            }
            let mr_size = self.network.mr_size();
            match crate::codec::encode_msg(&msg_handle.msg) {
                None => {
                    dropped = dropped + 1;
                    proof {
                        assert(!send_ok(msg_handle@, peers, sess, msz));
                    }
                },
                Some(msg_bin) => {
                    match crate::frame::frame_msg(&msg_bin, mr_size) {
                        Err(_) => {
                            dropped = dropped + 1;
                            proof {
                                assert(!send_ok(msg_handle@, peers, sess, msz));
                            }
                        },
                        Ok(frame) => {
                            match self.get_session_id_by_peer_id(msg_handle.peer_id) {
                                None => {
                                    dropped = dropped + 1;
                                    proof {
                                        assert(!send_ok(msg_handle@, peers, sess, msz));
                                    }
                                },
                                Some(session_id) => {
                                    let ghost net_pre = self.spec_network();
                                    let ghost posts_pre = posts@;
                                    match self.network.send_to(session_id, &frame) {
                                        Ok(p) => {
                                            proof {
                                                assert(p.recv.mr_index < net_pre.rmr(
                                                ).spec_capacity());
                                                assert(!net_pre.rmr().occ_inv().contains_key(
                                                    p.recv.mr_index,
                                                ));
                                                assert(p.send.mr_index < net_pre.smr(
                                                ).spec_capacity());
                                                assert(!net_pre.smr().occ_inv().contains_key(
                                                    p.send.mr_index,
                                                ));
                                                assert(!failed);
                                                assert(send_ok(msg_handle@, peers, sess, msz));
                                            }
                                            posts.push(p);
                                            proof {
                                                assert(posts@ == posts_pre.push(p));
                                                assert forall|i: int|
                                                    0 <= i < posts@.len() implies {
                                                    let e = send_eligible(
                                                        q0.subrange(0, k as int + 1),
                                                        peers,
                                                        sess,
                                                        msz,
                                                    )[i];
                                                    &&& (#[trigger] posts@[i]).send.frame@
                                                        == spec_frame(spec_encode_msg(e.1), msz)
                                                    &&& posts@[i].recv.wr_id == w0 + 2 * i
                                                    &&& posts@[i].send.wr_id == w0 + 2 * i + 1
                                                    &&& self.spec_network(
                                                    ).wrid_sessions().contains_key(
                                                        posts@[i].recv.wr_id,
                                                    )
                                                    &&& self.spec_network().wrid_sessions()[
                                                        posts@[i].recv.wr_id] == e.0
                                                    &&& self.spec_network(
                                                    ).wrid_sessions().contains_key(
                                                        posts@[i].send.wr_id,
                                                    )
                                                    &&& self.spec_network().wrid_sessions()[
                                                        posts@[i].send.wr_id] == e.0
                                                    &&& self.spec_network().rmr(
                                                    ).occ().contains_key(posts@[i].recv.wr_id)
                                                    &&& self.spec_network().rmr().occ()[posts@[i]
                                                        .recv.wr_id] == posts@[i].recv.mr_index
                                                    &&& self.spec_network().smr(
                                                    ).occ().contains_key(posts@[i].send.wr_id)
                                                    &&& self.spec_network().smr().occ()[posts@[i]
                                                        .send.wr_id] == posts@[i].send.mr_index
                                                } by {
                                                    if i < posts@.len() - 1 {
                                                        assert(posts@[i] == posts_pre[i]);
                                                        assert(posts_pre[i].recv.wr_id < net_pre
                                                            .spec_wr_cnt());
                                                        assert(posts_pre[i].send.wr_id < net_pre
                                                            .spec_wr_cnt());
                                                    } else {
                                                        assert(posts@[i] == p);
                                                    }
                                                }
                                                assert(self.spec_network().rmr().occ_inv().dom()
                                                    =~= net_pre.rmr().occ_inv().dom().insert(
                                                    p.recv.mr_index,
                                                ));
                                                assert(self.spec_network().smr().occ_inv().dom()
                                                    =~= net_pre.smr().occ_inv().dom().insert(
                                                    p.send.mr_index,
                                                ));
                                                assert forall|w: u64| #[trigger]
                                                    r0occ.contains_key(w) implies self
                                                    .spec_network().rmr().occ().contains_key(w)
                                                    && self.spec_network().rmr().occ()[w]
                                                    == r0occ[w] by {
                                                    assert(net_pre.rmr().occ().contains_key(w));
                                                    assert(w < net_pre.spec_wr_cnt());
                                                }
                                                assert forall|w: u64| #[trigger]
                                                    s0occ.contains_key(w) implies self
                                                    .spec_network().smr().occ().contains_key(w)
                                                    && self.spec_network().smr().occ()[w]
                                                    == s0occ[w] by {
                                                    assert(net_pre.smr().occ().contains_key(w));
                                                    assert(w < net_pre.spec_wr_cnt());
                                                }
                                                assert forall|w: u64| #[trigger]
                                                    wmap0.contains_key(w) implies self
                                                    .spec_network().wrid_sessions().contains_key(
                                                    w,
                                                ) && self.spec_network().wrid_sessions()[w]
                                                    == wmap0[w] by {
                                                    assert(net_pre.wrid_sessions().contains_key(
                                                        w,
                                                    ));
                                                    assert(w < net_pre.spec_wr_cnt());
                                                }
                                            }
                                        },
                                        Err(e) => {
                                            dropped = dropped + 1;
                                            proof {
                                                if e == RpcError::UnknownPeer {
                                                    assert(!sess.contains(peers[msg_handle@
                                                        .peer_id]));
                                                    assert(!send_ok(
                                                        msg_handle@,
                                                        peers,
                                                        sess,
                                                        msz,
                                                    ));
                                                } else {
                                                    assert(e == RpcError::PoolExhausted);
                                                    assert(send_ok(msg_handle@, peers, sess, msz));
                                                    failed = true;
                                                    if forall|j: u32|
                                                        j < net_pre.rmr().spec_capacity()
                                                            ==> net_pre.rmr(
                                                        ).occ_inv().contains_key(j) {
                                                        MrPool::lemma_full_occupancy(
                                                            net_pre.rmr(),
                                                        );
                                                        assert(r0len + posts@.len() == rcap0);
                                                    } else {
                                                        MrPool::lemma_full_occupancy(
                                                            net_pre.smr(),
                                                        );
                                                        assert(s0len + posts@.len() == scap0);
                                                    }
                                                }
                                            }
                                        },
                                    }
                                },
                            }
                        },
                    }
                },
            }
            k = k + 1;
        }
        proof {
            assert(q0.subrange(0, len as int) =~= q0);
            assert(self.send_req() =~= Seq::<MsgHandleModel>::empty());
        }
        (posts, dropped)
    }

    /// One drained work completion, as the poller's decision function
    /// sees it.  A send completion frees its send region.  A receive
    /// completion finds its session, decodes the landed frame, enqueues
    /// the message, and frees its receive region; a completion whose id
    /// no posted work request carries is reported as `CompletionError`,
    /// and a frame that does not decode is dropped with `DecodeError`.
    /// Any other opcode is reported as `CompletionError`, and whatever
    /// region its id holds, in either pool, is released: an errored work
    /// request never completes normally, so its region would otherwise
    /// leak.  None of these outcomes is fatal, and the queue pair is
    /// never torn down.
    pub fn handle_completion(
        &mut self,
        opcode: crate::network::CompletionOpcode,
        wr_id: u64,
        region: &[u8],
    ) -> (r: Result<(), RpcError>)
        requires
            old(self).wf(),
        ensures
            final(self).wf(),
            final(self).send_req() == old(self).send_req(),
            final(self).send_resp() == old(self).send_resp(),
            final(self).recv_resp() == old(self).recv_resp(),
            final(self).sessions_map() == old(self).sessions_map(),
            final(self).peer_sessions() == old(self).peer_sessions(),
            final(self).spec_session_counter() == old(self).spec_session_counter(),
            final(self).spec_network().spec_mr_size() == old(self).spec_network().spec_mr_size(),
            final(self).spec_network().spec_sessions() == old(self).spec_network().spec_sessions(),
            final(self).spec_network().spec_wr_cnt() == old(self).spec_network().spec_wr_cnt(),
            final(self).spec_network().wrid_sessions() == old(self).spec_network().wrid_sessions(),
            match opcode {
                crate::network::CompletionOpcode::Send => {
                    &&& r == Ok::<(), RpcError>(())
                    &&& final(self).recv_req() == old(self).recv_req()
                    &&& final(self).spec_network().rmr() == old(self).spec_network().rmr()
                    &&& if old(self).spec_network().smr().occ().contains_key(wr_id) {
                        final(self).spec_network().smr().occ() == old(self).spec_network().smr().occ().remove(wr_id)
                    } else {
                        final(self).spec_network().smr() == old(self).spec_network().smr()
                    }
                },
                crate::network::CompletionOpcode::Recv => {
                    &&& final(self).spec_network().smr() == old(self).spec_network().smr()
                    &&& (if old(self).spec_network().rmr().occ().contains_key(wr_id) {
                        final(self).spec_network().rmr().occ() == old(self).spec_network().rmr().occ().remove(wr_id)
                    } else {
                        final(self).spec_network().rmr() == old(self).spec_network().rmr()
                    })
                    &&& if !old(self).spec_network().wrid_sessions().contains_key(wr_id) {
                        &&& r == Err::<(), RpcError>(RpcError::CompletionError)
                        &&& final(self).recv_req() == old(self).recv_req()
                    } else {
                        &&& if {
                            &&& region@.len() == old(self).spec_network().spec_mr_size()
                            &&& spec_unframe(region@) is Some
                            &&& crate::codec::spec_decode_msg(spec_unframe(region@).unwrap())
                                is Some
                        } {
                            &&& r is Ok
                            &&& final(self).recv_req() == old(self).recv_req().push(
                                MsgHandleModel {
                                    msg_type: RpcMsgType::Request,
                                    peer_id: 0,
                                    peer_uri: Seq::<char>::empty(),
                                    msg: crate::codec::spec_decode_msg(
                                        spec_unframe(region@).unwrap(),
                                    ).unwrap(),
                                },
                            )
                        } else {
                            &&& r == Err::<(), RpcError>(RpcError::DecodeError)
                            &&& final(self).recv_req() == old(self).recv_req()
                        }
                    }
                },
                crate::network::CompletionOpcode::Other => {
                    &&& r == Err::<(), RpcError>(RpcError::CompletionError)
                    &&& final(self).recv_req() == old(self).recv_req()
                    &&& (if old(self).spec_network().smr().occ().contains_key(wr_id) {
                        final(self).spec_network().smr().occ() == old(self).spec_network().smr().occ().remove(wr_id)
                    } else {
                        final(self).spec_network().smr() == old(self).spec_network().smr()
                    })
                    &&& if old(self).spec_network().rmr().occ().contains_key(wr_id) {
                        final(self).spec_network().rmr().occ() == old(self).spec_network().rmr().occ().remove(wr_id)
                    } else {
                        final(self).spec_network().rmr() == old(self).spec_network().rmr()
                    }
                },
            },
    {
        match opcode {
            crate::network::CompletionOpcode::Send => {
                self.network.release_occupied_smr(wr_id);
                Ok(())
            },
            crate::network::CompletionOpcode::Recv => {
                let (session_id, frame) = match self.network.on_recv(wr_id, region) {
                    Ok(p) => p,
                    Err(e) => {
                        self.network.release_occupied_rmr(wr_id);
                        return Err(e);
                    },
                };
                let res = self.on_recv_msg(session_id, frame.as_slice());
                self.network.release_occupied_rmr(wr_id);
                res
            },
            crate::network::CompletionOpcode::Other => {
                self.network.release_occupied_smr(wr_id);
                self.network.release_occupied_rmr(wr_id);
                Err(RpcError::CompletionError)
            },
        }
    }

    /// Draining the receive-response queue is reserved: routing responses
    /// by message id to a correlation map is not yet defined, so this
    /// deliberately does nothing.
    pub fn check_recv_resp(&self) {
    }

    /// Draining the send-response queue is reserved in the same way; this
    /// deliberately does nothing.
    pub fn check_send_resp(&self) {
    }

    /// One turn of the run loop: drains each queue once, in the fixed
    /// order receive-request, send-request, receive-response,
    /// send-response.  Each drain processes exactly the items present
    /// when it starts; the posts to perform come back in order, along
    /// with the number of messages both drains dropped, for the caller's
    /// log.
    pub fn run_loop_once<CB: crate::srpc_core::CallBack>(
        &mut self,
        registry: &mut crate::srpc_core::CbRegistry<CB>,
    ) -> ((posts, dropped): (Vec<PostPair>, usize))
        requires
            old(self).wf(),
            old(registry).wf(),
            old(self).spec_network().spec_wr_cnt() + 2 * old(self).send_req().len() <= u64::MAX,
            old(self).recv_req().len() + old(self).send_req().len() <= usize::MAX,
        ensures
            dropped == unrouted_count(old(self).recv_req(), *old(registry)) + old(
                self,
            ).send_req().len() - posts@.len(),
            final(self).wf(),
            final(registry).wf(),
            final(self).recv_req() == Seq::<MsgHandleModel>::empty(),
            final(self).send_req() == Seq::<MsgHandleModel>::empty(),
            final(self).send_resp() == old(self).send_resp(),
            final(self).recv_resp() == old(self).recv_resp(),
            final(self).sessions_map() == old(self).sessions_map(),
            final(self).peer_sessions() == old(self).peer_sessions(),
            final(self).spec_session_counter() == old(self).spec_session_counter(),
            final(self).spec_network().spec_mr_size() == old(self).spec_network().spec_mr_size(),
            final(self).spec_network().spec_sessions() == old(self).spec_network().spec_sessions(),
            final(self).spec_network().rmr().spec_capacity() == old(self).spec_network().rmr().spec_capacity(),
            final(self).spec_network().smr().spec_capacity() == old(self).spec_network().smr().spec_capacity(),
            final(self).spec_network().rmr().occ_inv().dom().len() == old(self).spec_network().rmr().occ_inv().dom().len() + posts@.len(),
            final(self).spec_network().smr().occ_inv().dom().len() == old(self).spec_network().smr().occ_inv().dom().len() + posts@.len(),
            forall|w: u64| #[trigger]
                old(self).spec_network().rmr().occ().contains_key(w) ==> final(self).spec_network().rmr().occ().contains_key(w) && final(self).spec_network().rmr().occ()[w] == old(self).spec_network().rmr().occ()[w],
            forall|w: u64| #[trigger]
                old(self).spec_network().smr().occ().contains_key(w) ==> final(self).spec_network().smr().occ().contains_key(w) && final(self).spec_network().smr().occ()[w] == old(self).spec_network().smr().occ()[w],
            forall|w: u64| #[trigger]
                old(self).spec_network().wrid_sessions().contains_key(w) ==> final(self).spec_network().wrid_sessions().contains_key(w) && final(self).spec_network().wrid_sessions()[w] == old(self).spec_network().wrid_sessions()[w],
            forall|t: u8|
                {
                    &&& (old(registry).slot(t) is None ==> final(registry).slot(t) is None)
                    &&& (old(registry).slot(t) is Some ==> {
                        &&& #[trigger] final(registry).slot(t) is Some
                        &&& final(registry).slot(t).unwrap().history() == old(
                            registry,
                        ).slot(t).unwrap().history() + routed_to(old(self).recv_req(), t)
                    })
                },
            posts@.len() <= old(self).spec_send_eligible().len(),
            forall|i: int|
                0 <= i < posts@.len() ==> {
                    let e = old(self).spec_send_eligible()[i];
                    &&& (#[trigger] posts@[i]).send.frame@ == spec_frame(
                        spec_encode_msg(e.1),
                        old(self).spec_network().spec_mr_size(),
                    )
                    &&& posts@[i].recv.wr_id == old(self).spec_network().spec_wr_cnt() + 2 * i
                    &&& posts@[i].send.wr_id == old(self).spec_network().spec_wr_cnt() + 2 * i + 1
                    &&& final(self).spec_network().wrid_sessions().contains_key(
                        posts@[i].recv.wr_id,
                    )
                    &&& final(self).spec_network().wrid_sessions()[posts@[i].recv.wr_id] == e.0
                    &&& final(self).spec_network().wrid_sessions().contains_key(
                        posts@[i].send.wr_id,
                    )
                    &&& final(self).spec_network().wrid_sessions()[posts@[i].send.wr_id] == e.0
                    &&& final(self).spec_network().rmr().occ().contains_key(posts@[i].recv.wr_id)
                    &&& final(self).spec_network().rmr().occ()[posts@[i].recv.wr_id] == posts@[i]
                        .recv.mr_index
                    &&& final(self).spec_network().smr().occ().contains_key(posts@[i].send.wr_id)
                    &&& final(self).spec_network().smr().occ()[posts@[i].send.wr_id] == posts@[i]
                        .send.mr_index
                },
            posts@.len() == old(self).spec_send_eligible().len() ==> final(self).spec_network().spec_wr_cnt() == old(self).spec_network().spec_wr_cnt() + 2
                * posts@.len(),
            posts@.len() < old(self).spec_send_eligible().len() ==> {
                ||| old(self).spec_network().rmr().occ_inv().dom().len() + posts@.len() == old(self).spec_network().rmr().spec_capacity()
                ||| old(self).spec_network().smr().occ_inv().dom().len() + posts@.len() == old(self).spec_network().smr().spec_capacity()
            },
            posts@.len() < old(self).spec_send_eligible().len() ==> {
                ||| forall|j: u32|
                    j < final(self).spec_network().rmr().spec_capacity() ==> final(self).spec_network().rmr().occ_inv().contains_key(j)
                ||| forall|j: u32|
                    j < final(self).spec_network().smr().spec_capacity() ==> final(self).spec_network().smr().occ_inv().contains_key(j)
            },
    {
        let recv_dropped = self.check_recv_req(registry);
        proof {
            assert(self.spec_send_eligible() == old(self).spec_send_eligible());
        }
        let (posts, send_dropped) = self.check_send_req();
        self.check_recv_resp();
        self.check_send_resp();
        (posts, recv_dropped + send_dropped)
    }

    /// Pure lookup: the session id a peer id maps to.
    pub fn get_session_id_by_peer_id(&self, peer_id: u32) -> (r: Option<u32>)
        ensures
            match r {
                Some(s) => self.peer_sessions().contains_key(peer_id) && self.peer_sessions()[
                    peer_id] == s,
                None => !self.peer_sessions().contains_key(peer_id),
            },
    {
        match self.peer_map.get(&peer_id) {
            Some(s) => Some(*s),
            None => None,
        }
    }
}

} // verus!
