//! The RPC core: the lifecycle facade.  It owns the dispatcher and the
//! callback registry, moves through Stopped, Running and ShuttingDown,
//! accepts callback registrations only while stopped, and hands out
//! monotonic request indices.
use vstd::prelude::*;

use crate::conf::RpcConf;
use crate::dispatcher::RpcDispatcher;
use crate::msg::{MsgHandleModel, RpcMsgHandle};
use crate::network::PostPair;

verus! {

/// A user-supplied message handler.  Its history names every handle it
/// was ever invoked on, oldest first; each invocation appends exactly the
/// handle it received.
pub trait CallBack: Sized {
    /// The handles this handler has been invoked on, oldest first.
    spec fn history(&self) -> Seq<MsgHandleModel>;

    /// Handles one message.
    fn invoke(&mut self, msg: RpcMsgHandle)
        ensures
            final(self).history() == old(self).history().push(msg@),
    ;
}

/// A handler that records every handle it is invoked on, oldest first.
pub struct RecordingCallBack {
    /// The handles received so far, oldest first.
    pub seen: Vec<RpcMsgHandle>,
}

impl RecordingCallBack {
    /// A recorder that has seen nothing yet.
    pub fn new() -> (r: RecordingCallBack)
        ensures
            r.history() == Seq::<MsgHandleModel>::empty(),
    {
        let r = RecordingCallBack { seen: Vec::new() };
        proof {
            assert(crate::dispatcher::hviews(r.seen@) =~= Seq::<MsgHandleModel>::empty());
        }
        r
    }
}

impl CallBack for RecordingCallBack {
    open spec fn history(&self) -> Seq<MsgHandleModel> {
        crate::dispatcher::hviews(self.seen@)
    }

    fn invoke(&mut self, msg: RpcMsgHandle) {
        self.seen.push(msg);
        proof {
            assert(crate::dispatcher::hviews(self.seen@) =~= crate::dispatcher::hviews(
                old(self).seen@,
            ).push(self.seen@.last()@));
        }
    }
}

/// Number of distinct request tags a registry can hold.
pub const CB_SLOTS: usize = 256;

/// The callback registry: at most one handler per request tag.  Written
/// only while the core is stopped, read-only afterwards.
pub struct CbRegistry<CB: CallBack> {
    slots: Vec<Option<CB>>,
}

impl<CB: CallBack> CbRegistry<CB> {
    /// One slot per possible request tag.
    pub closed spec fn spec_slots(self) -> Seq<Option<CB>> {
        self.slots@
    }

    /// The handler registered for tag `t`, if any.
    pub open spec fn slot(self, t: u8) -> Option<CB>
        recommends
            self.wf(),
    {
        self.spec_slots()[t as int]
    }

    /// Registry invariant: one slot for every possible tag.
    pub open spec fn wf(self) -> bool {
        self.spec_slots().len() == CB_SLOTS
    }

    /// An empty registry: no handler on any tag.
    pub fn new() -> (r: CbRegistry<CB>)
        ensures
            r.wf(),
            forall|t: u8| r.slot(t) is None,
    {
        let mut slots: Vec<Option<CB>> = Vec::new();
        let mut i: usize = 0;
        while i < CB_SLOTS
            invariant
                i <= CB_SLOTS,
                slots@.len() == i,
                forall|j: int| 0 <= j < i ==> slots@[j] is None,
            decreases CB_SLOTS - i,
        {
            slots.push(None);
            i = i + 1;
        }
        CbRegistry { slots }
    }

    /// Registers `cb` on tag `t`, replacing any earlier handler.
    pub fn register(&mut self, t: u8, cb: CB)
        requires
            old(self).wf(),
        ensures
            final(self).wf(),
            final(self).spec_slots() == old(self).spec_slots().update(t as int, Some(cb)),
    {
        self.slots[t as usize] = Some(cb);
    }

    /// Routes one message to the handler registered for its request tag,
    /// invoking it exactly once; a message whose tag has no handler is
    /// dropped, leaving every slot as it was.  Returns whether a handler
    /// was invoked.
    pub fn dispatch(&mut self, msg: RpcMsgHandle) -> (r: bool)
        requires
            old(self).wf(),
        ensures
            final(self).wf(),
            r == (old(self).slot(msg@.msg.req_type) is Some),
            forall|t: u8|
                t != msg@.msg.req_type ==> final(self).slot(t) == old(self).slot(t),
            old(self).slot(msg@.msg.req_type) is None ==> final(self).spec_slots() == old(
                self,
            ).spec_slots(),
            old(self).slot(msg@.msg.req_type) is Some ==> {
                &&& final(self).slot(msg@.msg.req_type) is Some
                &&& final(self).slot(msg@.msg.req_type).unwrap().history() == old(self).slot(
                    msg@.msg.req_type,
                ).unwrap().history().push(msg@)
            },
    {
        let tag = msg.msg.req_type;
        let r: bool;
        let slot = &mut self.slots[tag as usize];
        match slot {
            Some(cb) => {
                cb.invoke(msg);
                r = true;
            },
            None => {
                r = false;
            },
        }
        proof {
            if !r {
                assert(self.spec_slots() =~= old(self).spec_slots());
            }
        }
        r
    }

    /// The handler registered for tag `t`, if any.
    pub fn get(&self, t: u8) -> (r: Option<&CB>)
        requires
            self.wf(),
        ensures
            match r {
                Some(cb) => self.slot(t) == Some(*cb),
                None => self.slot(t) is None,
            },
    {
        match &self.slots[t as usize] {
            Some(cb) => Some(cb),
            None => None,
        }
    }
}

/// Lifecycle status of the RPC core.
#[derive(Debug, Clone, Copy, PartialEq, Eq, Structural)]
pub enum RpcCoreStatus {
    /// The RPC core is not running.
    Stopped,
    /// The RPC core is running.
    Running,
    /// The RPC core is shutting down.
    ShuttingDown,
}

/// The lifecycle facade.  Callback registration is accepted only while
/// stopped; the registry is read-only once the core runs.
pub struct RpcCore<CB: CallBack> {
    status: RpcCoreStatus,
    loc_id: u32,
    loc_uri: String,
    cnt_lwt: u64,
    cnt_ewt: u64,
    nn_id: Option<u64>,
    /// The callback registry, by request tag.
    pub cb_map: CbRegistry<CB>,
    req_counter: u64,
    /// The owned dispatcher.
    pub dispatcher: RpcDispatcher,
}

impl<CB: CallBack> RpcCore<CB> {
    /// Current lifecycle status.
    pub closed spec fn spec_status(self) -> RpcCoreStatus {
        self.status
    }

    /// The next request index to hand out.
    pub closed spec fn spec_req_counter(self) -> u64 {
        self.req_counter
    }

    /// The callback registry.
    pub closed spec fn spec_cb_map(self) -> CbRegistry<CB> {
        self.cb_map
    }

    /// The owned dispatcher.
    pub closed spec fn spec_dispatcher(self) -> RpcDispatcher {
        self.dispatcher
    }

    /// Core invariant: the registry has its full complement of slots and
    /// the dispatcher's engine is well formed.
    pub open spec fn wf(self) -> bool {
        &&& self.spec_cb_map().wf()
        &&& self.spec_dispatcher().wf()
    }

    /// A stopped core around a fresh dispatcher sized by `conf`.
    pub fn new(conf: &RpcConf) -> (r: RpcCore<CB>)
        requires
            conf.loc_mr_size >= 3,
        ensures
            r.wf(),
            r.spec_status() == RpcCoreStatus::Stopped,
            r.spec_req_counter() == 0,
            forall|t: u8| r.spec_cb_map().slot(t) is None,
            r.spec_dispatcher().send_req() == Seq::<MsgHandleModel>::empty(),
            r.spec_dispatcher().send_resp() == Seq::<MsgHandleModel>::empty(),
            r.spec_dispatcher().recv_req() == Seq::<MsgHandleModel>::empty(),
            r.spec_dispatcher().recv_resp() == Seq::<MsgHandleModel>::empty(),
            r.spec_dispatcher().peer_sessions() == Map::<u32, u32>::empty(),
            r.spec_dispatcher().spec_session_counter() == 0,
            r.spec_dispatcher().spec_network().spec_mr_size() == conf.loc_mr_size,
            r.spec_dispatcher().spec_network().spec_wr_cnt() == 1,
            r.spec_dispatcher().spec_network().spec_sessions() == Set::<u32>::empty(),
            r.spec_dispatcher().spec_network().wrid_sessions() == Map::<u64, u32>::empty(),
            r.spec_dispatcher().spec_network().smr().occ() == Map::<u64, u32>::empty(),
            r.spec_dispatcher().spec_network().rmr().occ() == Map::<u64, u32>::empty(),
            r.spec_dispatcher().spec_network().smr().occ_inv() == Map::<u32, u64>::empty(),
            r.spec_dispatcher().spec_network().rmr().occ_inv() == Map::<u32, u64>::empty(),
            r.spec_dispatcher().spec_network().smr().spec_capacity()
                == crate::network::DEFAULT_POOL_ENTRIES,
            r.spec_dispatcher().spec_network().rmr().spec_capacity()
                == crate::network::DEFAULT_POOL_ENTRIES,
    {
        let dispatcher = RpcDispatcher::new_arc(conf.loc_mr_size as usize);
        RpcCore {
            status: RpcCoreStatus::Stopped,
            loc_id: 0,
            loc_uri: String::new(),
            cnt_lwt: 0,
            cnt_ewt: 0,
            nn_id: None,
            cb_map: CbRegistry::new(),
            req_counter: 0,
            dispatcher,
        }
    }

    /// Starts the core.  Refused, changing nothing, exactly when the core
    /// is not stopped.
    pub fn start(&mut self) -> (r: Result<(), String>)
        ensures
            match r {
                Ok(()) => {
                    &&& old(self).spec_status() == RpcCoreStatus::Stopped
                    &&& final(self).spec_status() == RpcCoreStatus::Running
                },
                Err(e) => {
                    &&& old(self).spec_status() != RpcCoreStatus::Stopped
                    &&& *final(self) == *old(self)
                    &&& e@ == "The RPC core is already running."@
                },
            },
            final(self).spec_req_counter() == old(self).spec_req_counter(),
            final(self).spec_cb_map() == old(self).spec_cb_map(),
            final(self).spec_dispatcher() == old(self).spec_dispatcher(),
    {
        if self.status != RpcCoreStatus::Stopped {
            return Err("The RPC core is already running.".to_string());
        }
        self.status = RpcCoreStatus::Running;
        Ok(())
    }

    /// Stops the core, passing through shutdown.  Refused, changing
    /// nothing, exactly when the core is not running.
    pub fn stop(&mut self) -> (r: Result<(), String>)
        ensures
            match r {
                Ok(()) => {
                    &&& old(self).spec_status() == RpcCoreStatus::Running
                    &&& final(self).spec_status() == RpcCoreStatus::Stopped
                },
                Err(e) => {
                    &&& old(self).spec_status() != RpcCoreStatus::Running
                    &&& *final(self) == *old(self)
                    &&& e@ == "The RPC core is not running."@
                },
            },
            final(self).spec_req_counter() == old(self).spec_req_counter(),
            final(self).spec_cb_map() == old(self).spec_cb_map(),
            final(self).spec_dispatcher() == old(self).spec_dispatcher(),
    {
        if self.status != RpcCoreStatus::Running {
            return Err("The RPC core is not running.".to_string());
        }
        self.status = RpcCoreStatus::ShuttingDown;
        self.status = RpcCoreStatus::Stopped;
        Ok(())
    }

    /// Registers a callback for `cb_index`.  Refused when the core is not
    /// stopped, and for the reserved empty index.
    pub fn reg_legacy_cb(&mut self, cb_index: u8, cb: CB) -> (r: Result<(), String>)
        requires
            old(self).wf(),
        ensures
            final(self).wf(),
            final(self).spec_status() == old(self).spec_status(),
            final(self).spec_req_counter() == old(self).spec_req_counter(),
            final(self).spec_dispatcher() == old(self).spec_dispatcher(),
            match r {
                Ok(()) => {
                    &&& old(self).spec_status() == RpcCoreStatus::Stopped
                    &&& cb_index != 0
                    &&& final(self).spec_cb_map().spec_slots() == old(self).spec_cb_map().spec_slots().update(
                        cb_index as int,
                        Some(cb),
                    )
                },
                Err(e) => {
                    &&& final(self).spec_cb_map() == old(self).spec_cb_map()
                    &&& if old(self).spec_status() != RpcCoreStatus::Stopped {
                        e@ == "The RPC core is not stopped."@
                    } else {
                        cb_index == 0 && e@ == "The callback index is empty."@
                    }
                },
            },
    {
        if self.status != RpcCoreStatus::Stopped {
            return Err("The RPC core is not stopped.".to_string());
        }
        if cb_index == 0 {
            return Err("The callback index is empty.".to_string());
        }
        self.cb_map.register(cb_index, cb);
        Ok(())
    }

    /// Hands out the next request index; indices strictly increase.
    pub fn get_req_index(&mut self) -> (r: u64)
        requires
            old(self).spec_req_counter() < u64::MAX,
        ensures
            r == old(self).spec_req_counter(),
            final(self).spec_req_counter() == old(self).spec_req_counter() + 1,
            final(self).spec_status() == old(self).spec_status(),
            final(self).spec_cb_map() == old(self).spec_cb_map(),
            final(self).spec_dispatcher() == old(self).spec_dispatcher(),
    {
        let r = self.req_counter;
        self.req_counter = self.req_counter + 1;
        r
    }

    /// The callback registered for `req_type`, if any.
    pub fn get_cb_by_reqtype(&self, req_type: u8) -> (r: Option<&CB>)
        requires
            self.wf(),
        ensures
            match r {
                Some(cb) => self.spec_cb_map().slot(req_type) == Some(*cb),
                None => self.spec_cb_map().slot(req_type) is None,
            },
    {
        self.cb_map.get(req_type)
    }
}

} // verus!
