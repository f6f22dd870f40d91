//! A session: one logical connection to a peer, one-to-one with a queue
//! pair.  It carries the peer id, the peer's handshake address, and a
//! connection status.
use vstd::prelude::*;

use crate::dispatcher::RpcDispatcher;
use crate::msg::{RpcMsgHandle, RpcMsgType, RpcOnceMsg};

verus! {

/// Connection status of a session.
#[derive(Debug, Clone, Copy, PartialEq, Eq, Structural)]
pub enum RpcSessionStatus {
    /// The session is not connected to any server.
    Disconnected,
    /// The session is connecting to a server.
    Connecting,
    /// The session is connected to a server.
    Connected,
    /// The session is connected to a server and running logic.
    Running,
}

/// One logical connection to a peer.
#[derive(Debug)]
pub struct RpcSession {
    status: RpcSessionStatus,
    peer_id: u32,
    peer_uri: String,
}

impl RpcSession {
    /// Current connection status.
    pub closed spec fn spec_status(self) -> RpcSessionStatus {
        self.status
    }

    /// The peer this session reaches.
    pub closed spec fn spec_peer_id(self) -> u32 {
        self.peer_id
    }

    /// The peer's handshake address.
    pub closed spec fn spec_peer_uri(self) -> Seq<char> {
        self.peer_uri@
    }

    /// A fresh session to `peer_id` at `peer_uri`, not yet connected.
    pub fn new(peer_id: u32, peer_uri: String) -> (r: RpcSession)
        ensures
            r.spec_status() == RpcSessionStatus::Disconnected,
            r.spec_peer_id() == peer_id,
            r.spec_peer_uri() == peer_uri@,
    {
        RpcSession { status: RpcSessionStatus::Disconnected, peer_id, peer_uri }
    }

    /// Moves the session to `status`; the peer fields do not change.
    pub fn set_status(&mut self, status: RpcSessionStatus)
        ensures
            final(self).spec_status() == status,
            final(self).spec_peer_id() == old(self).spec_peer_id(),
            final(self).spec_peer_uri() == old(self).spec_peer_uri(),
    {
        self.status = status;
    }

    /// Enqueues `msg` for this session's peer on the dispatcher's
    /// send-request queue.  Refused, leaving the dispatcher untouched,
    /// exactly when the session is not connected.
    pub fn push_request(&self, dispatcher: &mut RpcDispatcher, msg: RpcOnceMsg) -> (r: bool)
        ensures
            r == (self.spec_status() == RpcSessionStatus::Connected),
            if r {
                final(dispatcher).send_req() == old(dispatcher).send_req().push(
                    crate::msg::MsgHandleModel {
                        msg_type: RpcMsgType::Request,
                        peer_id: self.spec_peer_id(),
                        peer_uri: self.spec_peer_uri(),
                        msg: msg@,
                    },
                )
            } else {
                *final(dispatcher) == *old(dispatcher)
            },
            final(dispatcher).recv_req() == old(dispatcher).recv_req(),
            final(dispatcher).send_resp() == old(dispatcher).send_resp(),
            final(dispatcher).recv_resp() == old(dispatcher).recv_resp(),
            final(dispatcher).spec_network() == old(dispatcher).spec_network(),
    {
        if !matches!(self.status, RpcSessionStatus::Connected) {
            return false;
        }
        let mut msg_handle = RpcMsgHandle::default();
        msg_handle.set_msg(msg);
        msg_handle.peer_id = self.peer_id;
        msg_handle.peer_uri = self.peer_uri.clone();
        dispatcher.push_req(msg_handle);
        true
    }

    /// Marks the session disconnected; refused, changing nothing, exactly
    /// when the session is not connected.
    pub fn disconnect(&mut self) -> (r: bool)
        ensures
            r == (old(self).spec_status() == RpcSessionStatus::Connected),
            final(self).spec_peer_id() == old(self).spec_peer_id(),
            final(self).spec_peer_uri() == old(self).spec_peer_uri(),
            final(self).spec_status() == if r {
                RpcSessionStatus::Disconnected
            } else {
                old(self).spec_status()
            },
    {
        if !matches!(self.status, RpcSessionStatus::Connected) {
            return false;
        }
        self.status = RpcSessionStatus::Disconnected;
        true
    }
}

} // verus!
