//! Message types carried by the RPC data plane: the opaque payload, the
//! one-shot and stream message records, and the in-memory handle that adds
//! routing metadata (peer id, peer address, request/response classification).
use vstd::prelude::*;

verus! {

/// Opaque payload bytes of a message.
#[derive(Debug)]
pub struct RpcMsgPayload {
    pub msg_data: Vec<u8>,
}

impl View for RpcMsgPayload {
    type V = Seq<u8>;

    open spec fn view(&self) -> Seq<u8> {
        self.msg_data@
    }
}

impl RpcMsgPayload {
    /// An empty payload.
    pub fn default() -> (r: RpcMsgPayload)
        ensures
            r@ == Seq::<u8>::empty(),
    {
        RpcMsgPayload { msg_data: Vec::new() }
    }

    /// Replaces the payload bytes.
    pub fn set_data(&mut self, data: Vec<u8>)
        ensures
            final(self)@ == data@,
    {
        self.msg_data = data;
    }
}

impl Clone for RpcMsgPayload {
    fn clone(&self) -> (r: Self)
        ensures
            r@ == self@,
    {
        RpcMsgPayload { msg_data: clone_bytes(&self.msg_data) }
    }
}

/// Clones a byte vector; the copy holds the same bytes.
pub fn clone_bytes(v: &Vec<u8>) -> (r: Vec<u8>)
    ensures
        r@ == v@,
{
    let mut r: Vec<u8> = Vec::new();
    let mut i: usize = 0;
    while i < v.len()
        invariant
            i <= v.len(),
            r@ == v@.subrange(0, i as int),
        decreases v.len() - i,
    {
        r.push(v[i]);
        i = i + 1;
        proof {
            assert(r@ == v@.subrange(0, i as int));
        }
    }
    proof {
        assert(v@.subrange(0, v@.len() as int) == v@);
    }
    r
}

/// Out-of-band classification of a message.
#[derive(Debug, Clone, Copy, PartialEq, Eq, Structural)]
pub enum RpcMsgType {
    /// Request message type.
    Request,
    /// Response message type.
    Response,
    /// Notification message type.
    Notification,
}

/// Mathematical model of a one-shot message.
pub struct OnceMsgModel {
    pub req_type: u8,
    pub src_id: u32,
    pub msg_id: u64,
    pub payload: Seq<u8>,
}

/// A one-shot request or response: a request tag, the sender's id, a
/// process-unique message id, and the payload bytes.
#[derive(Debug)]
pub struct RpcOnceMsg {
    pub req_type: u8,
    pub src_id: u32,
    pub msg_id: u64,
    pub payload: RpcMsgPayload,
}

impl View for RpcOnceMsg {
    type V = OnceMsgModel;

    open spec fn view(&self) -> OnceMsgModel {
        OnceMsgModel {
            req_type: self.req_type,
            src_id: self.src_id,
            msg_id: self.msg_id,
            payload: self.payload@,
        }
    }
}

impl RpcOnceMsg {
    /// A zeroed message with an empty payload.
    pub fn default() -> (r: RpcOnceMsg)
        ensures
            r@.req_type == 0,
            r@.src_id == 0,
            r@.msg_id == 0,
            r@.payload == Seq::<u8>::empty(),
    {
        RpcOnceMsg { req_type: 0, src_id: 0, msg_id: 0, payload: RpcMsgPayload::default() }
    }
}

impl Clone for RpcOnceMsg {
    fn clone(&self) -> (r: Self)
        ensures
            r@ == self@,
    {
        RpcOnceMsg {
            req_type: self.req_type,
            src_id: self.src_id,
            msg_id: self.msg_id,
            payload: self.payload.clone(),
        }
    }
}

/// Mathematical model of a stream message.
pub struct StreamMsgModel {
    pub req_type: u8,
    pub req_id: u64,
    pub seq_id: u64,
    pub src_id: u32,
    pub msg_id: u64,
    pub payload: Seq<u8>,
}

/// A stream message: declared for a future streaming channel; the current
/// data plane never sends one.
#[derive(Debug)]
pub struct RpcStreamMsg {
    pub req_type: u8,
    pub req_id: u64,
    pub seq_id: u64,
    pub src_id: u32,
    pub msg_id: u64,
    pub payload: RpcMsgPayload,
}

impl View for RpcStreamMsg {
    type V = StreamMsgModel;

    open spec fn view(&self) -> StreamMsgModel {
        StreamMsgModel {
            req_type: self.req_type,
            req_id: self.req_id,
            seq_id: self.seq_id,
            src_id: self.src_id,
            msg_id: self.msg_id,
            payload: self.payload@,
        }
    }
}

impl RpcStreamMsg {
    /// A zeroed stream message with an empty payload.
    pub fn default() -> (r: RpcStreamMsg)
        ensures
            r@.req_type == 0,
            r@.req_id == 0,
            r@.seq_id == 0,
            r@.src_id == 0,
            r@.msg_id == 0,
            r@.payload == Seq::<u8>::empty(),
    {
        RpcStreamMsg {
            req_type: 0,
            req_id: 0,
            seq_id: 0,
            src_id: 0,
            msg_id: 0,
            payload: RpcMsgPayload::default(),
        }
    }
}

/// Either kind of message.
pub enum RpcMsg {
    Once(RpcOnceMsg),
    Stream(RpcStreamMsg),
}

/// Mathematical model of a message handle.
pub struct MsgHandleModel {
    pub msg_type: RpcMsgType,
    pub peer_id: u32,
    pub peer_uri: Seq<char>,
    pub msg: OnceMsgModel,
}

/// A message plus routing metadata, used only in memory and never
/// serialized.
#[derive(Debug)]
pub struct RpcMsgHandle {
    pub msg_type: RpcMsgType,
    pub peer_id: u32,
    pub peer_uri: String,
    pub msg: RpcOnceMsg,
}

impl View for RpcMsgHandle {
    type V = MsgHandleModel;

    open spec fn view(&self) -> MsgHandleModel {
        MsgHandleModel {
            msg_type: self.msg_type,
            peer_id: self.peer_id,
            peer_uri: self.peer_uri@,
            msg: self.msg@,
        }
    }
}

impl RpcMsgHandle {
    /// A request handle addressed to peer 0 with a zeroed message.
    pub fn default() -> (r: RpcMsgHandle)
        ensures
            r@.msg_type == RpcMsgType::Request,
            r@.peer_id == 0,
            r@.peer_uri == Seq::<char>::empty(),
            r@.msg.req_type == 0,
            r@.msg.src_id == 0,
            r@.msg.msg_id == 0,
            r@.msg.payload == Seq::<u8>::empty(),
    {
        RpcMsgHandle {
            msg_type: RpcMsgType::Request,
            peer_id: 0,
            peer_uri: String::new(),
            msg: RpcOnceMsg::default(),
        }
    }

    /// Replaces the carried message.
    pub fn set_msg(&mut self, msg: RpcOnceMsg)
        ensures
            final(self)@.msg == msg@,
            final(self)@.msg_type == old(self)@.msg_type,
            final(self)@.peer_id == old(self)@.peer_id,
            final(self)@.peer_uri == old(self)@.peer_uri,
    {
        self.msg = msg;
    }
}

impl Clone for RpcMsgHandle {
    fn clone(&self) -> (r: Self)
        ensures
            r@ == self@,
    {
        RpcMsgHandle {
            msg_type: self.msg_type,
            peer_id: self.peer_id,
            peer_uri: self.peer_uri.clone(),
            msg: self.msg.clone(),
        }
    }
}

} // verus!
