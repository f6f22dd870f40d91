//! Error kinds of the RPC runtime.  The data plane prefers drop-and-log
//! over termination; the control plane (startup, connect) propagates.
use vstd::prelude::*;

verus! {

/// Everything that can go wrong inside the runtime.
#[derive(Debug, Clone, Copy, PartialEq, Eq, Structural)]
pub enum RpcError {
    /// No RDMA device is present; fatal at startup.
    DeviceUnavailable,
    /// The endpoint exchange with the peer failed.
    HandshakeFailed,
    /// No vacant region was left in a memory-region pool.
    PoolExhausted,
    /// The underlying post operation rejected the request.
    PostFailed,
    /// A work completion carried a non-success status.
    CompletionError,
    /// A frame could not be deserialized; the frame is dropped.
    DecodeError,
    /// No callback is registered for the request tag; the message is dropped.
    UnknownTag,
    /// A send was requested for a peer without a session; the message is
    /// dropped.
    UnknownPeer,
    /// The encoded message does not fit the fixed-size frame; nothing is
    /// posted.
    OversizedPayload,
}

} // verus!
