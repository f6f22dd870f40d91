//! Runtime configuration: the peer handshake addresses and the memory
//! region (frame) size.  Parsing the process arguments and holding the
//! process-wide singleton happen outside the crate; the crate only keeps
//! the validated values.
use vstd::prelude::*;

verus! {

/// The configuration every component reads: the remote handshake
/// addresses and the local memory-region size in bytes.
#[derive(Debug)]
pub struct RpcConf {
    pub rmt_grpc_uri: Vec<String>,
    pub loc_mr_size: u32,
}

impl RpcConf {
    /// An empty configuration: no peers, no region size yet.
    pub fn new_singleton() -> (r: RpcConf)
        ensures
            r.rmt_grpc_uri@.len() == 0,
            r.loc_mr_size == 0,
    {
        RpcConf { rmt_grpc_uri: Vec::new(), loc_mr_size: 0 }
    }

    /// A configuration from explicit values; the region size must leave
    /// room for a frame's two trailer bytes and one payload byte.
    pub fn new(rmt_grpc_uri: Vec<String>, loc_mr_size: u32) -> (r: RpcConf)
        requires
            loc_mr_size >= 3,
        ensures
            r.rmt_grpc_uri@ == rmt_grpc_uri@,
            r.loc_mr_size == loc_mr_size,
    {
        RpcConf { rmt_grpc_uri, loc_mr_size }
    }
}

} // verus!
