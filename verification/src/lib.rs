//! A user-space Remote Procedure Call runtime whose data plane rides on
//! reliable-connected RDMA queue pairs.  This crate holds the verified
//! core: the wire codec, the fixed-size frame layout, the memory-region
//! bookkeeping, the network engine's decision logic, the dispatcher, and
//! the RPC core lifecycle.  The hardware binding and the handshake
//! transport live outside the crate and talk to it through plain values:
//! frames in, post descriptors and completions out.

pub mod codec;
pub mod conf;
pub mod dispatcher;
pub mod errors;
pub mod frame;
pub mod msg;
pub mod network;
pub mod pool;
pub mod session;
pub mod srpc_core;
