//! The wire codec: a stable, ordered binary encoding for queue-pair
//! endpoints and one-shot messages.  Fields appear in a fixed order,
//! integers are little-endian, and byte strings are length-prefixed, so
//! every value has exactly one encoding and every encoding decodes back to
//! the value it came from.
use vstd::bytes::*;
use vstd::prelude::*;

use crate::msg::{OnceMsgModel, RpcMsgPayload, RpcOnceMsg};

verus! {

/// Mathematical model of a queue-pair endpoint.
pub struct EndpointModel {
    pub lid: u16,
    pub qpn: u32,
    pub psn: u32,
    pub gid: Seq<u8>,
}

/// The minimum information needed to reach one end of a queue pair from
/// the other side: local identifier, queue number, packet sequence number,
/// and the 16-byte global identifier.
#[derive(Debug)]
pub struct QpEndpoint {
    pub lid: u16,
    pub qpn: u32,
    pub psn: u32,
    pub gid: Vec<u8>,
}

impl View for QpEndpoint {
    type V = EndpointModel;

    open spec fn view(&self) -> EndpointModel {
        EndpointModel { lid: self.lid, qpn: self.qpn, psn: self.psn, gid: self.gid@ }
    }
}

/// An endpoint is well formed when its global identifier has exactly 16
/// bytes.
pub open spec fn endpoint_wf(e: EndpointModel) -> bool {
    e.gid.len() == 16
}

impl QpEndpoint {
    /// Builds an endpoint from its four fields; the global identifier must
    /// hold exactly 16 bytes.
    pub fn new(lid: u16, qpn: u32, psn: u32, gid: Vec<u8>) -> (r: QpEndpoint)
        requires
            gid@.len() == 16,
        ensures
            r@ == (EndpointModel { lid, qpn, psn, gid: gid@ }),
            endpoint_wf(r@),
    {
        QpEndpoint { lid, qpn, psn, gid }
    }
}

/// Number of bytes in an encoded endpoint: 2 + 4 + 4 + 16.
pub open spec fn endpoint_enc_len() -> int {
    26
}

/// The encoding of an endpoint: little-endian local identifier, queue
/// number and packet sequence number, then the global identifier verbatim.
pub open spec fn spec_encode_endpoint(e: EndpointModel) -> Seq<u8> {
    spec_u16_to_le_bytes(e.lid) + spec_u32_to_le_bytes(e.qpn) + spec_u32_to_le_bytes(e.psn) + e.gid
}

/// The decoding of an endpoint byte string; `None` unless the length is
/// exactly that of an encoded endpoint.
pub open spec fn spec_decode_endpoint(b: Seq<u8>) -> Option<EndpointModel> {
    if b.len() == endpoint_enc_len() {
        Some(
            EndpointModel {
                lid: spec_u16_from_le_bytes(b.subrange(0, 2)),
                qpn: spec_u32_from_le_bytes(b.subrange(2, 6)),
                psn: spec_u32_from_le_bytes(b.subrange(6, 10)),
                gid: b.subrange(10, 26),
            },
        )
    } else {
        None
    }
}

/// Law: decoding an encoded endpoint yields the endpoint back.
pub proof fn lemma_endpoint_round_trip(e: EndpointModel)
    requires
        endpoint_wf(e),
    ensures
        spec_encode_endpoint(e).len() == endpoint_enc_len(),
        spec_decode_endpoint(spec_encode_endpoint(e)) == Some(e),
{
    lemma_auto_spec_u16_to_from_le_bytes();
    lemma_auto_spec_u32_to_from_le_bytes();
    let b = spec_encode_endpoint(e);
    assert(b.subrange(0, 2) =~= spec_u16_to_le_bytes(e.lid));
    assert(b.subrange(2, 6) =~= spec_u32_to_le_bytes(e.qpn));
    assert(b.subrange(6, 10) =~= spec_u32_to_le_bytes(e.psn));
    assert(b.subrange(10, 26) =~= e.gid);
}

/// Serializes an endpoint into its stable byte-string form.
pub fn serialize_endpoint(endpoint: &QpEndpoint) -> (r: Vec<u8>)
    requires
        endpoint_wf(endpoint@),
    ensures
        r@ == spec_encode_endpoint(endpoint@),
        r@.len() == endpoint_enc_len(),
{
    let mut out = u16_to_le_bytes(endpoint.lid);
    let mut qpn = u32_to_le_bytes(endpoint.qpn);
    let mut psn = u32_to_le_bytes(endpoint.psn);
    out.append(&mut qpn);
    out.append(&mut psn);
    let mut i: usize = 0;
    while i < endpoint.gid.len()
        invariant
            i <= endpoint.gid@.len(),
            out@ == spec_u16_to_le_bytes(endpoint@.lid) + spec_u32_to_le_bytes(endpoint@.qpn)
                + spec_u32_to_le_bytes(endpoint@.psn) + endpoint@.gid.subrange(0, i as int),
        decreases endpoint.gid@.len() - i,
    {
        out.push(endpoint.gid[i]);
        i = i + 1;
        proof {
            assert(out@ == spec_u16_to_le_bytes(endpoint@.lid) + spec_u32_to_le_bytes(
                endpoint@.qpn,
            ) + spec_u32_to_le_bytes(endpoint@.psn) + endpoint@.gid.subrange(0, i as int));
        }
    }
    proof {
        assert(endpoint@.gid.subrange(0, endpoint@.gid.len() as int) == endpoint@.gid);
        lemma_auto_spec_u16_to_from_le_bytes();
        lemma_auto_spec_u32_to_from_le_bytes();
    }
    out
}

/// Deserializes an endpoint byte string; `None` exactly when the bytes are
/// not an encoded endpoint.
pub fn deserialize_endpoint(endpoint_bin: &Vec<u8>) -> (r: Option<QpEndpoint>)
    ensures
        match r {
            Some(e) => spec_decode_endpoint(endpoint_bin@) == Some(e@) && endpoint_wf(e@),
            None => spec_decode_endpoint(endpoint_bin@) is None,
        },
{
    if endpoint_bin.len() != 26 {
        return None;
    }
    let b = endpoint_bin.as_slice();
    let lid = u16_from_le_bytes(vstd::slice::slice_subrange(b, 0, 2));
    let qpn = u32_from_le_bytes(vstd::slice::slice_subrange(b, 2, 6));
    let psn = u32_from_le_bytes(vstd::slice::slice_subrange(b, 6, 10));
    let gid = vstd::slice::slice_to_vec(vstd::slice::slice_subrange(b, 10, 26));
    Some(QpEndpoint { lid, qpn, psn, gid })
}

/// Number of bytes before the payload in an encoded message:
/// 1 + 4 + 8 + 4.
pub open spec fn msg_header_len() -> int {
    17
}

/// A message is encodable when its payload length fits the 32-bit length
/// prefix.
pub open spec fn msg_encodable(m: OnceMsgModel) -> bool {
    m.payload.len() <= 0xffff_ffff
}

/// The encoding of a one-shot message: request tag, then little-endian
/// source id, message id and payload length, then the payload verbatim.
pub open spec fn spec_encode_msg(m: OnceMsgModel) -> Seq<u8> {
    seq![m.req_type] + spec_u32_to_le_bytes(m.src_id) + spec_u64_to_le_bytes(m.msg_id)
        + spec_u32_to_le_bytes(m.payload.len() as u32) + m.payload
}

/// The decoding of a message byte string; `None` unless the bytes are
/// exactly one encoded message.
pub open spec fn spec_decode_msg(b: Seq<u8>) -> Option<OnceMsgModel> {
    if b.len() >= msg_header_len() {
        let plen = spec_u32_from_le_bytes(b.subrange(13, 17));
        if b.len() == msg_header_len() + plen {
            Some(
                OnceMsgModel {
                    req_type: b[0],
                    src_id: spec_u32_from_le_bytes(b.subrange(1, 5)),
                    msg_id: spec_u64_from_le_bytes(b.subrange(5, 13)),
                    payload: b.subrange(17, b.len() as int),
                },
            )
        } else {
            None
        }
    } else {
        None
    }
}

/// Law: decoding an encoded message yields the message back.
pub proof fn lemma_msg_round_trip(m: OnceMsgModel)
    requires
        msg_encodable(m),
    ensures
        spec_encode_msg(m).len() == msg_header_len() + m.payload.len(),
        spec_decode_msg(spec_encode_msg(m)) == Some(m),
{
    lemma_auto_spec_u32_to_from_le_bytes();
    lemma_auto_spec_u64_to_from_le_bytes();
    let b = spec_encode_msg(m);
    assert(b.subrange(1, 5) =~= spec_u32_to_le_bytes(m.src_id));
    assert(b.subrange(5, 13) =~= spec_u64_to_le_bytes(m.msg_id));
    assert(b.subrange(13, 17) =~= spec_u32_to_le_bytes(m.payload.len() as u32));
    assert(b.subrange(17, b.len() as int) =~= m.payload);
}

/// Encodes a one-shot message; `None` exactly when the payload is too long
/// for the 32-bit length prefix.
pub fn encode_msg(msg: &RpcOnceMsg) -> (r: Option<Vec<u8>>)
    ensures
        match r {
            Some(b) => msg_encodable(msg@) && b@ == spec_encode_msg(msg@),
            None => !msg_encodable(msg@),
        },
{
    if msg.payload.msg_data.len() > 0xffff_ffff_usize {
        return None;
    }
    let plen: u32 = msg.payload.msg_data.len() as u32;
    let mut out: Vec<u8> = Vec::new();
    out.push(msg.req_type);
    let mut src = u32_to_le_bytes(msg.src_id);
    let mut mid = u64_to_le_bytes(msg.msg_id);
    let mut pl = u32_to_le_bytes(plen);
    out.append(&mut src);
    out.append(&mut mid);
    out.append(&mut pl);
    let mut i: usize = 0;
    while i < msg.payload.msg_data.len()
        invariant
            i <= msg.payload.msg_data@.len(),
            out@ == seq![msg@.req_type] + spec_u32_to_le_bytes(msg@.src_id)
                + spec_u64_to_le_bytes(msg@.msg_id) + spec_u32_to_le_bytes(
                msg@.payload.len() as u32,
            ) + msg@.payload.subrange(0, i as int),
        decreases msg.payload.msg_data@.len() - i,
    {
        out.push(msg.payload.msg_data[i]);
        i = i + 1;
        proof {
            assert(out@ == seq![msg@.req_type] + spec_u32_to_le_bytes(msg@.src_id)
                + spec_u64_to_le_bytes(msg@.msg_id) + spec_u32_to_le_bytes(
                msg@.payload.len() as u32,
            ) + msg@.payload.subrange(0, i as int));
        }
    }
    proof {
        assert(msg@.payload.subrange(0, msg@.payload.len() as int) == msg@.payload);
    }
    Some(out)
}

/// Decodes a message byte string; `None` exactly when the bytes are not
/// one encoded message.
pub fn decode_msg(bin: &[u8]) -> (r: Option<RpcOnceMsg>)
    ensures
        match r {
            Some(m) => spec_decode_msg(bin@) == Some(m@),
            None => spec_decode_msg(bin@) is None,
        },
{
    if bin.len() < 17 {
        return None;
    }
    let plen = u32_from_le_bytes(vstd::slice::slice_subrange(bin, 13, 17));
    if plen as usize != bin.len() - 17 {
        return None;
    }
    let req_type = *vstd::slice::slice_index_get(bin, 0);
    let src_id = u32_from_le_bytes(vstd::slice::slice_subrange(bin, 1, 5));
    let msg_id = u64_from_le_bytes(vstd::slice::slice_subrange(bin, 5, 13));
    let payload = vstd::slice::slice_to_vec(vstd::slice::slice_subrange(bin, 17, bin.len()));
    Some(RpcOnceMsg { req_type, src_id, msg_id, payload: RpcMsgPayload { msg_data: payload } })
}

} // verus!
