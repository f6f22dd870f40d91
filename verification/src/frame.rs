//! Wire framing: a message's encoding is carried inside a fixed-size frame
//! of `mr_size` bytes.  Bytes `[0, raw_len)` hold the encoding, the bytes
//! up to `mr_size - 2` are zero padding, and the last two bytes hold
//! `raw_len` big-endian.
use vstd::prelude::*;

use crate::errors::RpcError;
use crate::msg::OnceMsgModel;

verus! {

/// The two trailer bytes of a frame, big-endian.
pub open spec fn spec_u16_to_be_bytes(x: u16) -> Seq<u8> {
    seq![((x >> 8) & 0xff) as u8, (x & 0xff) as u8]
}

/// The length read back from the two trailer bytes.
pub open spec fn spec_u16_from_be_bytes(hi: u8, lo: u8) -> u16 {
    (((hi as u16) << 8) | (lo as u16)) as u16
}

/// Law: the trailer round-trips through its two bytes.
pub proof fn lemma_be16_round_trip(x: u16)
    ensures
        spec_u16_from_be_bytes(spec_u16_to_be_bytes(x)[0], spec_u16_to_be_bytes(x)[1]) == x,
{
    assert((((((x >> 8) & 0xff) as u8) as u16) << 8) | (((x & 0xff) as u8) as u16) == x)
        by (bit_vector);
}

/// A payload of `len` bytes fits a frame of `mr_size` bytes when it leaves
/// room for the two trailer bytes, which also cap it at 65535.
pub open spec fn frame_ok(len: int, mr_size: int) -> bool {
    &&& len + 2 <= mr_size
    &&& len <= 0xffff
}

/// The frame carrying `payload` in a region of `mr_size` bytes.
pub open spec fn spec_frame(payload: Seq<u8>, mr_size: int) -> Seq<u8>
    recommends
        frame_ok(payload.len() as int, mr_size),
{
    payload + Seq::<u8>::new((mr_size - 2 - payload.len()) as nat, |i: int| 0u8)
        + spec_u16_to_be_bytes(payload.len() as u16)
}

/// The payload carried by a frame: the prefix whose length the trailer
/// names, or `None` when the trailer names more bytes than the frame has.
pub open spec fn spec_unframe(f: Seq<u8>) -> Option<Seq<u8>> {
    if f.len() >= 2 {
        let raw_len = spec_u16_from_be_bytes(f[f.len() - 2], f[f.len() - 1]) as int;
        if raw_len + 2 <= f.len() {
            Some(f.subrange(0, raw_len))
        } else {
            None
        }
    } else {
        None
    }
}

/// Law: a framed payload is read back unchanged.
pub proof fn lemma_frame_round_trip(payload: Seq<u8>, mr_size: int)
    requires
        mr_size >= 3,
        frame_ok(payload.len() as int, mr_size),
    ensures
        spec_frame(payload, mr_size).len() == mr_size,
        spec_unframe(spec_frame(payload, mr_size)) == Some(payload),
{
    let f = spec_frame(payload, mr_size);
    let len = payload.len() as u16;
    lemma_be16_round_trip(len);
    assert(f[f.len() - 2] == spec_u16_to_be_bytes(len)[0]);
    assert(f[f.len() - 1] == spec_u16_to_be_bytes(len)[1]);
    assert(f.subrange(0, len as int) =~= payload);
}

/// Law: a message whose encoding fits the frame comes back unchanged
/// from framing, unframing and decoding.
pub proof fn lemma_message_frame_round_trip(m: OnceMsgModel, mr_size: int)
    requires
        crate::codec::msg_encodable(m),
        mr_size >= 3,
        frame_ok(crate::codec::spec_encode_msg(m).len() as int, mr_size),
    ensures
        spec_unframe(spec_frame(crate::codec::spec_encode_msg(m), mr_size)) == Some(
            crate::codec::spec_encode_msg(m),
        ),
        crate::codec::spec_decode_msg(
            spec_unframe(spec_frame(crate::codec::spec_encode_msg(m), mr_size)).unwrap(),
        ) == Some(m),
{
    lemma_frame_round_trip(crate::codec::spec_encode_msg(m), mr_size);
    crate::codec::lemma_msg_round_trip(m);
}

/// Writes `payload` into a fresh frame of `mr_size` bytes, zero padding in
/// the middle and the payload length big-endian in the last two bytes.
/// Fails with `OversizedPayload`, before anything is posted, exactly when
/// the payload does not fit.
pub fn frame_msg(payload: &Vec<u8>, mr_size: usize) -> (r: Result<Vec<u8>, RpcError>)
    requires
        mr_size >= 3,
    ensures
        match r {
            Ok(f) => {
                &&& frame_ok(payload@.len() as int, mr_size as int)
                &&& f@ == spec_frame(payload@, mr_size as int)
                &&& f@.len() == mr_size
            },
            Err(e) => {
                &&& e == RpcError::OversizedPayload
                &&& !frame_ok(payload@.len() as int, mr_size as int)
            },
        },
{
    if payload.len() > 0xffff || payload.len() > mr_size - 2 {
        return Err(RpcError::OversizedPayload);
    }
    let raw_len: u16 = payload.len() as u16;
    let mut f: Vec<u8> = Vec::new();
    let mut i: usize = 0;
    while i < payload.len()
        invariant
            i <= payload@.len(),
            f@ == payload@.subrange(0, i as int),
        decreases payload@.len() - i,
    {
        f.push(payload[i]);
        i = i + 1;
        proof {
            assert(f@ == payload@.subrange(0, i as int));
        }
    }
    proof {
        assert(payload@.subrange(0, payload@.len() as int) == payload@);
    }
    while f.len() < mr_size - 2
        invariant
            payload@.len() <= f@.len() <= mr_size - 2,
            f@.subrange(0, payload@.len() as int) == payload@,
            forall|j: int| payload@.len() <= j < f@.len() ==> f@[j] == 0u8,
        decreases mr_size - 2 - f@.len(),
    {
        f.push(0u8);
        proof {
            assert(f@.subrange(0, payload@.len() as int) == payload@);
        }
    }
    f.push((raw_len >> 8) as u8);
    f.push((raw_len & 0xff) as u8);
    proof {
        assert((raw_len >> 8) as u8 == ((raw_len >> 8) & 0xff) as u8) by (bit_vector);
        assert(f@ =~= spec_frame(payload@, mr_size as int));
    }
    Ok(f)
}

/// Reads the payload back out of a frame: the prefix whose length the
/// trailer names.  Fails with `DecodeError` exactly when the trailer names
/// more bytes than the frame has room for.
pub fn unframe_msg(frame: &[u8]) -> (r: Result<Vec<u8>, RpcError>)
    ensures
        match r {
            Ok(p) => spec_unframe(frame@) == Some(p@),
            Err(e) => e == RpcError::DecodeError && spec_unframe(frame@) is None,
        },
{
    if frame.len() < 2 {
        return Err(RpcError::DecodeError);
    }
    let hi = *vstd::slice::slice_index_get(frame, frame.len() - 2);
    let lo = *vstd::slice::slice_index_get(frame, frame.len() - 1);
    let raw_len: u16 = ((hi as u16) << 8) | (lo as u16);
    if (raw_len as usize) > frame.len() - 2 {
        return Err(RpcError::DecodeError);
    }
    let payload = vstd::slice::slice_to_vec(
        vstd::slice::slice_subrange(frame, 0, raw_len as usize),
    );
    Ok(payload)
}

} // verus!
