use secrpc::errors::RpcError;
use secrpc::frame::{frame_msg, unframe_msg};

#[test]
fn frame_round_trip() {
    let payload = b"abcdef".to_vec();
    let frame = frame_msg(&payload, 64).expect("six bytes fit a 64-byte frame");
    assert_eq!(frame.len(), 64);
    let back = unframe_msg(&frame).expect("a well-formed frame unframes");
    assert_eq!(back, payload);
}

#[test]
fn frame_exact_layout() {
    let payload = vec![1u8, 2, 3];
    let frame = frame_msg(&payload, 8).unwrap();
    assert_eq!(frame, vec![1, 2, 3, 0, 0, 0, 0, 3]);
}

#[test]
fn frame_trailer_is_big_endian() {
    let payload = vec![9u8; 300];
    let frame = frame_msg(&payload, 1024).unwrap();
    assert_eq!(frame[1022], 0x01);
    assert_eq!(frame[1023], 0x2c);
}

#[test]
fn oversized_payload_refused_before_any_post() {
    // One byte too many for the two trailer bytes.
    let payload = vec![0u8; 63];
    assert_eq!(frame_msg(&payload, 64), Err(RpcError::OversizedPayload));
    // The trailer caps a payload at 65535 bytes however large the frame.
    let payload = vec![0u8; 70000];
    assert_eq!(frame_msg(&payload, 1048576), Err(RpcError::OversizedPayload));
}

#[test]
fn smallest_frame() {
    let frame = frame_msg(&vec![0xEE], 3).unwrap();
    assert_eq!(frame, vec![0xEE, 0, 1]);
    assert_eq!(unframe_msg(&frame).unwrap(), vec![0xEE]);
}

#[test]
fn garbled_trailer_rejected() {
    // The trailer names more bytes than the frame holds.
    let mut frame = vec![0u8; 64];
    frame[62] = 0xFF;
    frame[63] = 0xFF;
    assert_eq!(unframe_msg(&frame), Err(RpcError::DecodeError));
    // A frame too short to hold a trailer.
    assert_eq!(unframe_msg(&[7u8]), Err(RpcError::DecodeError));
}
