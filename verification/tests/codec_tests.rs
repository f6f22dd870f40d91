use secrpc::codec::{decode_msg, deserialize_endpoint, encode_msg, serialize_endpoint, QpEndpoint};
use secrpc::msg::{RpcMsgPayload, RpcOnceMsg};

fn sample_gid() -> Vec<u8> {
    (0u8..16u8).collect()
}

#[test]
fn endpoint_round_trip() {
    let e = QpEndpoint::new(5, 77, 99, sample_gid());
    let bin = serialize_endpoint(&e);
    assert_eq!(bin.len(), 26);
    let d = deserialize_endpoint(&bin).expect("an encoded endpoint decodes");
    assert_eq!(d.lid, 5);
    assert_eq!(d.qpn, 77);
    assert_eq!(d.psn, 99);
    assert_eq!(d.gid, sample_gid());
}

#[test]
fn endpoint_exact_bytes() {
    let e = QpEndpoint::new(0x0102, 0x03040506, 0x0708090a, sample_gid());
    let bin = serialize_endpoint(&e);
    let mut expected = vec![0x02, 0x01, 0x06, 0x05, 0x04, 0x03, 0x0a, 0x09, 0x08, 0x07];
    expected.extend(sample_gid());
    assert_eq!(bin, expected);
}

#[test]
fn endpoint_wrong_length_rejected() {
    assert!(deserialize_endpoint(&vec![0u8; 25]).is_none());
    assert!(deserialize_endpoint(&vec![0u8; 27]).is_none());
    assert!(deserialize_endpoint(&Vec::new()).is_none());
}

#[test]
fn msg_round_trip() {
    let mut msg = RpcOnceMsg::default();
    msg.req_type = 3;
    msg.src_id = 12;
    msg.msg_id = 998877;
    msg.payload.set_data(b"hello".to_vec());
    let bin = encode_msg(&msg).expect("a small message encodes");
    let back = decode_msg(&bin).expect("an encoded message decodes");
    assert_eq!(back.req_type, 3);
    assert_eq!(back.src_id, 12);
    assert_eq!(back.msg_id, 998877);
    assert_eq!(back.payload.msg_data, b"hello".to_vec());
}

#[test]
fn msg_exact_bytes() {
    let msg = RpcOnceMsg {
        req_type: 7,
        src_id: 0x01020304,
        msg_id: 0x1122334455667788,
        payload: RpcMsgPayload { msg_data: vec![0xAA, 0xBB] },
    };
    let bin = encode_msg(&msg).unwrap();
    let expected = vec![
        7, // request tag
        0x04, 0x03, 0x02, 0x01, // source id, little-endian
        0x88, 0x77, 0x66, 0x55, 0x44, 0x33, 0x22, 0x11, // message id, little-endian
        2, 0, 0, 0, // payload length, little-endian
        0xAA, 0xBB, // payload
    ];
    assert_eq!(bin, expected);
}

#[test]
fn msg_empty_payload() {
    let msg = RpcOnceMsg::default();
    let bin = encode_msg(&msg).unwrap();
    assert_eq!(bin.len(), 17);
    let back = decode_msg(&bin).unwrap();
    assert_eq!(back.payload.msg_data.len(), 0);
}

#[test]
fn msg_bad_bytes_rejected() {
    // Too short to hold a header.
    assert!(decode_msg(&[0u8; 16]).is_none());
    // Length prefix does not match the bytes that follow.
    let mut msg = RpcOnceMsg::default();
    msg.payload.set_data(vec![1, 2, 3]);
    let mut bin = encode_msg(&msg).unwrap();
    bin.push(0);
    assert!(decode_msg(&bin).is_none());
}
