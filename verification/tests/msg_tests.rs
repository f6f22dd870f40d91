use secrpc::msg::{RpcMsg, RpcMsgHandle, RpcMsgPayload, RpcMsgType, RpcOnceMsg, RpcStreamMsg};

#[test]
fn payload_default_and_set() {
    let mut p = RpcMsgPayload::default();
    assert_eq!(p.msg_data.len(), 0);
    p.set_data(vec![1, 2, 3]);
    assert_eq!(p.msg_data, vec![1, 2, 3]);
}

#[test]
fn once_msg_default_is_zeroed() {
    let m = RpcOnceMsg::default();
    assert_eq!(m.req_type, 0);
    assert_eq!(m.src_id, 0);
    assert_eq!(m.msg_id, 0);
    assert_eq!(m.payload.msg_data.len(), 0);
}

#[test]
fn stream_msg_default_is_zeroed() {
    let m = RpcStreamMsg::default();
    assert_eq!(m.req_type, 0);
    assert_eq!(m.req_id, 0);
    assert_eq!(m.seq_id, 0);
    assert_eq!(m.src_id, 0);
    assert_eq!(m.msg_id, 0);
    assert_eq!(m.payload.msg_data.len(), 0);
}

#[test]
fn handle_default_is_a_request() {
    let h = RpcMsgHandle::default();
    assert_eq!(h.msg_type, RpcMsgType::Request);
    assert_eq!(h.peer_id, 0);
    assert_eq!(h.peer_uri, String::new());
}

#[test]
fn handle_set_msg_keeps_routing() {
    let mut h = RpcMsgHandle::default();
    h.peer_id = 4;
    h.peer_uri = "tcp://p".to_string();
    let mut m = RpcOnceMsg::default();
    m.req_type = 9;
    h.set_msg(m);
    assert_eq!(h.msg.req_type, 9);
    assert_eq!(h.peer_id, 4);
    assert_eq!(h.peer_uri, "tcp://p".to_string());
}

#[test]
fn handle_clone_is_deep() {
    let mut h = RpcMsgHandle::default();
    h.peer_id = 8;
    let mut m = RpcOnceMsg::default();
    m.payload.set_data(b"copy me".to_vec());
    h.set_msg(m);
    let c = h.clone();
    assert_eq!(c.peer_id, 8);
    assert_eq!(c.msg.payload.msg_data, b"copy me".to_vec());
}

#[test]
fn either_kind_of_message() {
    let once = RpcMsg::Once(RpcOnceMsg::default());
    let stream = RpcMsg::Stream(RpcStreamMsg::default());
    assert!(matches!(once, RpcMsg::Once(_)));
    assert!(matches!(stream, RpcMsg::Stream(_)));
}
