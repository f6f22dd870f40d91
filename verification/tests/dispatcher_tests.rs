use secrpc::codec::encode_msg;
use secrpc::dispatcher::RpcDispatcher;
use secrpc::errors::RpcError;
use secrpc::frame::frame_msg;
use secrpc::msg::{RpcMsgHandle, RpcOnceMsg};
use secrpc::network::CompletionOpcode;
use secrpc::srpc_core::{CbRegistry, RecordingCallBack};

fn request_to(peer_id: u32, tag: u8, payload: &[u8]) -> RpcMsgHandle {
    let mut msg = RpcOnceMsg::default();
    msg.req_type = tag;
    msg.payload.set_data(payload.to_vec());
    let mut handle = RpcMsgHandle::default();
    handle.set_msg(msg);
    handle.peer_id = peer_id;
    handle
}

fn wire_frame(mr_size: usize, tag: u8, payload: &[u8]) -> Vec<u8> {
    let mut msg = RpcOnceMsg::default();
    msg.req_type = tag;
    msg.payload.set_data(payload.to_vec());
    let bin = encode_msg(&msg).unwrap();
    frame_msg(&bin, mr_size).unwrap()
}

#[test]
fn run_loop_drains_exactly_the_items_present() {
    let mut d = RpcDispatcher::new_arc(64);
    let mut reg: CbRegistry<RecordingCallBack> = CbRegistry::new();
    d.connect_to(1, "peer").unwrap();
    for _ in 0..3 {
        d.push_req(request_to(1, 2, b"x"));
    }
    let (posts, dropped) = d.run_loop_once(&mut reg);
    assert_eq!(posts.len(), 3);
    assert_eq!(dropped, 0);
    // The queue was drained: a second turn finds nothing.
    let (posts, dropped) = d.run_loop_once(&mut reg);
    assert_eq!(posts.len(), 0);
    assert_eq!(dropped, 0);
}

#[test]
fn sends_are_posted_in_drain_order() {
    let mut d = RpcDispatcher::new_arc(64);
    let mut reg: CbRegistry<RecordingCallBack> = CbRegistry::new();
    d.connect_to(1, "peer").unwrap();
    d.push_req(request_to(1, 2, b"first"));
    d.push_req(request_to(1, 2, b"second"));
    let (posts, _) = d.run_loop_once(&mut reg);
    assert_eq!(posts.len(), 2);
    // Work-request ids are assigned at post time and strictly increase.
    assert!(posts[0].recv.wr_id < posts[0].send.wr_id);
    assert!(posts[0].send.wr_id < posts[1].recv.wr_id);
    assert!(posts[1].recv.wr_id < posts[1].send.wr_id);
    assert_eq!(posts[0].send.frame, wire_frame(64, 2, b"first"));
    assert_eq!(posts[1].send.frame, wire_frame(64, 2, b"second"));
}

#[test]
fn unknown_peer_is_dropped_and_dispatcher_stays_healthy() {
    let mut d = RpcDispatcher::new_arc(64);
    let mut reg: CbRegistry<RecordingCallBack> = CbRegistry::new();
    d.push_req(request_to(42, 1, b"nobody home"));
    let (posts, dropped) = d.run_loop_once(&mut reg);
    assert_eq!(posts.len(), 0);
    // The drop is reported for the caller's log.
    assert_eq!(dropped, 1);
    // The dispatcher still serves a real session afterwards.
    d.connect_to(5, "peer").unwrap();
    d.push_req(request_to(5, 1, b"works"));
    let (posts, dropped) = d.run_loop_once(&mut reg);
    assert_eq!(posts.len(), 1);
    assert_eq!(dropped, 0);
}

#[test]
fn oversized_payload_is_dropped_before_any_post() {
    let mut d = RpcDispatcher::new_arc(64);
    let mut reg: CbRegistry<RecordingCallBack> = CbRegistry::new();
    d.connect_to(1, "peer").unwrap();
    // The encoded message exceeds mr_size - 2.
    d.push_req(request_to(1, 1, &vec![0u8; 64]));
    let (posts, dropped) = d.run_loop_once(&mut reg);
    assert_eq!(posts.len(), 0);
    assert_eq!(dropped, 1);
}

#[test]
fn inbound_request_reaches_exactly_its_handler() {
    let mut d = RpcDispatcher::new_arc(128);
    let mut reg: CbRegistry<RecordingCallBack> = CbRegistry::new();
    reg.register(1, RecordingCallBack::new());
    reg.register(9, RecordingCallBack::new());
    let frame = wire_frame(128, 1, b"ping");
    d.on_recv_msg(0, &frame).unwrap();
    let (_, dropped) = d.run_loop_once(&mut reg);
    assert_eq!(dropped, 0);
    let seen = &reg.get(1).unwrap().seen;
    assert_eq!(seen.len(), 1);
    assert_eq!(seen[0].msg.payload.msg_data, b"ping".to_vec());
    // The other handler saw nothing.
    assert_eq!(reg.get(9).unwrap().seen.len(), 0);
    // Invoked exactly once: a second turn adds nothing.
    let _ = d.run_loop_once(&mut reg);
    assert_eq!(reg.get(1).unwrap().seen.len(), 1);
}

#[test]
fn tag_mismatch_is_dropped_and_service_continues() {
    let mut d = RpcDispatcher::new_arc(128);
    let mut reg: CbRegistry<RecordingCallBack> = CbRegistry::new();
    reg.register(1, RecordingCallBack::new());
    // A frame with an unregistered tag is dropped.
    let stray = wire_frame(128, 2, b"stray");
    d.on_recv_msg(0, &stray).unwrap();
    let (_, dropped) = d.run_loop_once(&mut reg);
    assert_eq!(dropped, 1);
    assert_eq!(reg.get(1).unwrap().seen.len(), 0);
    // A later frame with the registered tag still dispatches.
    let good = wire_frame(128, 1, b"good");
    d.on_recv_msg(0, &good).unwrap();
    let (_, dropped) = d.run_loop_once(&mut reg);
    assert_eq!(dropped, 0);
    assert_eq!(reg.get(1).unwrap().seen.len(), 1);
}

#[test]
fn codec_garble_is_dropped_with_decode_error() {
    let mut d = RpcDispatcher::new_arc(64);
    let mut reg: CbRegistry<RecordingCallBack> = CbRegistry::new();
    reg.register(1, RecordingCallBack::new());
    // Random trailing-length bytes: the trailer names 0xFFFF bytes.
    let mut garbled = vec![0u8; 64];
    garbled[62] = 0xFF;
    garbled[63] = 0xFF;
    assert_eq!(d.on_recv_msg(0, &garbled), Err(RpcError::DecodeError));
    // A frame of the wrong size is a decode error too.
    assert_eq!(d.on_recv_msg(0, &[0u8; 32]), Err(RpcError::DecodeError));
    // The next well-formed frame still dispatches.
    let good = wire_frame(64, 1, b"ok");
    assert!(d.on_recv_msg(0, &good).is_ok());
    let _ = d.run_loop_once(&mut reg);
    assert_eq!(reg.get(1).unwrap().seen.len(), 1);
}

#[test]
fn completion_handling() {
    let mut d = RpcDispatcher::new_arc(64);
    let mut reg: CbRegistry<RecordingCallBack> = CbRegistry::new();
    reg.register(1, RecordingCallBack::new());
    d.connect_to(1, "peer").unwrap();
    d.push_req(request_to(1, 1, b"out"));
    let (posts, _) = d.run_loop_once(&mut reg);
    assert_eq!(posts.len(), 1);
    // A send completion frees the send region.
    assert_eq!(d.handle_completion(CompletionOpcode::Send, posts[0].send.wr_id, &[]), Ok(()));
    assert_eq!(d.network().get_smr_index_by_wr_id(posts[0].send.wr_id), None);
    // A receive completion with an unknown id is reported.
    assert_eq!(
        d.handle_completion(CompletionOpcode::Recv, 999, &[0u8; 64]),
        Err(RpcError::CompletionError)
    );
    // A genuine receive completion decodes, dispatches and frees.
    let inbound = wire_frame(64, 1, b"in");
    assert_eq!(d.handle_completion(CompletionOpcode::Recv, posts[0].recv.wr_id, &inbound), Ok(()));
    assert_eq!(d.network().get_rmr_index_by_wr_id(posts[0].recv.wr_id), None);
    let _ = d.run_loop_once(&mut reg);
    assert_eq!(reg.get(1).unwrap().seen.len(), 1);
    assert_eq!(reg.get(1).unwrap().seen[0].msg.payload.msg_data, b"in".to_vec());
}

#[test]
fn completion_error_releases_the_region() {
    let mut d = RpcDispatcher::new_arc(64);
    let mut reg: CbRegistry<RecordingCallBack> = CbRegistry::new();
    d.connect_to(1, "peer").unwrap();
    d.push_req(request_to(1, 1, b"doomed"));
    let (posts, _) = d.run_loop_once(&mut reg);
    assert_eq!(posts.len(), 1);
    // An errored completion must not leak its region: both ids are
    // released, and the queue pair is not torn down.
    assert_eq!(
        d.handle_completion(CompletionOpcode::Other, posts[0].recv.wr_id, &[]),
        Err(RpcError::CompletionError)
    );
    assert_eq!(d.network().get_rmr_index_by_wr_id(posts[0].recv.wr_id), None);
    assert_eq!(
        d.handle_completion(CompletionOpcode::Other, posts[0].send.wr_id, &[]),
        Err(RpcError::CompletionError)
    );
    assert_eq!(d.network().get_smr_index_by_wr_id(posts[0].send.wr_id), None);
    // The session still serves sends afterwards.
    d.push_req(request_to(1, 1, b"alive"));
    let (posts, dropped) = d.run_loop_once(&mut reg);
    assert_eq!(posts.len(), 1);
    assert_eq!(dropped, 0);
}
