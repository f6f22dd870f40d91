use secrpc::conf::RpcConf;
use secrpc::msg::{RpcMsgHandle, RpcOnceMsg};
use secrpc::session::{RpcSession, RpcSessionStatus};
use secrpc::srpc_core::{RecordingCallBack, RpcCore};

fn conf(mr_size: u32) -> RpcConf {
    RpcConf::new(vec!["tcp://peer:9000".to_string()], mr_size)
}

#[test]
fn lifecycle_transitions() {
    let mut core: RpcCore<RecordingCallBack> = RpcCore::new(&conf(64));
    assert!(core.start().is_ok());
    // Starting a running core is refused.
    assert_eq!(core.start().unwrap_err(), "The RPC core is already running.".to_string());
    assert!(core.stop().is_ok());
    // Stopping a stopped core is refused.
    assert_eq!(core.stop().unwrap_err(), "The RPC core is not running.".to_string());
    // A stopped core can start again.
    assert!(core.start().is_ok());
}

#[test]
fn callbacks_register_only_while_stopped() {
    let mut core: RpcCore<RecordingCallBack> = RpcCore::new(&conf(64));
    assert!(core.reg_legacy_cb(1, RecordingCallBack::new()).is_ok());
    // The reserved empty index is refused.
    assert_eq!(
        core.reg_legacy_cb(0, RecordingCallBack::new()).unwrap_err(),
        "The callback index is empty.".to_string()
    );
    core.start().unwrap();
    // Registration after start is refused: the registry is read-only.
    assert_eq!(
        core.reg_legacy_cb(2, RecordingCallBack::new()).unwrap_err(),
        "The RPC core is not stopped.".to_string()
    );
    assert!(core.get_cb_by_reqtype(1).is_some());
    assert!(core.get_cb_by_reqtype(2).is_none());
}

#[test]
fn request_indices_strictly_increase() {
    let mut core: RpcCore<RecordingCallBack> = RpcCore::new(&conf(64));
    assert_eq!(core.get_req_index(), 0);
    assert_eq!(core.get_req_index(), 1);
    assert_eq!(core.get_req_index(), 2);
}

#[test]
fn session_push_requires_connection() {
    let mut core: RpcCore<RecordingCallBack> = RpcCore::new(&conf(64));
    let mut session = RpcSession::new(1, "tcp://peer:9000".to_string());
    let mut msg = RpcOnceMsg::default();
    msg.req_type = 1;
    // A fresh session is disconnected: the push is refused.
    assert!(!session.push_request(&mut core.dispatcher, msg));
    // Once connected, the push lands on the send-request queue.
    core.dispatcher.connect_to(1, "tcp://peer:9000").unwrap();
    session.set_status(RpcSessionStatus::Connected);
    let mut msg = RpcOnceMsg::default();
    msg.req_type = 1;
    assert!(session.push_request(&mut core.dispatcher, msg));
    let (posts, _) = core.dispatcher.run_loop_once(&mut core.cb_map);
    assert_eq!(posts.len(), 1);
}

#[test]
fn session_disconnect() {
    let mut session = RpcSession::new(1, "tcp://peer:9000".to_string());
    // Disconnecting an unconnected session is refused.
    assert!(!session.disconnect());
    session.set_status(RpcSessionStatus::Connected);
    assert!(session.disconnect());
    // Now disconnected: a second disconnect is refused.
    assert!(!session.disconnect());
}

#[test]
fn conf_values() {
    let c = RpcConf::new_singleton();
    assert_eq!(c.rmt_grpc_uri.len(), 0);
    assert_eq!(c.loc_mr_size, 0);
    let c = conf(2048);
    assert_eq!(c.loc_mr_size, 2048);
    assert_eq!(c.rmt_grpc_uri, vec!["tcp://peer:9000".to_string()]);
}

#[test]
fn loopback() {
    // A process connected to itself: what it posts as a send lands in
    // the receive region it posted a moment earlier.
    let mut core: RpcCore<RecordingCallBack> = RpcCore::new(&conf(2048));
    core.reg_legacy_cb(1, RecordingCallBack::new()).unwrap();
    core.start().unwrap();
    let session_id = core.dispatcher.connect_to(1, "tcp://localhost:9000").unwrap();
    assert_eq!(session_id, 0);

    let mut msg = RpcOnceMsg::default();
    msg.req_type = 1;
    msg.payload.set_data(b"hello".to_vec());
    let mut req = RpcMsgHandle::default();
    req.set_msg(msg);
    req.peer_id = 1;
    core.dispatcher.push_req(req);

    let (posts, dropped) = core.dispatcher.run_loop_once(&mut core.cb_map);
    assert_eq!(posts.len(), 1);
    assert_eq!(dropped, 0);
    // Deliver the sent frame into the posted landing slot.
    core.dispatcher
        .handle_completion(
            secrpc::network::CompletionOpcode::Recv,
            posts[0].recv.wr_id,
            &posts[0].send.frame,
        )
        .unwrap();
    core.dispatcher
        .handle_completion(secrpc::network::CompletionOpcode::Send, posts[0].send.wr_id, &[])
        .unwrap();
    let _ = core.dispatcher.run_loop_once(&mut core.cb_map);

    let recorder = core.get_cb_by_reqtype(1).unwrap();
    assert_eq!(recorder.seen.len(), 1);
    assert_eq!(recorder.seen[0].msg.payload.msg_data, b"hello".to_vec());
}
