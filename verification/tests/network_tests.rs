use secrpc::errors::RpcError;
use secrpc::frame::frame_msg;
use secrpc::network::RpcNetworkCore;

fn frame_of(mr_size: usize, payload: &[u8]) -> Vec<u8> {
    frame_msg(&payload.to_vec(), mr_size).unwrap()
}

#[test]
fn wrid_strictly_increases() {
    let mut net = RpcNetworkCore::new_singleton(64);
    let w1 = net.get_wr_id();
    let w2 = net.get_wr_id();
    let w3 = net.get_wr_id();
    assert!(w1 < w2 && w2 < w3);
    assert_eq!((w1, w2, w3), (1, 2, 3));
}

#[test]
fn send_without_session_is_unknown_peer() {
    let mut net = RpcNetworkCore::new_singleton(64);
    let frame = frame_of(64, b"x");
    assert!(matches!(net.send_to(9, &frame), Err(RpcError::UnknownPeer)));
}

#[test]
fn send_posts_receive_then_send() {
    let mut net = RpcNetworkCore::new_singleton(64);
    assert!(net.connect_to(7, "peer"));
    let frame = frame_of(64, b"payload");
    let posts = net.send_to(7, &frame).expect("a registered session accepts a send");
    // A landing slot is posted first, then the outbound frame.
    assert_eq!(posts.recv.wr_id, 1);
    assert_eq!(posts.send.wr_id, 2);
    assert_eq!(posts.send.frame, frame);
    // Both ids are recorded against the session.
    assert_eq!(net.get_session_id_by_wr_id(posts.recv.wr_id), Some(7));
    assert_eq!(net.get_session_id_by_wr_id(posts.send.wr_id), Some(7));
    // Each id holds a region in its own pool.
    assert_eq!(net.get_rmr_index_by_wr_id(posts.recv.wr_id), Some(posts.recv.mr_index));
    assert_eq!(net.get_smr_index_by_wr_id(posts.send.wr_id), Some(posts.send.mr_index));
    assert_eq!(net.on_send(posts.send.wr_id), Some(posts.send.mr_index));
}

#[test]
fn pool_exhaustion_is_an_error_not_a_crash() {
    let mut net = RpcNetworkCore::new_with_entries(8, 1);
    assert!(net.connect_to(1, "peer"));
    let frame = frame_of(8, b"ab");
    assert!(net.send_to(1, &frame).is_ok());
    // Both single-region pools are now occupied.
    assert!(matches!(net.send_to(1, &frame), Err(RpcError::PoolExhausted)));
    // Releasing the regions makes sends possible again.
    net.release_occupied_rmr(1);
    net.release_occupied_smr(2);
    assert!(net.send_to(1, &frame).is_ok());
}

#[test]
fn completion_with_unknown_wrid_is_reported() {
    let net = RpcNetworkCore::new_singleton(64);
    let region = vec![0u8; 64];
    assert!(matches!(net.on_recv(42, &region), Err(RpcError::CompletionError)));
    assert_eq!(net.get_session_id_by_wr_id(42), None);
}

#[test]
fn on_recv_hands_back_session_and_frame() {
    let mut net = RpcNetworkCore::new_singleton(16);
    net.connect_to(3, "peer");
    let frame = frame_of(16, b"hi");
    let posts = net.send_to(3, &frame).unwrap();
    let landed = frame_of(16, b"reply");
    let (session_id, bytes) = net.on_recv(posts.recv.wr_id, &landed).unwrap();
    assert_eq!(session_id, 3);
    assert_eq!(bytes, landed);
}

#[test]
fn release_is_idempotent() {
    let mut net = RpcNetworkCore::new_singleton(16);
    net.connect_to(1, "peer");
    let frame = frame_of(16, b"a");
    let posts = net.send_to(1, &frame).unwrap();
    net.release_occupied_smr(posts.send.wr_id);
    net.release_occupied_smr(posts.send.wr_id);
    assert_eq!(net.get_smr_index_by_wr_id(posts.send.wr_id), None);
    net.release_occupied_rmr(posts.recv.wr_id);
    assert_eq!(net.get_rmr_index_by_wr_id(posts.recv.wr_id), None);
}

#[test]
fn disconnect_is_a_stub() {
    let mut net = RpcNetworkCore::new_singleton(16);
    net.connect_to(1, "peer");
    net.disconnect(1);
    // The session still accepts sends: teardown semantics are a non-goal.
    let frame = frame_of(16, b"a");
    assert!(net.send_to(1, &frame).is_ok());
}

#[test]
fn bandwidth_burst() {
    let mr_size: usize = 1048576;
    let mut net = RpcNetworkCore::new_singleton(mr_size);
    assert!(net.connect_to(1, "peer"));
    let frame = frame_of(mr_size, b"bulk");
    let mut posted = Vec::new();
    for _ in 0..1000 {
        let posts = net.send_to(1, &frame).expect("1024 regions cover 1000 in-flight posts");
        // The peer's send lands in the posted receive region; the local
        // send completion frees the send region.
        posted.push((posts.recv.wr_id, posts.send.wr_id));
        net.release_occupied_smr(posts.send.wr_id);
        let (session_id, _bytes) = net.on_recv(posts.recv.wr_id, &frame).unwrap();
        assert_eq!(session_id, 1);
        net.release_occupied_rmr(posts.recv.wr_id);
    }
    // Every work-request id maps to a released region at the end.
    for (recv_id, send_id) in posted {
        assert_eq!(net.get_rmr_index_by_wr_id(recv_id), None);
        assert_eq!(net.get_smr_index_by_wr_id(send_id), None);
    }
}
