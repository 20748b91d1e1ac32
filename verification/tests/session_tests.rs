use synctube_bot::session::{
    ConnectError, LoopAction, RecvEvent, SendError, SessionState, SyncTubeClient,
    SyncTubeClientTrait,
};

fn connected_client() -> SyncTubeClient {
    let mut client = SyncTubeClient::new("room1", "sid=tok");
    client.connect(true).unwrap();
    client
}

#[test]
fn fresh_handle_is_disconnected() {
    let client = SyncTubeClient::new("room1", "sid=tok");
    assert!(!client.get_connected());
    assert!(client.get_error().is_none());
    assert_eq!(client.state, SessionState::Disconnected);
    assert!(!client.send_installed);
    assert!(!client.recv_installed);
}

#[test]
fn connect_installs_both_halves_atomically() {
    let mut client = SyncTubeClient::new("room1", "sid=tok");
    assert!(!client.get_connected());
    client.connect(true).unwrap();
    assert!(client.get_connected());
    assert!(client.send_installed && client.recv_installed);
}

#[test]
fn failed_handshake_leaves_handle_disconnected() {
    let mut client = SyncTubeClient::new("room1", "sid=tok");
    let r = client.connect(false);
    assert_eq!(r, Err(ConnectError::HandshakeFailed));
    assert!(!client.get_connected());
    assert!(!client.send_installed && !client.recv_installed);
}

#[test]
fn connect_request_url_carries_room_id() {
    let mut client = SyncTubeClient::new("room42", "sid=tok");
    let url = client.begin_connect();
    assert_eq!(url, "wss://sync-tube.de/ws/room42/ewB9AA==");
}

#[test]
fn send_before_connect_is_not_connected() {
    let mut client = SyncTubeClient::new("room1", "sid=tok");
    let r = client.send_message(b"[12,\"x\",1]", None);
    assert!(matches!(r, Err(SendError::NotConnected)));
    assert!(client.sent.is_empty());
}

#[test]
fn sends_appear_on_transport_in_issue_order() {
    let mut client = connected_client();
    client.send_message(b"first", None).unwrap();
    client.send_message(b"second", None).unwrap();
    client.send_message(b"third", None).unwrap();
    assert_eq!(
        client.sent,
        vec![b"first".to_vec(), b"second".to_vec(), b"third".to_vec()]
    );
}

#[test]
fn write_failure_is_a_transport_error_and_logs_nothing() {
    let mut client = connected_client();
    client.send_message(b"ok", None).unwrap();
    let r = client.send_message(b"lost", Some("broken pipe".to_string()));
    match r {
        Err(SendError::TransportError(detail)) => assert_eq!(detail, "broken pipe"),
        _ => panic!("expected a transport error"),
    }
    assert_eq!(client.sent, vec![b"ok".to_vec()]);
}

#[test]
fn add_video_and_rename_send_encoded_frames() {
    let mut client = connected_client();
    client.rename("bot", 7, None).unwrap();
    client.add_video("abc", 9, None).unwrap();
    assert_eq!(
        client.sent,
        vec![b"[12,\"bot\",7]".to_vec(), b"[30,{\"src\":\"abc\"},9]".to_vec()]
    );
}

#[test]
fn receive_loop_continues_on_frames_and_observes_them() {
    let mut client = connected_client();
    let act = client.recv_step(RecvEvent::Frame(b"hello".to_vec()));
    assert_eq!(act, LoopAction::Continue);
    assert!(client.get_connected());
    assert_eq!(client.observed, vec![b"hello".to_vec()]);
}

#[test]
fn disconnect_stops_loop_even_with_silent_peer() {
    // A mock transport that never produces a message after disconnect is
    // requested: the loop is woken only by the cancellation signal, and must
    // stop on that very step.
    let mut client = connected_client();
    client.disconnect().unwrap();
    assert_eq!(client.state, SessionState::Disconnecting);
    let act = client.recv_step(RecvEvent::Cancelled);
    assert_eq!(act, LoopAction::Stop);
    assert_eq!(client.state, SessionState::Disconnected);
    assert!(!client.send_installed && !client.recv_installed);
    assert!(client.get_error().is_none());
}

#[test]
fn disconnect_stops_loop_on_next_frame_too() {
    let mut client = connected_client();
    client.disconnect().unwrap();
    let act = client.recv_step(RecvEvent::Frame(b"late".to_vec()));
    assert_eq!(act, LoopAction::Stop);
    assert_eq!(client.state, SessionState::Disconnected);
}

#[test]
fn peer_close_surfaces_an_error_and_disconnects() {
    let mut client = connected_client();
    let act = client.recv_step(RecvEvent::StreamEnd);
    assert_eq!(act, LoopAction::Stop);
    assert!(!client.get_connected());
    assert_eq!(client.get_error(), Some("connection closed by peer".to_string()));
}

#[test]
fn read_error_surfaces_its_detail() {
    let mut client = connected_client();
    let act = client.recv_step(RecvEvent::ReadError("reset".to_string()));
    assert_eq!(act, LoopAction::Stop);
    assert!(!client.get_connected());
    assert_eq!(client.get_error(), Some("reset".to_string()));
}

#[test]
fn playlist_count_stays_zero() {
    let client = connected_client();
    assert_eq!(client.get_playlist_count(), Ok(0));
}
