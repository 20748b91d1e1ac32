use synctube_bot::driver::{
    run_scripted_session, run_sessions, SessionEnv, SessionError, SessionScript,
};
use synctube_bot::provision::{CreateRoomResponse, ProvisionError};
use synctube_bot::session::{ConnectError, SessionState};

fn script(video_count: u32) -> SessionScript {
    SessionScript {
        name: "Rust SyncTube Bot".to_string(),
        video_id: "v1".to_string(),
        video_count,
        timestamp_millis: 5,
    }
}

fn good_env(id: &str) -> SessionEnv {
    SessionEnv {
        create_status: 200,
        create_body: Some(CreateRoomResponse { id: id.to_string() }),
        join_status: 200,
        set_cookie: Some("sid=abc123; Path=/".to_string()),
        handshake_ok: true,
    }
}

#[test]
fn scripted_session_sends_rename_then_videos_in_order() {
    let report = run_scripted_session(&good_env("r1"), &script(2)).unwrap();
    assert_eq!(report.room.id, "r1");
    assert_eq!(report.room.token, "sid=abc123");
    assert_eq!(
        report.client.sent,
        vec![
            b"[12,\"Rust SyncTube Bot\",5]".to_vec(),
            b"[30,{\"src\":\"v1\"},5]".to_vec(),
            b"[30,{\"src\":\"v1\"},5]".to_vec(),
        ]
    );
    assert_eq!(report.client.state, SessionState::Disconnected);
    assert!(!report.client.send_installed && !report.client.recv_installed);
    assert!(report.client.last_error.is_none());
}

#[test]
fn create_failure_isolates_the_session_and_skips_join() {
    let mut env = good_env("r1");
    env.create_status = 500;
    let r = run_scripted_session(&env, &script(1));
    assert_eq!(
        r.map(|_| ()),
        Err(SessionError::Provision(ProvisionError::CreateFailed))
    );
}

#[test]
fn handshake_failure_is_a_connect_error() {
    let mut env = good_env("r1");
    env.handshake_ok = false;
    let r = run_scripted_session(&env, &script(1));
    assert_eq!(
        r.map(|_| ()),
        Err(SessionError::Connect(ConnectError::HandshakeFailed))
    );
}

#[test]
fn failing_session_leaves_siblings_untouched() {
    let mut middle = good_env("r2");
    middle.handshake_ok = false;
    let envs = vec![good_env("r1"), middle, good_env("r3")];
    let outs = run_sessions(&envs, &script(3));
    assert_eq!(outs.len(), 3);

    let first = outs[0].as_ref().unwrap();
    assert_eq!(first.room.id, "r1");
    assert_eq!(first.client.sent.len(), 4);
    assert_eq!(first.client.state, SessionState::Disconnected);

    match &outs[1] {
        Err(SessionError::Connect(ConnectError::HandshakeFailed)) => {}
        _ => panic!("the middle session must fail on its handshake"),
    }

    let third = outs[2].as_ref().unwrap();
    assert_eq!(third.room.id, "r3");
    assert_eq!(third.client.sent.len(), 4);
    assert_eq!(third.client.state, SessionState::Disconnected);
    assert_eq!(third.client.sent, first.client.sent);
}

#[test]
fn zero_videos_sends_only_the_rename() {
    let report = run_scripted_session(&good_env("r1"), &script(0)).unwrap();
    assert_eq!(report.client.sent, vec![b"[12,\"Rust SyncTube Bot\",5]".to_vec()]);
}
