use synctube_bot::provision::{
    after_create, after_join, create_and_join, extract_credential, room_url,
    serialize_join_request, CreateRoomResponse, JoinRoomRequest, PlayerPreferences,
    ProvisionAction, ProvisionError, RoomPreferences, SoundcloudPreferences,
};

fn preferences(user: Option<&str>, consent: bool) -> RoomPreferences {
    RoomPreferences {
        user: user.map(|u| u.to_string()),
        player: PlayerPreferences {
            soundcloud: SoundcloudPreferences { volume_tenths: 2 },
        },
        consent,
    }
}

#[test]
fn credential_is_first_cookie_segment() {
    assert_eq!(extract_credential("sid=abc123; Path=/"), "sid=abc123");
}

#[test]
fn credential_without_semicolon_is_whole_header() {
    assert_eq!(extract_credential("sid=abc123"), "sid=abc123");
}

#[test]
fn credential_of_empty_header_is_empty() {
    assert_eq!(extract_credential(""), "");
    assert_eq!(extract_credential(";tail"), "");
}

#[test]
fn room_url_names_the_room() {
    assert_eq!(room_url("r1"), "https://sync-tube.de/room/r1");
}

#[test]
fn join_body_shape() {
    let req = JoinRoomRequest {
        id: "r1".to_string(),
        preferences: preferences(None, false),
    };
    let body = serialize_join_request(&req);
    assert_eq!(
        body,
        b"{\"id\":\"r1\",\"preferences\":{\"user\":null,\"player\":{\"soundcloud\":{\"volume\":0.2}},\"consent\":false}}".to_vec()
    );
}

#[test]
fn join_body_with_user_and_consent() {
    let req = JoinRoomRequest {
        id: "r1".to_string(),
        preferences: preferences(Some("bo\"t"), true),
    };
    let body = serialize_join_request(&req);
    assert_eq!(
        body,
        b"{\"id\":\"r1\",\"preferences\":{\"user\":\"bo\\\"t\",\"player\":{\"soundcloud\":{\"volume\":0.2}},\"consent\":true}}".to_vec()
    );
}

#[test]
fn failed_create_aborts_without_calling_join() {
    let body = Some(CreateRoomResponse { id: "r1".to_string() });
    match after_create(500, body, &preferences(None, false)) {
        ProvisionAction::Abort(e) => assert_eq!(e, ProvisionError::CreateFailed),
        ProvisionAction::CallJoin { .. } => panic!("join must not be called after a failed create"),
    }
}

#[test]
fn create_body_without_id_aborts() {
    match after_create(200, None, &preferences(None, false)) {
        ProvisionAction::Abort(e) => assert_eq!(e, ProvisionError::CreateFailed),
        ProvisionAction::CallJoin { .. } => panic!("join must not be called without a room id"),
    }
}

#[test]
fn successful_create_calls_join_with_body_and_referer() {
    let body = Some(CreateRoomResponse { id: "r7".to_string() });
    match after_create(201, body, &preferences(None, false)) {
        ProvisionAction::CallJoin { body, referer } => {
            assert_eq!(referer, "https://sync-tube.de/room/r7");
            assert!(body.starts_with(b"{\"id\":\"r7\","));
        }
        ProvisionAction::Abort(_) => panic!("a successful create must call join"),
    }
}

#[test]
fn join_outcomes() {
    assert_eq!(after_join("r1", 404, Some("sid=x; Path=/")).map(|_| ()), Err(ProvisionError::JoinFailed));
    assert_eq!(after_join("r1", 200, None).map(|_| ()), Err(ProvisionError::MissingCredential));
    let room = after_join("r1", 200, Some("sid=abc123; Path=/")).unwrap();
    assert_eq!(room.id, "r1");
    assert_eq!(room.token, "sid=abc123");
}

#[test]
fn create_and_join_happy_path() {
    let room = create_and_join(
        &preferences(None, false),
        200,
        Some(CreateRoomResponse { id: "r9".to_string() }),
        200,
        Some("sid=abc123; Path=/"),
    )
    .unwrap();
    assert_eq!(room.id, "r9");
    assert_eq!(room.token, "sid=abc123");
}

#[test]
fn create_and_join_maps_each_failure() {
    let prefs = preferences(None, false);
    let body = || Some(CreateRoomResponse { id: "r1".to_string() });
    assert_eq!(
        create_and_join(&prefs, 500, body(), 200, Some("sid=x")).map(|_| ()),
        Err(ProvisionError::CreateFailed)
    );
    assert_eq!(
        create_and_join(&prefs, 200, None, 200, Some("sid=x")).map(|_| ()),
        Err(ProvisionError::CreateFailed)
    );
    assert_eq!(
        create_and_join(&prefs, 200, body(), 503, Some("sid=x")).map(|_| ()),
        Err(ProvisionError::JoinFailed)
    );
    assert_eq!(
        create_and_join(&prefs, 200, body(), 204, None).map(|_| ()),
        Err(ProvisionError::MissingCredential)
    );
}
