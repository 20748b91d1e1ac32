//! The bot driver: one scripted session from provisioning to disconnect, and
//! the fan-out over many sessions.
//!
//! A scripted session provisions a room, connects, renames the bot, adds a
//! video a scripted number of times and disconnects.  The remote service's
//! responses arrive as plain values in a [`SessionEnv`]; the driver composes
//! the provisioning decisions, the session state machine and the encoder, so
//! its outcome is a function of that environment alone.  Running many
//! sessions therefore isolates them by construction: each outcome depends
//! only on its own session's environment, and one failed session leaves the
//! others' outcomes untouched.
use crate::provision::{
    create_and_join, spec_cookie_first_segment, CreateRoomResponse,
    PlayerPreferences, ProvisionError, Room, RoomPreferences, SoundcloudPreferences,
};
use crate::session::{
    session_wf, ConnectError, RecvEvent, SessionView, SyncTubeClient,
    SyncTubeClientTrait,
};
use crate::spec_status_is_success;
use crate::wire::{
    spec_add_video_payload, spec_string_payload, spec_wire_frame, ADD_VIDEO_CODE, RENAME_CODE,
};
use vstd::prelude::*;
use vstd::utf8::encode_utf8;

verus! {

/// What one scripted session does once connected.
pub struct SessionScript {
    /// The name the bot takes.
    pub name: String,
    /// The video added to the playlist.
    pub video_id: String,
    /// How many times the video is added.
    pub video_count: u32,
    /// The timestamp stamped on the outbound events.
    pub timestamp_millis: u64,
}

/// The remote service's responses to one session, as plain values.
pub struct SessionEnv {
    /// The status of the create response.
    pub create_status: u16,
    /// The decoded create body, if it held a room identifier.
    pub create_body: Option<CreateRoomResponse>,
    /// The status of the join response.
    pub join_status: u16,
    /// The join response's cookie header, if present.
    pub set_cookie: Option<String>,
    /// Whether the WebSocket handshake completed.
    pub handshake_ok: bool,
}

/// Why one scripted session failed.
#[derive(Clone, Copy, PartialEq, Eq, Structural, Debug)]
pub enum SessionError {
    /// Provisioning the room failed.
    Provision(ProvisionError),
    /// Connecting to the room failed.
    Connect(ConnectError),
}

/// What a completed session leaves behind: the room it ran in and the handle
/// with its transport log.
pub struct SessionReport {
    /// The provisioned room.
    pub room: Room,
    /// The handle after disconnect, holding the full transport log.
    pub client: SyncTubeClient,
}

/// The same frame a scripted number of times.
pub open spec fn spec_repeat_frame(frame: Seq<u8>, n: nat) -> Seq<Seq<u8>>
    decreases n,
{
    if n == 0 {
        Seq::empty()
    } else {
        spec_repeat_frame(frame, (n - 1) as nat).push(frame)
    }
}

/// The rename frame of a script.
pub open spec fn spec_rename_frame(script: SessionScript) -> Seq<u8> {
    spec_wire_frame(
        RENAME_CODE as nat,
        spec_string_payload(encode_utf8(script.name@)),
        script.timestamp_millis as nat,
    )
}

/// The add-video frame of a script.
pub open spec fn spec_video_frame(script: SessionScript) -> Seq<u8> {
    spec_wire_frame(
        ADD_VIDEO_CODE as nat,
        spec_add_video_payload(encode_utf8(script.video_id@)),
        script.timestamp_millis as nat,
    )
}

/// Everything a completed scripted session writes to the transport, in
/// order: the rename first, then the video added the scripted number of
/// times.
pub open spec fn spec_script_frames(script: SessionScript) -> Seq<Seq<u8>> {
    seq![spec_rename_frame(script)] + spec_repeat_frame(
        spec_video_frame(script),
        script.video_count as nat,
    )
}

/// The outcome one scripted session owes for a given environment: the
/// provisioning errors and the handshake error exactly on the responses that
/// cause them, and otherwise a completed session whose transport log holds
/// the script's frames in order and whose handle ended cleanly disconnected.
pub open spec fn spec_session_outcome(
    env: SessionEnv,
    script: SessionScript,
    r: Result<SessionReport, SessionError>,
) -> bool {
    if !spec_status_is_success(env.create_status) || env.create_body is None {
        r == Err::<SessionReport, SessionError>(
            SessionError::Provision(ProvisionError::CreateFailed),
        )
    } else if !spec_status_is_success(env.join_status) {
        r == Err::<SessionReport, SessionError>(
            SessionError::Provision(ProvisionError::JoinFailed),
        )
    } else if env.set_cookie is None {
        r == Err::<SessionReport, SessionError>(
            SessionError::Provision(ProvisionError::MissingCredential),
        )
    } else if !env.handshake_ok {
        r == Err::<SessionReport, SessionError>(
            SessionError::Connect(ConnectError::HandshakeFailed),
        )
    } else {
        r matches Ok(rep) && {
            &&& env.create_body matches Some(body) && rep.room.id@ == body.id@
            &&& env.set_cookie matches Some(h) && rep.room.token@ == spec_cookie_first_segment(h@)
            &&& rep.client@.room_id == rep.room.id@
            &&& rep.client@.room_token == rep.room.token@
            &&& rep.client@.sent == spec_script_frames(script)
            &&& rep.client@.observed == Seq::<Seq<u8>>::empty()
            &&& rep.client@.state is Disconnected
            &&& !rep.client@.send_installed
            &&& !rep.client@.recv_installed
            &&& rep.client@.disconnect_requested
            &&& rep.client@.last_error is None
        }
    }
}

/// The preferences this bot joins rooms with: no user handle, a low player
/// volume, and no consent.
fn default_preferences() -> (prefs: RoomPreferences)
    ensures
        prefs.user is None,
        prefs.player.soundcloud.volume_tenths == 2,
        !prefs.consent,
{
    RoomPreferences {
        user: Option::None,
        player: PlayerPreferences { soundcloud: SoundcloudPreferences { volume_tenths: 2 } },
        consent: false,
    }
}

/// Runs one scripted session against the given environment: provision the
/// room, connect, rename, add the video the scripted number of times,
/// disconnect, and let the receive loop observe the cancellation.  The
/// outcome is exactly [`spec_session_outcome`] — in particular it depends on
/// nothing but this session's own environment and script.
pub fn run_scripted_session(env: &SessionEnv, script: &SessionScript) -> (r: Result<
    SessionReport,
    SessionError,
>)
    ensures
        spec_session_outcome(*env, *script, r),
{
    let prefs = default_preferences();
    let create_body = match &env.create_body {
        Option::None => Option::None,
        Option::Some(resp) => Option::Some(CreateRoomResponse { id: resp.id.clone() }),
    };
    let set_cookie = match &env.set_cookie {
        Option::None => Option::None,
        Option::Some(h) => Option::Some(h.as_str()),
    };
    let room = match create_and_join(
        &prefs,
        env.create_status,
        create_body,
        env.join_status,
        set_cookie,
    ) {
        Result::Err(e) => {
            return Err(SessionError::Provision(e));
        },
        Result::Ok(room) => room,
    };
    let mut client = SyncTubeClient::new(room.id.as_str(), room.token.as_str());
    match client.connect(env.handshake_ok) {
        Result::Err(e) => {
            return Err(SessionError::Connect(e));
        },
        Result::Ok(()) => {},
    }
    let _ = client.rename(script.name.as_str(), script.timestamp_millis, Option::None);
    let ghost connected = client@;
    let mut i: u32 = 0;
    while i < script.video_count
        invariant
            i <= script.video_count,
            session_wf(client@),
            client@ == (SessionView {
                sent: seq![spec_rename_frame(*script)] + spec_repeat_frame(
                    spec_video_frame(*script),
                    i as nat,
                ),
                ..connected
            }),
            connected.state is Connected,
            connected.send_installed,
        decreases script.video_count - i,
    {
        let _ = client.add_video(script.video_id.as_str(), script.timestamp_millis, Option::None);
        proof {
            assert(spec_repeat_frame(spec_video_frame(*script), (i + 1) as nat)
                == spec_repeat_frame(spec_video_frame(*script), i as nat).push(
                spec_video_frame(*script),
            ));
            assert((seq![spec_rename_frame(*script)] + spec_repeat_frame(
                spec_video_frame(*script),
                i as nat,
            )).push(spec_video_frame(*script)) =~= seq![spec_rename_frame(*script)]
                + spec_repeat_frame(spec_video_frame(*script), (i + 1) as nat));
            assert(client@ =~= (SessionView {
                sent: seq![spec_rename_frame(*script)] + spec_repeat_frame(
                    spec_video_frame(*script),
                    (i + 1) as nat,
                ),
                ..connected
            }));
        }
        i = i + 1;
    }
    let _ = client.disconnect();
    let _ = client.recv_step(RecvEvent::Cancelled);
    Ok(SessionReport { room, client })
}

/// Runs one scripted session per environment, in order.  Each outcome obeys
/// [`spec_session_outcome`] for its own environment alone, so sessions are
/// isolated: however one of them fails, every other session's outcome is the
/// same as if it ran by itself.
pub fn run_sessions(envs: &Vec<SessionEnv>, script: &SessionScript) -> (outs: Vec<
    Result<SessionReport, SessionError>,
>)
    ensures
        outs@.len() == envs@.len(),
        forall|j: int|
            0 <= j < envs@.len() ==> spec_session_outcome(envs@[j], *script, #[trigger] outs@[j]),
{
    let mut outs: Vec<Result<SessionReport, SessionError>> = Vec::new();
    let mut i: usize = 0;
    while i < envs.len()
        invariant
            i <= envs@.len(),
            outs@.len() == i,
            forall|j: int|
                0 <= j < i as int ==> spec_session_outcome(envs@[j], *script, #[trigger] outs@[j]),
        decreases envs@.len() - i,
    {
        let out = run_scripted_session(&envs[i], script);
        outs.push(out);
        i = i + 1;
    }
    outs
}

} // verus!
