//! The session handle: the lifecycle of one WebSocket connection to a room.
//!
//! The handle is a state machine.  The transport itself lives outside the
//! library; its outcomes (handshake success, an inbound frame, a read error,
//! the cancellation signal) are fed into the machine as plain values, and the
//! machine answers with the next state and, for the receive loop, whether to
//! keep running.  The `sent` log records every frame written to the transport
//! in the order the writes were issued, so contracts can speak about what the
//! peer observes.
use crate::wire::{
    encode_add_video, encode_rename, serialize_event, spec_add_video_payload, spec_string_payload,
    spec_wire_frame, ADD_VIDEO_CODE, RENAME_CODE,
};
use vstd::prelude::*;
use vstd::string::*;

verus! {

/// The lifecycle states of a session handle.
#[derive(Clone, Copy, PartialEq, Eq, Structural, Debug)]
pub enum SessionState {
    /// No connection; the initial state, and the final one.
    Disconnected,
    /// The upgrade request is built and the handshake is in flight.
    Connecting,
    /// Both halves of the duplex stream are installed and usable.
    Connected,
    /// Disconnect was requested; the receive loop has not yet cleaned up.
    Disconnecting,
}

/// Failure of the connect operation.
#[derive(Clone, Copy, PartialEq, Eq, Structural, Debug)]
pub enum ConnectError {
    /// The WebSocket handshake did not complete.
    HandshakeFailed,
}

/// Failure of a send operation.
#[derive(Debug)]
pub enum SendError {
    /// The send half never became available.
    NotConnected,
    /// The underlying write failed; carries the transport's description.
    TransportError(String),
}

/// Failure of the disconnect operation's cleanup.
#[derive(Clone, Copy, PartialEq, Eq, Structural, Debug)]
pub enum DisconnectError {
    /// Tearing the connection down failed.
    CleanupFailed,
}

/// What the receive loop was woken by.
#[derive(Debug)]
pub enum RecvEvent {
    /// The peer sent a frame.
    Frame(Vec<u8>),
    /// The peer closed the stream.
    StreamEnd,
    /// Reading the next frame failed; carries the transport's description.
    ReadError(String),
    /// The disconnect signal won the race against the next frame.
    Cancelled,
}

/// The receive loop's decision after one step.
#[derive(Clone, Copy, PartialEq, Eq, Structural, Debug)]
pub enum LoopAction {
    /// Wait for the next event.
    Continue,
    /// Terminate the loop.
    Stop,
}

/// The mathematical state of a session handle.
#[verifier::ext_equal]
pub struct SessionView {
    /// The room this handle is bound to.
    pub room_id: Seq<char>,
    /// The session credential presented during the handshake.
    pub room_token: Seq<char>,
    /// Where the handle stands in its lifecycle.
    pub state: SessionState,
    /// Whether the send half of the duplex stream is installed.
    pub send_installed: bool,
    /// Whether the receive half of the duplex stream is installed.
    pub recv_installed: bool,
    /// Every frame written to the transport, in the order issued.
    pub sent: Seq<Seq<u8>>,
    /// Every inbound frame the receive loop observed, in arrival order.
    pub observed: Seq<Seq<u8>>,
    /// Whether disconnect has been requested.
    pub disconnect_requested: bool,
    /// The error surfaced by the receive loop, if any.
    pub last_error: Option<Seq<char>>,
}

/// A well-formed handle: the two halves are installed together or not at
/// all, and exactly while the handle is connected or winding down.
pub open spec fn session_wf(v: SessionView) -> bool {
    &&& v.send_installed == v.recv_installed
    &&& ((v.state is Connected || v.state is Disconnecting) <==> v.send_installed)
}

/// A session handle bound to one room.
pub struct SyncTubeClient {
    /// The room identifier, immutable after construction.
    pub room_id: String,
    /// The session credential, immutable after construction.
    pub room_token: String,
    /// Where the handle stands in its lifecycle.
    pub state: SessionState,
    /// Whether the send half is installed.
    pub send_installed: bool,
    /// Whether the receive half is installed.
    pub recv_installed: bool,
    /// Every frame written to the transport, in the order issued.
    pub sent: Vec<Vec<u8>>,
    /// Every inbound frame the receive loop observed.
    pub observed: Vec<Vec<u8>>,
    /// Whether disconnect has been requested.
    pub disconnect_requested: bool,
    /// The error surfaced by the receive loop, if any.
    pub last_error: Option<String>,
}

impl View for SyncTubeClient {
    type V = SessionView;

    open spec fn view(&self) -> SessionView {
        SessionView {
            room_id: self.room_id@,
            room_token: self.room_token@,
            state: self.state,
            send_installed: self.send_installed,
            recv_installed: self.recv_installed,
            sent: self.sent.deep_view(),
            observed: self.observed.deep_view(),
            disconnect_requested: self.disconnect_requested,
            last_error: match self.last_error {
                Option::None => Option::None,
                Option::Some(e) => Option::Some(e@),
            },
        }
    }
}

/// The URL of the WebSocket upgrade request for one room.
pub open spec fn spec_ws_url(room_id: Seq<char>) -> Seq<char> {
    "wss://sync-tube.de/ws/"@ + room_id + "/ewB9AA=="@
}

/// Whether one receive-loop step terminates the loop: it does exactly when
/// disconnect has been requested, or the event itself ends the stream (the
/// cancellation signal, the peer closing, or a read error).
pub open spec fn spec_recv_stops(v: SessionView, ev: RecvEvent) -> bool {
    v.disconnect_requested || !(ev is Frame)
}

/// Once disconnect has been requested, the very next receive-loop step stops,
/// whatever event arrives — even if the peer never sends anything again, the
/// cancellation signal is itself an event.  The loop therefore terminates
/// within one step of the request.
pub proof fn lemma_disconnect_stops_loop(v: SessionView, ev: RecvEvent)
    requires
        v.disconnect_requested,
    ensures
        spec_recv_stops(v, ev),
{
}

/// In a well-formed handle the two halves are installed atomically: never
/// exactly one of them.
pub proof fn lemma_halves_installed_together(v: SessionView)
    requires
        session_wf(v),
    ensures
        v.send_installed == v.recv_installed,
{
}

/// A handle that reports connected has both halves installed; one that
/// reports disconnected or still connecting has neither.
pub proof fn lemma_connected_means_installed(v: SessionView)
    requires
        session_wf(v),
    ensures
        v.state is Connected ==> v.send_installed && v.recv_installed,
        v.state is Disconnected || v.state is Connecting ==> !v.send_installed
            && !v.recv_installed,
{
}

/// Issuing sends one after another: each send appends its frame to the log.
pub open spec fn spec_sends(log: Seq<Seq<u8>>, msgs: Seq<Seq<u8>>) -> Seq<Seq<u8>>
    decreases msgs.len(),
{
    if msgs.len() == 0 {
        log
    } else {
        spec_sends(log.push(msgs.first()), msgs.drop_first())
    }
}

/// For any run of sends issued in order on one session, the transport log
/// afterwards is the old log followed by exactly those frames, in issue
/// order; in particular any two of them keep their relative order.
pub proof fn lemma_send_order(log: Seq<Seq<u8>>, msgs: Seq<Seq<u8>>)
    ensures
        spec_sends(log, msgs) == log + msgs,
    decreases msgs.len(),
{
    if msgs.len() == 0 {
        assert(spec_sends(log, msgs) =~= log + msgs);
    } else {
        lemma_send_order(log.push(msgs.first()), msgs.drop_first());
        assert(log.push(msgs.first()) + msgs.drop_first() =~= log + msgs);
    }
}

impl SyncTubeClient {
    /// A fresh handle for one room: disconnected, with nothing installed and
    /// nothing sent or observed.
    pub fn new(room_id: &str, room_token: &str) -> (c: SyncTubeClient)
        ensures
            c@ == (SessionView {
                room_id: room_id@,
                room_token: room_token@,
                state: SessionState::Disconnected,
                send_installed: false,
                recv_installed: false,
                sent: Seq::empty(),
                observed: Seq::empty(),
                disconnect_requested: false,
                last_error: Option::None,
            }),
    {
        let c = SyncTubeClient {
            room_id: room_id.to_owned(),
            room_token: room_token.to_owned(),
            state: SessionState::Disconnected,
            send_installed: false,
            recv_installed: false,
            sent: Vec::new(),
            observed: Vec::new(),
            disconnect_requested: false,
            last_error: Option::None,
        };
        proof {
            assert(c@ =~= (SessionView {
                room_id: room_id@,
                room_token: room_token@,
                state: SessionState::Disconnected,
                send_installed: false,
                recv_installed: false,
                sent: Seq::empty(),
                observed: Seq::empty(),
                disconnect_requested: false,
                last_error: Option::None,
            }));
        }
        c
    }

    /// Starts connecting: yields the upgrade URL derived from the room
    /// identifier and moves the handle into the connecting state.  The
    /// caller performs the handshake and reports its outcome to
    /// [`Self::complete_connect`].
    pub fn begin_connect(&mut self) -> (url: String)
        requires
            old(self)@.state is Disconnected,
            session_wf(old(self)@),
        ensures
            session_wf(final(self)@),
            final(self)@ == (SessionView { state: SessionState::Connecting, ..old(self)@ }),
            url@ == spec_ws_url(old(self)@.room_id),
    {
        self.state = SessionState::Connecting;
        let mut url = String::new();
        url.append("wss://sync-tube.de/ws/");
        url.append(self.room_id.as_str());
        url.append("/ewB9AA==");
        proof {
            assert(final(self)@ =~= (SessionView {
                state: SessionState::Connecting,
                ..old(self)@
            }));
        }
        url
    }

    /// Records the handshake outcome.  On success both halves are installed
    /// in the same step — the handle is never left with only one of them —
    /// and the handle reports connected.  On failure nothing is installed
    /// and the handle is back where it started, disconnected.
    pub fn complete_connect(&mut self, handshake_ok: bool) -> (r: Result<(), ConnectError>)
        requires
            old(self)@.state is Connecting,
            session_wf(old(self)@),
        ensures
            session_wf(final(self)@),
            handshake_ok ==> r is Ok && final(self)@ == (SessionView {
                state: SessionState::Connected,
                send_installed: true,
                recv_installed: true,
                ..old(self)@
            }),
            !handshake_ok ==> r == Err::<(), ConnectError>(ConnectError::HandshakeFailed)
                && final(self)@ == (SessionView { state: SessionState::Disconnected, ..old(self)@ }),
    {
        if handshake_ok {
            self.state = SessionState::Connected;
            self.send_installed = true;
            self.recv_installed = true;
            proof {
                assert(final(self)@ =~= (SessionView {
                    state: SessionState::Connected,
                    send_installed: true,
                    recv_installed: true,
                    ..old(self)@
                }));
            }
            Ok(())
        } else {
            self.state = SessionState::Disconnected;
            proof {
                assert(final(self)@ =~= (SessionView {
                    state: SessionState::Disconnected,
                    ..old(self)@
                }));
            }
            Err(ConnectError::HandshakeFailed)
        }
    }

    /// Writes one already-serialized frame through the send half.  The
    /// caller reports the transport's verdict on the physical write in
    /// `write_failure`.  While the send half is installed and the write
    /// succeeds, the frame is appended to the transport log — sends issued
    /// in order appear on the transport in that order.  Without an installed
    /// send half the operation fails with [`SendError::NotConnected`] and
    /// changes nothing.
    pub fn send_message(&mut self, message: &[u8], write_failure: Option<String>) -> (r: Result<
        (),
        SendError,
    >)
        requires
            session_wf(old(self)@),
        ensures
            session_wf(final(self)@),
            old(self)@.send_installed && write_failure is None ==> r is Ok && final(self)@ == (
            SessionView { sent: old(self)@.sent.push(message@), ..old(self)@ }),
            write_failure matches Some(d) ==> (old(self)@.send_installed ==> r == Err::<
                (),
                SendError,
            >(SendError::TransportError(d)) && final(self)@ == old(self)@),
            !old(self)@.send_installed ==> r == Err::<(), SendError>(SendError::NotConnected)
                && final(self)@ == old(self)@,
    {
        if !self.send_installed {
            return Err(SendError::NotConnected);
        }
        match write_failure {
            Option::Some(detail) => Err(SendError::TransportError(detail)),
            Option::None => {
                let frame = vstd::slice::slice_to_vec(message);
                self.sent.push(frame);
                proof {
                    assert(final(self)@.sent =~~= old(self)@.sent.push(message@));
                    assert(final(self)@ =~~= (SessionView {
                        sent: old(self)@.sent.push(message@),
                        ..old(self)@
                    }));
                }
                Ok(())
            },
        }
    }

    /// One step of the receive loop, driven by whatever woke it.  If
    /// disconnect was requested, or the event itself ends the stream, the
    /// loop stops and the handle is left cleanly disconnected, with a read
    /// error or the peer's close surfaced through the last error; otherwise
    /// the frame is observed and the loop continues.
    pub fn recv_step(&mut self, ev: RecvEvent) -> (act: LoopAction)
        requires
            session_wf(old(self)@),
            old(self)@.recv_installed,
        ensures
            session_wf(final(self)@),
            act is Stop <==> spec_recv_stops(old(self)@, ev),
            old(self)@.disconnect_requested ==> act is Stop,
            final(self)@.room_id == old(self)@.room_id,
            final(self)@.room_token == old(self)@.room_token,
            final(self)@.sent == old(self)@.sent,
            final(self)@.disconnect_requested == old(self)@.disconnect_requested,
            ev matches RecvEvent::Frame(m) ==> final(self)@.observed == old(self)@.observed.push(
                m@,
            ),
            !(ev is Frame) ==> final(self)@.observed == old(self)@.observed,
            act is Stop ==> final(self)@.state is Disconnected && !final(self)@.send_installed
                && !final(self)@.recv_installed,
            act is Continue ==> final(self)@.state == old(self)@.state && final(self)@.send_installed
                == old(self)@.send_installed && final(self)@.recv_installed == old(self)@.recv_installed,
            ev matches RecvEvent::ReadError(d) ==> final(self)@.last_error == Some(d@),
            ev is StreamEnd ==> final(self)@.last_error == Some("connection closed by peer"@),
            ev is Frame || ev is Cancelled ==> final(self)@.last_error == old(self)@.last_error,
    {
        let ghost pre = self@;
        match ev {
            RecvEvent::Frame(m) => {
                let ghost mv = m@;
                self.observed.push(m);
                proof {
                    assert(self@.observed =~~= pre.observed.push(mv));
                }
                if self.disconnect_requested {
                    self.state = SessionState::Disconnected;
                    self.send_installed = false;
                    self.recv_installed = false;
                    LoopAction::Stop
                } else {
                    LoopAction::Continue
                }
            },
            RecvEvent::StreamEnd => {
                self.state = SessionState::Disconnected;
                self.send_installed = false;
                self.recv_installed = false;
                self.last_error = Option::Some("connection closed by peer".to_owned());
                LoopAction::Stop
            },
            RecvEvent::ReadError(detail) => {
                self.state = SessionState::Disconnected;
                self.send_installed = false;
                self.recv_installed = false;
                self.last_error = Option::Some(detail);
                LoopAction::Stop
            },
            RecvEvent::Cancelled => {
                self.state = SessionState::Disconnected;
                self.send_installed = false;
                self.recv_installed = false;
                LoopAction::Stop
            },
        }
    }

    /// The transport log: every frame sent on this session, in issue order.
    pub fn sent_frames(&self) -> (frames: &Vec<Vec<u8>>)
        ensures
            frames.deep_view() == self@.sent,
    {
        &self.sent
    }
}

/// The operations of one bot session on its room, as the driver uses them.
pub trait SyncTubeClientTrait: Sized {
    /// The mathematical state of the handle.
    spec fn sess(&self) -> SessionView;

    /// Connects to the room: builds the upgrade request, performs the
    /// handshake (whose outcome the caller reports), and on success installs
    /// both stream halves in one step.  On failure the handle stays
    /// disconnected with nothing installed.
    fn connect(&mut self, handshake_ok: bool) -> (r: Result<(), ConnectError>)
        requires
            old(self).sess().state is Disconnected,
            session_wf(old(self).sess()),
        ensures
            session_wf(final(self).sess()),
            handshake_ok ==> r is Ok && final(self).sess() == (SessionView {
                state: SessionState::Connected,
                send_installed: true,
                recv_installed: true,
                ..old(self).sess()
            }),
            !handshake_ok ==> r == Err::<(), ConnectError>(ConnectError::HandshakeFailed) && final(self).sess() == (SessionView { state: SessionState::Disconnected, ..old(self).sess() }),
    ;

    /// Requests disconnection: raises the flag the receive loop must observe
    /// and moves a connected handle into the disconnecting state.  Cleanup
    /// itself happens in the receive loop's final step.
    fn disconnect(&mut self) -> (r: Result<(), DisconnectError>)
        requires
            session_wf(old(self).sess()),
        ensures
            session_wf(final(self).sess()),
            r is Ok,
            final(self).sess().disconnect_requested,
            old(self).sess().state is Connected ==> final(self).sess() == (SessionView {
                state: SessionState::Disconnecting,
                disconnect_requested: true,
                ..old(self).sess()
            }),
            !(old(self).sess().state is Connected) ==> final(self).sess() == (SessionView {
                disconnect_requested: true,
                ..old(self).sess()
            }),
    ;

    /// Sends the add-video event for one video id, as one text frame.
    fn add_video(
        &mut self,
        video_id: &str,
        timestamp_millis: u64,
        write_failure: Option<String>,
    ) -> (r: Result<(), SendError>)
        requires
            session_wf(old(self).sess()),
        ensures
            session_wf(final(self).sess()),
            old(self).sess().send_installed && write_failure is None ==> r is Ok && final(self).sess() == (SessionView {
                sent: old(self).sess().sent.push(
                    spec_wire_frame(
                        ADD_VIDEO_CODE as nat,
                        spec_add_video_payload(video_id.spec_bytes()),
                        timestamp_millis as nat,
                    ),
                ),
                ..old(self).sess()
            }),
            write_failure matches Some(d) ==> (old(self).sess().send_installed ==> r == Err::<
                (),
                SendError,
            >(SendError::TransportError(d)) && final(self).sess() == old(self).sess()),
            !old(self).sess().send_installed ==> r == Err::<(), SendError>(SendError::NotConnected)
                && final(self).sess() == old(self).sess(),
    ;

    /// Sends the rename event for a new user name, as one text frame.
    fn rename(&mut self, name: &str, timestamp_millis: u64, write_failure: Option<String>) -> (r:
        Result<(), SendError>)
        requires
            session_wf(old(self).sess()),
        ensures
            session_wf(final(self).sess()),
            old(self).sess().send_installed && write_failure is None ==> r is Ok && final(self).sess() == (SessionView {
                sent: old(self).sess().sent.push(
                    spec_wire_frame(
                        RENAME_CODE as nat,
                        spec_string_payload(name.spec_bytes()),
                        timestamp_millis as nat,
                    ),
                ),
                ..old(self).sess()
            }),
            write_failure matches Some(d) ==> (old(self).sess().send_installed ==> r == Err::<
                (),
                SendError,
            >(SendError::TransportError(d)) && final(self).sess() == old(self).sess()),
            !old(self).sess().send_installed ==> r == Err::<(), SendError>(SendError::NotConnected)
                && final(self).sess() == old(self).sess(),
    ;

    /// The playlist count this client tracks; this bot does not parse
    /// inbound frames, so the count stays at zero.
    fn get_playlist_count(&self) -> (r: Result<u32, String>)
        ensures
            r == Ok::<u32, String>(0u32),
    ;

    /// Whether the handle is connected right now: true exactly in the
    /// connected state, hence exactly while both halves are installed and
    /// the session is not winding down.
    fn get_connected(&self) -> (r: bool)
        ensures
            r == (self.sess().state is Connected),
    ;

    /// The error surfaced by the receive loop, if any.
    fn get_error(&self) -> (r: Option<String>)
        ensures
            r is Some <==> self.sess().last_error is Some,
            r matches Some(e) ==> self.sess().last_error == Some(e@),
    ;
}

impl SyncTubeClientTrait for SyncTubeClient {
    open spec fn sess(&self) -> SessionView {
        self@
    }

    fn connect(&mut self, handshake_ok: bool) -> (r: Result<(), ConnectError>) {
        let _request_url = self.begin_connect();
        self.complete_connect(handshake_ok)
    }

    fn disconnect(&mut self) -> (r: Result<(), DisconnectError>) {
        self.disconnect_requested = true;
        if matches!(self.state, SessionState::Connected) {
            self.state = SessionState::Disconnecting;
        }
        proof {
            if old(self)@.state is Connected {
                assert(final(self)@ =~= (SessionView {
                    state: SessionState::Disconnecting,
                    disconnect_requested: true,
                    ..old(self)@
                }));
            } else {
                assert(final(self)@ =~= (SessionView {
                    disconnect_requested: true,
                    ..old(self)@
                }));
            }
        }
        Ok(())
    }

    fn add_video(
        &mut self,
        video_id: &str,
        timestamp_millis: u64,
        write_failure: Option<String>,
    ) -> (r: Result<(), SendError>) {
        let event = encode_add_video(video_id, timestamp_millis);
        let frame = serialize_event(&event);
        self.send_message(frame.as_slice(), write_failure)
    }

    fn rename(&mut self, name: &str, timestamp_millis: u64, write_failure: Option<String>) -> (r:
        Result<(), SendError>) {
        let event = encode_rename(name, timestamp_millis);
        let frame = serialize_event(&event);
        self.send_message(frame.as_slice(), write_failure)
    }

    fn get_playlist_count(&self) -> (r: Result<u32, String>) {
        Ok(0)
    }

    fn get_connected(&self) -> (r: bool) {
        matches!(self.state, SessionState::Connected)
    }

    fn get_error(&self) -> (r: Option<String>) {
        match &self.last_error {
            Option::None => Option::None,
            Option::Some(e) => Option::Some(e.clone()),
        }
    }
}

} // verus!
