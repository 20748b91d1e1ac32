//! Room provisioning: the create-and-join exchange with the remote service.
//!
//! The HTTP calls themselves happen outside the library.  What stands here is
//! everything decidable from their outcomes: which status codes abort the
//! exchange and with which error, the exact JSON body and referer of the join
//! request, and the extraction of the session credential from the response's
//! cookie header.
use crate::wire::spec_escape_bytes;
use crate::wire::{escape_json_bytes, push_bytes};
use crate::{spec_status_is_success, status_is_success};
use vstd::prelude::*;
use vstd::string::*;
use vstd::utf8::encode_utf8;

verus! {

/// The decoded body of the room-creation response.
pub struct CreateRoomResponse {
    /// The identifier of the freshly created room.
    pub id: String,
}

/// The player's sub-preferences sent while joining; the volume is carried in
/// tenths, so `2` stands for a volume of `0.2`.
pub struct SoundcloudPreferences {
    /// Volume in tenths; meaningful values lie below ten.
    pub volume_tenths: u8,
}

/// The player preferences sent while joining.
pub struct PlayerPreferences {
    /// The soundcloud player's preferences.
    pub soundcloud: SoundcloudPreferences,
}

/// The capability-negotiation preferences sent while joining a room.
pub struct RoomPreferences {
    /// An optional user handle.
    pub user: Option<String>,
    /// The player preferences.
    pub player: PlayerPreferences,
    /// The consent flag.
    pub consent: bool,
}

/// The body of the join request: the room to join and the preferences.
pub struct JoinRoomRequest {
    /// The identifier of the room to join.
    pub id: String,
    /// The preferences negotiated while joining.
    pub preferences: RoomPreferences,
}

/// A provisioned room: its identifier and the session credential.
pub struct Room {
    /// The opaque room identifier.
    pub id: String,
    /// The session credential: the first segment of the join response's
    /// cookie header.
    pub token: String,
}

/// Why provisioning failed.
#[derive(Clone, Copy, PartialEq, Eq, Structural, Debug)]
pub enum ProvisionError {
    /// The create endpoint answered with a non-success status, or its body
    /// held no room identifier.
    CreateFailed,
    /// The join endpoint answered with a non-success status.
    JoinFailed,
    /// The join response carried no cookie header to take a credential from.
    MissingCredential,
}

/// What the provisioner does after seeing the create response: abort, or
/// call the join endpoint with this body and referer.
pub enum ProvisionAction {
    /// Stop the exchange with this error; in particular, the join endpoint
    /// is never called.
    Abort(ProvisionError),
    /// Call the join endpoint.
    CallJoin {
        /// The JSON body of the join request.
        body: Vec<u8>,
        /// The referer header: the room's public URL.
        referer: String,
    },
}

/// The index of the first `;` in a sequence, or its length if there is none.
pub open spec fn spec_first_semi(s: Seq<char>) -> int
    decreases s.len(),
{
    if s.len() == 0 {
        0
    } else if s.first() == ';' {
        0
    } else {
        1 + spec_first_semi(s.drop_first())
    }
}

/// The credential in a cookie header: its first `;`-delimited segment.
pub open spec fn spec_cookie_first_segment(s: Seq<char>) -> Seq<char> {
    s.take(spec_first_semi(s))
}

/// A position with no `;` before it and a `;` (or the end) at it is the
/// first-semicolon position.
proof fn lemma_first_semi_at(s: Seq<char>, i: int)
    requires
        0 <= i <= s.len(),
        forall|k: int| 0 <= k < i ==> s[k] != ';',
        i < s.len() ==> s[i] == ';',
    ensures
        spec_first_semi(s) == i,
    decreases i,
{
    if i == 0 {
    } else {
        assert(s[0] != ';');
        lemma_first_semi_at(s.drop_first(), i - 1);
    }
}

/// Extracts the session credential from a cookie header: everything before
/// the first `;`, or the whole header if it has none.
pub fn extract_credential(header: &str) -> (cred: String)
    ensures
        cred@ == spec_cookie_first_segment(header@),
{
    let ulen = header.unicode_len();
    let mut i: usize = 0;
    while i < ulen && header.get_char(i) != ';'
        invariant
            i <= header@.len(),
            ulen == header@.len(),
            forall|k: int| 0 <= k < i ==> header@[k] != ';',
        decreases ulen - i,
    {
        i = i + 1;
    }
    proof {
        lemma_first_semi_at(header@, i as int);
        assert(header@.take(i as int) =~= header@.subrange(0, i as int));
    }
    let segment = header.substring_char(0, i);
    segment.to_owned()
}

/// The public URL of a room, which the join request names as its referer.
pub open spec fn spec_room_url(room_id: Seq<char>) -> Seq<char> {
    "https://sync-tube.de/room/"@ + room_id
}

/// Builds the public URL of a room.
pub fn room_url(room_id: &str) -> (url: String)
    ensures
        url@ == spec_room_url(room_id@),
{
    let mut url = String::new();
    url.append("https://sync-tube.de/room/");
    url.append(room_id);
    url
}

/// The JSON rendering of the optional user handle: `null`, or the handle as
/// an escaped JSON string.
pub open spec fn spec_user_json(user: Option<Seq<u8>>) -> Seq<u8> {
    match user {
        Option::None => "null".spec_bytes(),
        Option::Some(u) => seq![34u8] + spec_escape_bytes(u) + seq![34u8],
    }
}

/// The JSON rendering of a boolean.
pub open spec fn spec_bool_json(b: bool) -> Seq<u8> {
    if b {
        "true".spec_bytes()
    } else {
        "false".spec_bytes()
    }
}

/// The JSON rendering of a volume held in tenths: `0.` and one digit.
pub open spec fn spec_volume_json(volume_tenths: u8) -> Seq<u8> {
    "0.".spec_bytes() + seq![(48 + volume_tenths) as u8]
}

/// The bytes of the optional user handle, if one is set.
pub open spec fn spec_opt_string_bytes(user: Option<String>) -> Option<Seq<u8>> {
    match user {
        Option::None => Option::None,
        Option::Some(u) => Option::Some(encode_utf8(u@)),
    }
}

/// The exact JSON body of the join request for a room identifier and a set
/// of preferences.
pub open spec fn spec_join_body(
    id: Seq<u8>,
    user: Option<Seq<u8>>,
    volume_tenths: u8,
    consent: bool,
) -> Seq<u8> {
    "{\"id\":\"".spec_bytes() + spec_escape_bytes(id) + "\",\"preferences\":{\"user\":".spec_bytes()
        + spec_user_json(user) + ",\"player\":{\"soundcloud\":{\"volume\":".spec_bytes()
        + spec_volume_json(volume_tenths) + "}},\"consent\":".spec_bytes() + spec_bool_json(consent)
        + "}}".spec_bytes()
}

/// Serializes a join request into its JSON body.
pub fn serialize_join_request(req: &JoinRoomRequest) -> (out: Vec<u8>)
    requires
        req.preferences.player.soundcloud.volume_tenths < 10,
    ensures
        out@ == spec_join_body(
            encode_utf8(req.id@),
            spec_opt_string_bytes(req.preferences.user),
            req.preferences.player.soundcloud.volume_tenths,
            req.preferences.consent,
        ),
{
    let mut out: Vec<u8> = Vec::new();
    push_bytes(&mut out, "{\"id\":\"".as_bytes());
    let mut id_esc = escape_json_bytes(req.id.as_str().as_bytes());
    out.append(&mut id_esc);
    push_bytes(&mut out, "\",\"preferences\":{\"user\":".as_bytes());
    match &req.preferences.user {
        Option::None => {
            push_bytes(&mut out, "null".as_bytes());
        },
        Option::Some(u) => {
            out.push(34);
            let mut user_esc = escape_json_bytes(u.as_str().as_bytes());
            out.append(&mut user_esc);
            out.push(34);
        },
    }
    push_bytes(&mut out, ",\"player\":{\"soundcloud\":{\"volume\":".as_bytes());
    push_bytes(&mut out, "0.".as_bytes());
    out.push(48 + req.preferences.player.soundcloud.volume_tenths);
    push_bytes(&mut out, "}},\"consent\":".as_bytes());
    if req.preferences.consent {
        push_bytes(&mut out, "true".as_bytes());
    } else {
        push_bytes(&mut out, "false".as_bytes());
    }
    push_bytes(&mut out, "}}".as_bytes());
    proof {
        assert(out@ =~= spec_join_body(
            encode_utf8(req.id@),
            spec_opt_string_bytes(req.preferences.user),
            req.preferences.player.soundcloud.volume_tenths,
            req.preferences.consent,
        ));
    }
    out
}

/// Decides what follows the create response.  A non-success status, or a
/// body without a room identifier, aborts the exchange with
/// [`ProvisionError::CreateFailed`] — the join endpoint is then never
/// called.  Otherwise the provisioner calls the join endpoint with the
/// exact body and referer stated here.
pub fn after_create(status: u16, body: Option<CreateRoomResponse>, prefs: &RoomPreferences) -> (act:
    ProvisionAction)
    requires
        prefs.player.soundcloud.volume_tenths < 10,
    ensures
        !spec_status_is_success(status) ==> act == ProvisionAction::Abort(
            ProvisionError::CreateFailed,
        ),
        spec_status_is_success(status) && body is None ==> act == ProvisionAction::Abort(
            ProvisionError::CreateFailed,
        ),
        spec_status_is_success(status) && body is Some ==> act is CallJoin,
        body matches Some(resp) ==> (act matches ProvisionAction::CallJoin { body: jb, referer }
            ==> jb@ == spec_join_body(
            encode_utf8(resp.id@),
            spec_opt_string_bytes(prefs.user),
            prefs.player.soundcloud.volume_tenths,
            prefs.consent,
        ) && referer@ == spec_room_url(resp.id@)),
{
    if !status_is_success(status) {
        return ProvisionAction::Abort(ProvisionError::CreateFailed);
    }
    match body {
        Option::None => ProvisionAction::Abort(ProvisionError::CreateFailed),
        Option::Some(resp) => {
            let req = JoinRoomRequest {
                id: resp.id,
                preferences: RoomPreferences {
                    user: clone_opt_string(&prefs.user),
                    player: PlayerPreferences {
                        soundcloud: SoundcloudPreferences {
                            volume_tenths: prefs.player.soundcloud.volume_tenths,
                        },
                    },
                    consent: prefs.consent,
                },
            };
            let jb = serialize_join_request(&req);
            let referer = room_url(req.id.as_str());
            ProvisionAction::CallJoin { body: jb, referer }
        },
    }
}

/// Clones an optional string, keeping its characters.
fn clone_opt_string(user: &Option<String>) -> (r: Option<String>)
    ensures
        spec_opt_string_bytes(*user) == spec_opt_string_bytes(r),
        r is Some <==> user is Some,
{
    match user {
        Option::None => Option::None,
        Option::Some(u) => Option::Some(u.clone()),
    }
}

/// Decides what the join response means.  A non-success status is
/// [`ProvisionError::JoinFailed`]; a success without a cookie header is
/// [`ProvisionError::MissingCredential`]; otherwise the room is provisioned
/// with the credential extracted from the header's first segment.
pub fn after_join(id: &str, status: u16, set_cookie: Option<&str>) -> (r: Result<
    Room,
    ProvisionError,
>)
    ensures
        !spec_status_is_success(status) ==> r == Err::<Room, ProvisionError>(
            ProvisionError::JoinFailed,
        ),
        spec_status_is_success(status) && set_cookie is None ==> r == Err::<Room, ProvisionError>(
            ProvisionError::MissingCredential,
        ),
        spec_status_is_success(status) && set_cookie is Some ==> r is Ok,
        set_cookie matches Some(header) ==> (r matches Ok(room) ==> room.id@ == id@ && room.token@
            == spec_cookie_first_segment(header@)),
{
    if !status_is_success(status) {
        return Err(ProvisionError::JoinFailed);
    }
    match set_cookie {
        Option::None => Err(ProvisionError::MissingCredential),
        Option::Some(header) => {
            let token = extract_credential(header);
            Ok(Room { id: id.to_owned(), token })
        },
    }
}

/// What the whole create-and-join exchange yields for given responses: the
/// create outcome decides alone whether the exchange goes on — a failed
/// create is [`ProvisionError::CreateFailed`] whatever the join endpoint
/// would have answered — and a completed exchange yields the room identifier
/// from the create body with the credential from the join response's cookie
/// header.
pub open spec fn spec_provision_result(
    create_status: u16,
    create_id: Option<Seq<char>>,
    join_status: u16,
    cookie: Option<Seq<char>>,
    r: Result<Room, ProvisionError>,
) -> bool {
    if !spec_status_is_success(create_status) || create_id is None {
        r == Err::<Room, ProvisionError>(ProvisionError::CreateFailed)
    } else if !spec_status_is_success(join_status) {
        r == Err::<Room, ProvisionError>(ProvisionError::JoinFailed)
    } else if cookie is None {
        r == Err::<Room, ProvisionError>(ProvisionError::MissingCredential)
    } else {
        create_id matches Some(id) && cookie matches Some(header) && r matches Ok(room) && room.id@
            == id && room.token@ == spec_cookie_first_segment(header)
    }
}

/// The room identifier a create response carries, if any.
pub open spec fn spec_opt_id_view(body: Option<CreateRoomResponse>) -> Option<Seq<char>> {
    match body {
        Option::None => Option::None,
        Option::Some(resp) => Option::Some(resp.id@),
    }
}

/// The characters of an optional header.
pub open spec fn spec_opt_str_view(s: Option<&str>) -> Option<Seq<char>> {
    match s {
        Option::None => Option::None,
        Option::Some(h) => Option::Some(h@),
    }
}

/// One whole provisioning exchange, given the remote service's responses:
/// create first; only when it succeeded, join.  A single attempt each, no
/// retries.
pub fn create_and_join(
    prefs: &RoomPreferences,
    create_status: u16,
    create_body: Option<CreateRoomResponse>,
    join_status: u16,
    set_cookie: Option<&str>,
) -> (r: Result<Room, ProvisionError>)
    requires
        prefs.player.soundcloud.volume_tenths < 10,
    ensures
        spec_provision_result(
            create_status,
            spec_opt_id_view(create_body),
            join_status,
            spec_opt_str_view(set_cookie),
            r,
        ),
{
    let id = match create_body {
        Option::None => {
            return Err(ProvisionError::CreateFailed);
        },
        Option::Some(resp) => resp.id,
    };
    let act = after_create(
        create_status,
        Option::Some(CreateRoomResponse { id: id.clone() }),
        prefs,
    );
    match act {
        ProvisionAction::Abort(e) => Err(e),
        ProvisionAction::CallJoin { body: _body, referer: _referer } => {
            after_join(id.as_str(), join_status, set_cookie)
        },
    }
}

} // verus!
