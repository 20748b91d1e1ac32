//! A verified core for a bot client of a synchronized-video-watching web
//! service.  The library holds the pure logic of the bot: the wire-event
//! encoder, the provisioning decisions, the session-handle state machine and
//! the driver that scripts one session.  The network itself (HTTP requests and
//! the WebSocket transport) lives outside the library and feeds its outcomes
//! into the state machines as plain values.
use vstd::prelude::*;

pub mod driver;
pub mod provision;
pub mod session;
pub mod wire;

verus! {

/// A successful HTTP status, as the provisioning steps classify responses.
pub open spec fn spec_status_is_success(status: u16) -> bool {
    200 <= status < 300
}

/// Classifies an HTTP status code: 2xx counts as success.
pub fn status_is_success(status: u16) -> (r: bool)
    ensures
        r == spec_status_is_success(status),
{
    200 <= status && status < 300
}

} // verus!
