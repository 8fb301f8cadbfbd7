//! The applet's side of the socket.
//!
//! An applet connects to the host once, when it starts. Where that fails it
//! goes on without a link: it still runs, and only hears nothing from the
//! host. Where it succeeds, one pump writes the applet's requests to the
//! host and another hands the host's events to the applet's own logic.

use crate::applet::connection::{write_frame, ReadError};
use crate::applet::frame::frame;
use crate::applet::interface::{AppletEvent, AppletMessage, AppletRequest};
use crate::applet::payload::Payload;
use vstd::prelude::*;

verus! {

/// Where the applet's link to the host stands.
#[derive(Debug, Clone, Copy, PartialEq, Eq, Structural)]
pub enum LinkState {
    /// The one attempt to connect has not ended yet.
    Connecting,
    /// The connection stands, and both pumps are to run.
    Linked,
    /// There is no connection, and none will be tried again.
    Degraded,
}

/// The link after the attempt to connect ended, well or not. Only a link
/// that was connecting changes.
pub open spec fn link_after(state: LinkState, connected: bool) -> LinkState {
    if state == LinkState::Connecting {
        if connected {
            LinkState::Linked
        } else {
            LinkState::Degraded
        }
    } else {
        state
    }
}

/// Books the end of the attempt to connect. The caller spawns the two pumps
/// exactly where the result is [`LinkState::Linked`] and the link was
/// connecting before.
pub fn on_connect(state: LinkState, connected: bool) -> (r: LinkState)
    ensures
        r == link_after(state, connected),
{
    match state {
        LinkState::Connecting => if connected {
            LinkState::Linked
        } else {
            LinkState::Degraded
        },
        _ => state,
    }
}

/// One turn of the applet's event pump: what to hand to the applet's logic
/// for what a read gave. An event goes on as it is; the end of the stream
/// and every error end the pump, and `None` says so.
pub fn event_pump<S>(read: Result<Option<AppletEvent>, ReadError>) -> (r: Option<AppletMessage<S>>)
    ensures
        r == match read {
            Ok(Some(event)) => Some(AppletMessage::<S>::Event(event)),
            _ => None,
        },
{
    match read {
        Ok(Some(event)) => Some(AppletMessage::Event(event)),
        _ => None,
    }
}

/// One turn of the applet's request pump: the bytes to write for the next
/// request of the applet's logic. `None` for `next` says that the logic has
/// let go of its sending side; the pump then ends, and `None` says so.
pub fn request_pump(next: Option<AppletRequest>) -> (r: Option<Vec<u8>>)
    ensures
        r is Some <==> next is Some,
        r matches Some(bytes) ==> bytes@ == frame(next->0.payload()),
{
    match next {
        Some(request) => Some(write_frame(&request)),
        None => None,
    }
}

} // verus!
