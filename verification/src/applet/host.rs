//! The host's side of the socket: which connections are let in, and what the
//! two pumps of a connection do with what they receive.
//!
//! The host accepts connections, spawns tasks and moves bytes; the functions
//! here decide. A connection goes through [`ConnectionState`]: accepted,
//! identified by the process id of its peer, piped while its pumps run, and
//! closed. The pid that the operating system reports for the peer at accept
//! time is all that ties a connection to a launched applet.

use crate::applet::connection::{write_frame, ReadError};
use crate::applet::frame::frame;
use crate::applet::interface::{Applet, AppletEvent, AppletRequest};
use crate::applet::payload::Payload;
use crate::applet::registry::Registry;
use crate::applet::runtime::RuntimeMessage;
use vstd::prelude::*;

verus! {

/// One of the two tasks that serve a connection.
#[derive(Debug, Clone, Copy, PartialEq, Eq, Structural)]
pub enum Pump {
    /// Reads requests off the connection and forwards them into the host.
    Requests,
    /// Takes events off the applet's channel and writes them to the
    /// connection.
    Events,
}

/// Where an accepted connection stands.
#[derive(Debug, Clone, Copy, PartialEq, Eq, Structural)]
pub enum ConnectionState {
    /// The stream has been accepted; its peer is not known yet.
    Accepted,
    /// The peer is the launched applet with this process id.
    Identified { pid: u32 },
    /// The pumps were started; each flag says whether that pump still runs.
    Piped { pid: u32, requests: bool, events: bool },
    /// Nothing more happens on this connection.
    Closed,
}

/// What happened to a connection.
#[derive(Debug, Clone, Copy, PartialEq, Eq, Structural)]
pub enum ConnectionEvent {
    /// The operating system reported the peer's process id, or none.
    Credentials(Option<i32>),
    /// Both pumps have been spawned.
    PumpsStarted,
    /// A pump has come to its end.
    PumpEnded(Pump),
}

/// What the host is to do for a connection.
#[derive(Debug, Clone, Copy, PartialEq, Eq, Structural)]
pub enum ConnectionAction {
    /// Nothing.
    Nothing,
    /// Shut the stream down; no pump is started.
    Shutdown,
    /// Split the stream, subscribe to the applet's channel and spawn both
    /// pumps.
    StartPumps { pid: u32 },
    /// Both pumps are gone: let go of what the connection held.
    Release,
}

/// What a subscriber got from an applet's event channel.
#[derive(Debug, Clone, Copy, PartialEq, Eq, Structural)]
pub enum Delivery {
    /// The next event.
    Event(AppletEvent),
    /// The subscriber fell behind, and this many of the oldest events are
    /// lost to it.
    Lagged(u64),
    /// The channel is gone: its applet was closed.
    Closed,
}

/// The launched applet that a peer is, if it is one: the peer's process id
/// must be known, and the registry must hold it.
pub open spec fn identified<H>(registry: Map<u32, Applet<H>>, peer: Option<i32>) -> Option<u32> {
    match peer {
        Some(pid) => if pid >= 0 && registry.contains_key(pid as u32) {
            Some(pid as u32)
        } else {
            None
        },
        None => None,
    }
}

/// The transitions of a connection: the state it goes to, and what the host
/// is to do.
pub open spec fn next<H>(
    state: ConnectionState,
    event: ConnectionEvent,
    registry: Map<u32, Applet<H>>,
) -> (ConnectionState, ConnectionAction) {
    match (state, event) {
        (ConnectionState::Accepted, ConnectionEvent::Credentials(peer)) => match identified(
            registry,
            peer,
        ) {
            Some(pid) => (ConnectionState::Identified { pid }, ConnectionAction::StartPumps { pid }),
            None => (ConnectionState::Closed, ConnectionAction::Shutdown),
        },
        (ConnectionState::Identified { pid }, ConnectionEvent::PumpsStarted) => (
            ConnectionState::Piped { pid, requests: true, events: true },
            ConnectionAction::Nothing,
        ),
        (ConnectionState::Piped { pid, requests, events }, ConnectionEvent::PumpEnded(pump)) => {
            let requests = requests && pump != Pump::Requests;
            let events = events && pump != Pump::Events;
            if requests || events {
                (ConnectionState::Piped { pid, requests, events }, ConnectionAction::Nothing)
            } else {
                (ConnectionState::Closed, ConnectionAction::Release)
            }
        },
        _ => (state, ConnectionAction::Nothing),
    }
}

/// Decides whether a peer is let in. Returns the process id under which the
/// registry knows it.
pub fn identify<H>(registry: &Registry<H>, peer: Option<i32>) -> (r: Option<u32>)
    ensures
        r == identified(registry@, peer),
{
    match peer {
        Some(pid) => {
            if pid >= 0 && registry.contains(pid as u32) {
                Some(pid as u32)
            } else {
                None
            }
        },
        None => None,
    }
}

/// Moves a connection on by one event.
pub fn step<H>(state: ConnectionState, event: ConnectionEvent, registry: &Registry<H>) -> (r: (
    ConnectionState,
    ConnectionAction,
))
    ensures
        r == next(state, event, registry@),
{
    match (state, event) {
        (ConnectionState::Accepted, ConnectionEvent::Credentials(peer)) => {
            match identify(registry, peer) {
                Some(pid) => (
                    ConnectionState::Identified { pid },
                    ConnectionAction::StartPumps { pid },
                ),
                None => (ConnectionState::Closed, ConnectionAction::Shutdown),
            }
        },
        (ConnectionState::Identified { pid }, ConnectionEvent::PumpsStarted) => (
            ConnectionState::Piped { pid, requests: true, events: true },
            ConnectionAction::Nothing,
        ),
        (ConnectionState::Piped { pid, requests, events }, ConnectionEvent::PumpEnded(pump)) => {
            let requests = requests && pump != Pump::Requests;
            let events = events && pump != Pump::Events;
            if requests || events {
                (ConnectionState::Piped { pid, requests, events }, ConnectionAction::Nothing)
            } else {
                (ConnectionState::Closed, ConnectionAction::Release)
            }
        },
        _ => (state, ConnectionAction::Nothing),
    }
}

/// One turn of the request pump of the applet `pid`: what to forward into
/// the host for what a read gave. A request goes on tagged with the applet's
/// process id; the end of the stream and every error end the pump, and
/// `None` says so.
pub fn request_pump<S, H>(pid: u32, read: Result<Option<AppletRequest>, ReadError>) -> (r: Option<
    RuntimeMessage<S, H>,
>)
    ensures
        r == match read {
            Ok(Some(request)) => Some(RuntimeMessage::<S, H>::Request(request, pid)),
            _ => None,
        },
{
    match read {
        Ok(Some(request)) => Some(RuntimeMessage::Request(request, pid)),
        _ => None,
    }
}

/// Closes the applet `pid`: its entry leaves the registry. The entry is
/// handed back together with the report for the rest of the host; dropping
/// it lets go of the applet's channel, so that the applet's connection sees
/// the channel close. For a process that is no launched applet nothing
/// happens.
pub fn shutdown<S, H>(registry: &mut Registry<H>, pid: u32) -> (r: Option<
    (Applet<H>, RuntimeMessage<S, H>),
>)
    ensures
        final(registry)@ == old(registry)@.remove(pid),
        r is Some <==> old(registry)@.contains_key(pid),
        r matches Some(gone) ==> gone.0 == old(registry)@[pid] && gone.1 == RuntimeMessage::<
            S,
            H,
        >::Shutdown(pid),
{
    match registry.close(pid) {
        Some(applet) => Some((applet, RuntimeMessage::Shutdown(pid))),
        None => None,
    }
}

/// What the event pump is to do next.
#[derive(Debug, Clone, PartialEq, Eq)]
pub enum EventStep {
    /// Write these bytes in one piece, flush, and go on unless that fails.
    Write(Vec<u8>),
    /// Go on: events were lost, and nothing can be done about it.
    Skip,
    /// End the pump.
    Stop,
}

/// One turn of the event pump: what to do for what the applet's channel gave.
/// An event is written as one frame. Lost events only cost the applet some
/// layout facts that later events repeat, so the pump goes on. A closed
/// channel ends the pump.
pub fn event_pump(delivery: Delivery) -> (r: EventStep)
    ensures
        match delivery {
            Delivery::Event(event) => r matches EventStep::Write(bytes) && bytes@ == frame(
                event.payload(),
            ),
            Delivery::Lagged(_) => r is Skip,
            Delivery::Closed => r is Stop,
        },
{
    match delivery {
        Delivery::Event(event) => EventStep::Write(write_frame(&event)),
        Delivery::Lagged(_) => EventStep::Skip,
        Delivery::Closed => EventStep::Stop,
    }
}

/// A peer that the registry does not hold is turned away: the connection is
/// closed at once, and no pump is started for it.
pub proof fn lemma_unknown_peer_is_closed<H>(registry: Map<u32, Applet<H>>, peer: Option<i32>)
    requires
        peer matches Some(pid) ==> pid < 0 || !registry.contains_key(pid as u32),
    ensures
        next(ConnectionState::Accepted, ConnectionEvent::Credentials(peer), registry) == (
            ConnectionState::Closed,
            ConnectionAction::Shutdown,
        ),
{
}

/// Pumps are started only for a launched applet, only from a fresh
/// connection, and under the process id that the peer reported.
pub proof fn lemma_pumps_only_for_applets<H>(
    state: ConnectionState,
    event: ConnectionEvent,
    registry: Map<u32, Applet<H>>,
)
    ensures
        next(state, event, registry).1 matches ConnectionAction::StartPumps { pid } ==> {
            &&& registry.contains_key(pid)
            &&& state == ConnectionState::Accepted
            &&& event == ConnectionEvent::Credentials(Some(pid as i32))
            &&& next(state, event, registry).0 == (ConnectionState::Identified { pid })
        },
{
}

/// A closed connection stays closed and asks for nothing.
pub proof fn lemma_closed_is_final<H>(event: ConnectionEvent, registry: Map<u32, Applet<H>>)
    ensures
        next(ConnectionState::Closed, event, registry) == (
            ConnectionState::Closed,
            ConnectionAction::Nothing,
        ),
{
}

/// A piped connection is released exactly when its last pump ends.
pub proof fn lemma_released_with_last_pump<H>(
    state: ConnectionState,
    event: ConnectionEvent,
    registry: Map<u32, Applet<H>>,
)
    ensures
        next(state, event, registry).1 == ConnectionAction::Release <==> {
            &&& state matches ConnectionState::Piped { requests, events, .. }
            &&& event matches ConnectionEvent::PumpEnded(pump)
            &&& !(requests && pump != Pump::Requests)
            &&& !(events && pump != Pump::Events)
        },
{
}

} // verus!
