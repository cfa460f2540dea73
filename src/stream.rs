use vstd::prelude::*;

verus! {

/// State of one streaming connection.
#[derive(Clone, Copy, Debug, PartialEq, Eq, Structural)]
pub enum ConnectionState {
    Open,
    Closed,
}

/// What happened on a streaming connection.
#[derive(Clone, Copy, Debug, PartialEq, Eq, Structural)]
pub enum ConnectionEvent {
    /// The one-second push timer fired; whether the history held a snapshot.
    Tick { latest_present: bool },
    /// Serializing the latest snapshot succeeded or failed.
    Serialized { ok: bool },
    /// The transport took the push, or refused it.
    Pushed { ok: bool },
    /// A frame came from the client: data, or a close or error frame.
    Inbound { close: bool },
    /// The client's stream ended.
    InboundEnded,
}

/// What the connection does next.
#[derive(Clone, Copy, Debug, PartialEq, Eq, Structural)]
pub enum ConnectionAction {
    /// Nothing to do until the next event.
    Wait,
    /// Fetch the latest snapshot and serialize it.
    SerializeLatest,
    /// Send the serialized snapshot.
    Push,
    /// Log the serialization fault and skip this push.
    SkipPush,
    /// End the connection.
    Close,
}

/// The transition table of a streaming connection.
pub open spec fn connection_next(state: ConnectionState, event: ConnectionEvent) -> (
    ConnectionState,
    ConnectionAction,
) {
    match state {
        ConnectionState::Closed => (ConnectionState::Closed, ConnectionAction::Wait),
        ConnectionState::Open => match event {
            ConnectionEvent::Tick { latest_present } => if latest_present {
                (ConnectionState::Open, ConnectionAction::SerializeLatest)
            } else {
                (ConnectionState::Open, ConnectionAction::Wait)
            },
            ConnectionEvent::Serialized { ok } => if ok {
                (ConnectionState::Open, ConnectionAction::Push)
            } else {
                (ConnectionState::Open, ConnectionAction::SkipPush)
            },
            ConnectionEvent::Pushed { ok } => if ok {
                (ConnectionState::Open, ConnectionAction::Wait)
            } else {
                (ConnectionState::Closed, ConnectionAction::Close)
            },
            ConnectionEvent::Inbound { close } => if close {
                (ConnectionState::Closed, ConnectionAction::Close)
            } else {
                (ConnectionState::Open, ConnectionAction::Wait)
            },
            ConnectionEvent::InboundEnded => (ConnectionState::Closed, ConnectionAction::Close),
        },
    }
}

/// Decides the next state and action of a streaming connection: a push is
/// prepared only when the history holds a snapshot, a serialization fault
/// skips that push and keeps the connection open, and a transport failure or
/// a close from the client ends it.
pub fn handle_ws_event(state: ConnectionState, event: ConnectionEvent) -> (r: (
    ConnectionState,
    ConnectionAction,
))
    ensures
        r == connection_next(state, event),
{
    match state {
        ConnectionState::Closed => (ConnectionState::Closed, ConnectionAction::Wait),
        ConnectionState::Open => match event {
            ConnectionEvent::Tick { latest_present: true } => (
                ConnectionState::Open,
                ConnectionAction::SerializeLatest,
            ),
            ConnectionEvent::Tick { latest_present: false } => (
                ConnectionState::Open,
                ConnectionAction::Wait,
            ),
            ConnectionEvent::Serialized { ok: true } => (
                ConnectionState::Open,
                ConnectionAction::Push,
            ),
            ConnectionEvent::Serialized { ok: false } => (
                ConnectionState::Open,
                ConnectionAction::SkipPush,
            ),
            ConnectionEvent::Pushed { ok: true } => (ConnectionState::Open, ConnectionAction::Wait),
            ConnectionEvent::Pushed { ok: false } => (
                ConnectionState::Closed,
                ConnectionAction::Close,
            ),
            ConnectionEvent::Inbound { close: false } => (
                ConnectionState::Open,
                ConnectionAction::Wait,
            ),
            ConnectionEvent::Inbound { close: true } => (
                ConnectionState::Closed,
                ConnectionAction::Close,
            ),
            ConnectionEvent::InboundEnded => (ConnectionState::Closed, ConnectionAction::Close),
        },
    }
}

} // verus!
