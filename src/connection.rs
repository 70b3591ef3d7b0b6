//! The hub's per-connection protocol: read one hello, then either publish one
//! status update and close, or stream snapshots to a displayer until a write
//! fails.
//!
//! The machine decides; the caller performs each action (publish on the
//! broadcast channel, subscribe, write a frame, close) and reports back what
//! happened as the next event.

use crate::protocol::{
    applied, person_is_ok, ClientHelloMessage, DisplayMessage, DisplayStateMutation,
};
use vstd::prelude::*;

verus! {

/// Why a connection ended in failure.
#[derive(Clone, Copy, Debug, PartialEq, Eq, Structural)]
pub enum ConnectionError {
    /// A frame could not be decoded.
    Decode,
    /// Reading from the client failed.
    Read,
    /// The client closed the stream before sending a hello.
    DroppedBeforeHello,
    /// An update's status text is too long.
    InvalidPersonIs,
    /// An update was published while nobody listened.
    NoSubscribers,
    /// Writing a snapshot to the client failed.
    Write,
}

/// Where a connection stands.
pub enum HubConnection {
    /// Waiting for the hello; `seed` is the status at accept time.
    AwaitingHello { seed: DisplayMessage },
    /// An updater whose mutation is being published.
    Publishing,
    /// A displayer, with its own copy of the status.
    Streaming { replica: DisplayMessage },
    /// Finished, successfully or not.
    Closed { outcome: Result<(), ConnectionError> },
}

/// What happened on the connection, its subscription, or its timer.
pub enum ConnectionEvent {
    /// A hello was decoded.
    Hello(ClientHelloMessage),
    /// A frame could not be decoded.
    DecodeFailed,
    /// Reading from the client failed.
    ReadFailed,
    /// The client closed the stream cleanly.
    EndOfStream,
    /// The publish finished: `true` when some subscriber received it.
    Published(bool),
    /// The heartbeat timer fired.
    Tick,
    /// A mutation arrived on the subscription.
    Update(DisplayStateMutation),
    /// The subscription skipped mutations it could not hold.
    Lagged,
    /// The subscription has no producers left.
    UpdatesClosed,
    /// Writing a snapshot to the client failed.
    WriteFailed,
}

/// What the caller must do next.
pub enum ConnectionAction {
    /// Nothing; wait for the next event.
    Nothing,
    /// Publish this mutation on the broadcast channel and report the outcome.
    Publish(DisplayStateMutation),
    /// Subscribe to the broadcast channel, then write this snapshot.
    SubscribeAndSend(DisplayMessage),
    /// Write this snapshot to the client.
    Send(DisplayMessage),
    /// Close the connection.
    Close,
}

/// The transition of a connection in state `c` on event `e`: the next state
/// and the action to perform.
pub open spec fn next(c: HubConnection, e: ConnectionEvent) -> (HubConnection, ConnectionAction) {
    match c {
        HubConnection::AwaitingHello { seed } => match e {
            ConnectionEvent::Hello(ClientHelloMessage::PersonIsUpdate(u)) => {
                if person_is_ok(u.person_is@) {
                    (
                        HubConnection::Publishing,
                        ConnectionAction::Publish(DisplayStateMutation::SetPersonIs(u)),
                    )
                } else {
                    (
                        HubConnection::Closed { outcome: Err(ConnectionError::InvalidPersonIs) },
                        ConnectionAction::Close,
                    )
                }
            },
            ConnectionEvent::Hello(ClientHelloMessage::Display(_)) => (
                HubConnection::Streaming { replica: seed },
                ConnectionAction::SubscribeAndSend(seed),
            ),
            ConnectionEvent::DecodeFailed => (
                HubConnection::Closed { outcome: Err(ConnectionError::Decode) },
                ConnectionAction::Close,
            ),
            ConnectionEvent::ReadFailed => (
                HubConnection::Closed { outcome: Err(ConnectionError::Read) },
                ConnectionAction::Close,
            ),
            ConnectionEvent::EndOfStream => (
                HubConnection::Closed { outcome: Err(ConnectionError::DroppedBeforeHello) },
                ConnectionAction::Close,
            ),
            _ => (c, ConnectionAction::Nothing),
        },
        HubConnection::Publishing => match e {
            ConnectionEvent::Published(delivered) => (
                HubConnection::Closed {
                    outcome: if delivered {
                        Ok(())
                    } else {
                        Err(ConnectionError::NoSubscribers)
                    },
                },
                ConnectionAction::Close,
            ),
            _ => (c, ConnectionAction::Nothing),
        },
        HubConnection::Streaming { replica } => match e {
            ConnectionEvent::Tick => (c, ConnectionAction::Send(replica)),
            ConnectionEvent::Lagged => (c, ConnectionAction::Send(replica)),
            ConnectionEvent::UpdatesClosed => (c, ConnectionAction::Send(replica)),
            ConnectionEvent::Update(m) => (
                HubConnection::Streaming { replica: applied(m, replica) },
                ConnectionAction::Send(applied(m, replica)),
            ),
            ConnectionEvent::WriteFailed => (
                HubConnection::Closed { outcome: Err(ConnectionError::Write) },
                ConnectionAction::Close,
            ),
            _ => (c, ConnectionAction::Nothing),
        },
        HubConnection::Closed { .. } => (c, ConnectionAction::Nothing),
    }
}

impl HubConnection {
    /// A freshly accepted connection, seeded with the status at accept time.
    pub fn new(seed: DisplayMessage) -> (r: HubConnection)
        ensures
            r == (HubConnection::AwaitingHello { seed }),
    {
        HubConnection::AwaitingHello { seed }
    }

    /// Whether the connection has finished.
    pub fn is_closed(&self) -> (r: bool)
        ensures
            r == (*self is Closed),
    {
        match self {
            HubConnection::Closed { .. } => true,
            _ => false,
        }
    }

    /// How the connection finished, once it has.
    pub fn outcome(&self) -> (r: Option<Result<(), ConnectionError>>)
        ensures
            r == (match *self {
                HubConnection::Closed { outcome } => Some(outcome),
                _ => None,
            }),
    {
        match self {
            HubConnection::Closed { outcome } => Some(*outcome),
            _ => None,
        }
    }

    /// Handles one event: returns the next state and the action to perform.
    pub fn step(self, e: ConnectionEvent) -> (r: (HubConnection, ConnectionAction))
        ensures
            r == next(self, e),
    {
        match self {
            HubConnection::AwaitingHello { seed } => match e {
                ConnectionEvent::Hello(ClientHelloMessage::PersonIsUpdate(u)) => {
                    if crate::protocol::is_person_is_valid(u.person_is.as_str()) {
                        (
                            HubConnection::Publishing,
                            ConnectionAction::Publish(DisplayStateMutation::from_update(u)),
                        )
                    } else {
                        (
                            HubConnection::Closed {
                                outcome: Err(ConnectionError::InvalidPersonIs),
                            },
                            ConnectionAction::Close,
                        )
                    }
                },
                ConnectionEvent::Hello(ClientHelloMessage::Display(_)) => {
                    let first = seed.snapshot();
                    (HubConnection::Streaming { replica: seed }, ConnectionAction::SubscribeAndSend(first))
                },
                ConnectionEvent::DecodeFailed => (
                    HubConnection::Closed { outcome: Err(ConnectionError::Decode) },
                    ConnectionAction::Close,
                ),
                ConnectionEvent::ReadFailed => (
                    HubConnection::Closed { outcome: Err(ConnectionError::Read) },
                    ConnectionAction::Close,
                ),
                ConnectionEvent::EndOfStream => (
                    HubConnection::Closed { outcome: Err(ConnectionError::DroppedBeforeHello) },
                    ConnectionAction::Close,
                ),
                _ => (HubConnection::AwaitingHello { seed }, ConnectionAction::Nothing),
            },
            HubConnection::Publishing => match e {
                ConnectionEvent::Published(delivered) => {
                    let outcome = if delivered {
                        Ok(())
                    } else {
                        Err(ConnectionError::NoSubscribers)
                    };
                    (HubConnection::Closed { outcome }, ConnectionAction::Close)
                },
                _ => (HubConnection::Publishing, ConnectionAction::Nothing),
            },
            HubConnection::Streaming { mut replica } => match e {
                ConnectionEvent::Update(m) => {
                    m.consume_into(&mut replica);
                    let out = replica.snapshot();
                    (HubConnection::Streaming { replica }, ConnectionAction::Send(out))
                },
                ConnectionEvent::WriteFailed => (
                    HubConnection::Closed { outcome: Err(ConnectionError::Write) },
                    ConnectionAction::Close,
                ),
                ConnectionEvent::Tick | ConnectionEvent::Lagged | ConnectionEvent::UpdatesClosed => {
                    let out = replica.snapshot();
                    (HubConnection::Streaming { replica }, ConnectionAction::Send(out))
                },
                _ => (HubConnection::Streaming { replica }, ConnectionAction::Nothing),
            },
            HubConnection::Closed { outcome } => (HubConnection::Closed { outcome }, ConnectionAction::Nothing),
        }
    }
}

} // verus!
