//! The hub's listener loop: it accepts connections, seeding each with the
//! current status, and follows the broadcast channel to keep that status up
//! to date.

use crate::connection::HubConnection;
use crate::protocol::{applied, DisplayMessage, DisplayStateMutation};
use vstd::prelude::*;

verus! {

/// What the listener loop observed.
pub enum ListenerEvent {
    /// A client connected.
    Accepted,
    /// Accepting a client failed.
    AcceptFailed,
    /// A mutation arrived on the listener's own subscription.
    Update(DisplayStateMutation),
    /// The subscription skipped mutations it could not hold.
    Lagged,
    /// The subscription has no producers left.
    UpdatesClosed,
}

/// What the listener loop must do next.
pub enum ListenerAction {
    /// Nothing; keep serving.
    Nothing,
    /// Run this connection as a task of its own.
    Spawn(HubConnection),
}

/// The listener loop's own, authoritative copy of the status.
pub struct Listener {
    pub display_state: DisplayMessage,
}

/// The listener's transition on event `e`.
pub open spec fn listener_next(l: Listener, e: ListenerEvent) -> (Listener, ListenerAction) {
    match e {
        ListenerEvent::Accepted => (
            l,
            ListenerAction::Spawn(HubConnection::AwaitingHello { seed: l.display_state }),
        ),
        ListenerEvent::Update(m) => (
            Listener { display_state: applied(m, l.display_state) },
            ListenerAction::Nothing,
        ),
        _ => (l, ListenerAction::Nothing),
    }
}

impl Listener {
    /// A listener whose status starts as `initial`.
    pub fn new(initial: DisplayMessage) -> (r: Listener)
        ensures
            r.display_state == initial,
    {
        Listener { display_state: initial }
    }

    /// Handles one event and returns the action to perform.
    pub fn step(&mut self, e: ListenerEvent) -> (r: ListenerAction)
        ensures
            (*final(self), r) == listener_next(*old(self), e),
    {
        match e {
            ListenerEvent::Accepted => {
                let seed = self.display_state.snapshot();
                ListenerAction::Spawn(HubConnection::new(seed))
            },
            ListenerEvent::Update(m) => {
                m.consume_into(&mut self.display_state);
                ListenerAction::Nothing
            },
            ListenerEvent::AcceptFailed | ListenerEvent::Lagged | ListenerEvent::UpdatesClosed => {
                ListenerAction::Nothing
            },
        }
    }
}

} // verus!
