//! The displayer side: a long-lived client that keeps a connection to the
//! hub, follows its snapshots, reconnects after a pause when the hub is
//! lost, and decides when the panel must be redrawn.
//!
//! Time is a monotonic clock in milliseconds, supplied by the caller with
//! each event.

use crate::protocol::{DisplayMessage, PersonIsUpdateHelloMessage, ClientHelloMessage, DisplayHelloMessage};
use crate::timestamp::Timestamp;
use vstd::prelude::*;

verus! {

/// How long after the last news from a failed hub the client reconnects.
pub const HUB_RETRY_MS: u64 = 180_000;

/// How long the panel may go without a redraw.
pub const REDRAW_MS: u64 = 600_000;

/// The text shown before the hub has answered.
pub open spec fn connecting_text() -> Seq<char> {
    "[connecting to hub...]"@
}

/// The text shown while the hub cannot be reached.
pub open spec fn no_connection_text() -> Seq<char> {
    "[cannot connect to hub!]"@
}

/// The state of the link to the hub.
#[derive(Clone, Copy, Debug, PartialEq, Eq, Structural)]
pub enum HubLink {
    /// Connect, send the displayer hello, and report back.
    Connecting,
    /// Connected; read the next snapshot.
    Open,
    /// Lost; wait for the retry delay.
    Failed,
}

/// What the panel shows of the hub's status.
#[derive(Clone, Debug)]
pub struct DisplayData {
    pub person_is: String,
    pub person_is_timestamp: Timestamp,
}

/// The view of `DisplayData`.
pub struct DataView {
    pub person_is: Seq<char>,
    pub person_is_timestamp: Timestamp,
}

impl DisplayData {
    pub open spec fn view(&self) -> DataView {
        DataView { person_is: self.person_is@, person_is_timestamp: self.person_is_timestamp }
    }

    /// What the panel shows at start: a placeholder text, stamped `now`.
    pub fn new(now: Timestamp) -> (r: DisplayData)
        ensures
            r.view() == (DataView { person_is: connecting_text(), person_is_timestamp: now }),
    {
        DisplayData { person_is: String::from_str("[connecting to hub...]"), person_is_timestamp: now }
    }

    /// Takes the hub's snapshot.
    pub fn update_from_message(&mut self, msg: DisplayMessage)
        ensures
            final(self).view() == (DataView {
                person_is: msg.person_is@,
                person_is_timestamp: msg.person_is_timestamp,
            }),
    {
        self.person_is = msg.person_is;
        self.person_is_timestamp = msg.person_is_timestamp;
    }

    /// Replaces the text by the no-connection notice.
    pub fn update_for_no_connection(&mut self)
        ensures
            final(self).view() == (DataView {
                person_is: no_connection_text(),
                person_is_timestamp: old(self).person_is_timestamp,
            }),
    {
        self.person_is = String::from_str("[cannot connect to hub!]");
    }

    /// A copy for the renderer.
    pub fn snapshot(&self) -> (r: DisplayData)
        ensures
            r == *self,
    {
        DisplayData { person_is: self.person_is.clone(), person_is_timestamp: self.person_is_timestamp }
    }
}

/// What happened on the hub link, or the wakeup timer.
pub enum ClientEvent {
    /// The connection is up and the displayer hello was sent.
    Connected,
    /// Connecting or sending the hello failed.
    ConnectFailed,
    /// A snapshot arrived.
    Message(DisplayMessage),
    /// The hub closed the connection.
    StreamEnded,
    /// Reading from the hub failed.
    ReadFailed,
    /// The wakeup timer fired.
    Wakeup,
}

/// The displayer client's decisions: the link, what is shown, and the
/// clock readings that drive retries and redraws.
pub struct DisplayerClient {
    pub link: HubLink,
    pub data: DisplayData,
    pub last_hub_update: u64,
    pub last_redraw: u64,
    pub need_redraw: bool,
}

/// The view of `DisplayerClient`.
pub struct ClientView {
    pub link: HubLink,
    pub data: DataView,
    pub last_hub_update: u64,
    pub last_redraw: u64,
    pub need_redraw: bool,
}

/// Milliseconds from `since` to `now`; none if the clock reads earlier.
pub open spec fn elapsed(now: u64, since: u64) -> int {
    if now > since {
        now - since
    } else {
        0
    }
}

/// The client after the hub link reported `e` at time `now`, before the
/// retry and redraw decisions.
pub open spec fn after_hub(c: ClientView, e: ClientEvent, now: u64) -> ClientView {
    match e {
        ClientEvent::Connected => if c.link is Connecting {
            ClientView { link: HubLink::Open, ..c }
        } else {
            c
        },
        ClientEvent::Message(m) => if c.link is Open {
            ClientView {
                data: DataView { person_is: m.person_is@, person_is_timestamp: m.person_is_timestamp },
                last_hub_update: now,
                need_redraw: true,
                ..c
            }
        } else {
            c
        },
        ClientEvent::ConnectFailed => if c.link is Connecting {
            lost(c, now)
        } else {
            c
        },
        ClientEvent::StreamEnded => if c.link is Open {
            lost(c, now)
        } else {
            c
        },
        ClientEvent::ReadFailed => if c.link is Open {
            lost(c, now)
        } else {
            c
        },
        ClientEvent::Wakeup => c,
    }
}

/// The client once the hub is lost at time `now`.
pub open spec fn lost(c: ClientView, now: u64) -> ClientView {
    ClientView {
        link: HubLink::Failed,
        data: DataView { person_is: no_connection_text(), ..c.data },
        last_hub_update: now,
        need_redraw: true,
        ..c
    }
}

/// The retry decision: a failed link whose last news is older than the
/// retry delay goes back to connecting, showing the no-connection notice.
pub open spec fn after_retry(c: ClientView, now: u64) -> ClientView {
    if c.link is Failed && elapsed(now, c.last_hub_update) > HUB_RETRY_MS {
        ClientView {
            link: HubLink::Connecting,
            data: DataView { person_is: no_connection_text(), ..c.data },
            ..c
        }
    } else {
        c
    }
}

/// Whether the panel must be redrawn at `now`.
pub open spec fn redraw_due(c: ClientView, now: u64) -> bool {
    c.need_redraw || elapsed(now, c.last_redraw) > REDRAW_MS
}

/// The whole transition on `e` at `now`: the hub's report, then (except
/// for a completed connect, which returns nothing to act on) the retry and
/// redraw decisions. The flag says whether the panel is redrawn.
pub open spec fn client_next(c: ClientView, e: ClientEvent, now: u64) -> (ClientView, bool) {
    let h = after_hub(c, e, now);
    if e is Connected {
        (h, false)
    } else {
        let r = after_retry(h, now);
        if redraw_due(r, now) {
            (ClientView { need_redraw: false, last_redraw: now, ..r }, true)
        } else {
            (r, false)
        }
    }
}

impl DisplayerClient {
    pub open spec fn view(&self) -> ClientView {
        ClientView {
            link: self.link,
            data: self.data.view(),
            last_hub_update: self.last_hub_update,
            last_redraw: self.last_redraw,
            need_redraw: self.need_redraw,
        }
    }

    /// A client about to connect, showing the placeholder, with a redraw
    /// pending.
    pub fn new(stamp: Timestamp, now: u64) -> (r: DisplayerClient)
        ensures
            r.view() == (ClientView {
                link: HubLink::Connecting,
                data: DataView { person_is: connecting_text(), person_is_timestamp: stamp },
                last_hub_update: now,
                last_redraw: now,
                need_redraw: true,
            }),
    {
        DisplayerClient {
            link: HubLink::Connecting,
            data: DisplayData::new(stamp),
            last_hub_update: now,
            last_redraw: now,
            need_redraw: true,
        }
    }

    /// Whether the link to the hub has failed.
    pub fn is_failed(&self) -> (r: bool)
        ensures
            r == (self.link is Failed),
    {
        match self.link {
            HubLink::Failed => true,
            _ => false,
        }
    }

    fn mark_lost(&mut self, now: u64)
        ensures
            final(self).view() == lost(old(self).view(), now),
    {
        self.link = HubLink::Failed;
        self.data.update_for_no_connection();
        self.last_hub_update = now;
        self.need_redraw = true;
    }

    /// Handles `e` at time `now`; returns what the renderer must draw, if
    /// the panel is due for a redraw.
    pub fn step(&mut self, e: ClientEvent, now: u64) -> (r: Option<DisplayData>)
        ensures
            final(self).view() == client_next(old(self).view(), e, now).0,
            r is Some == client_next(old(self).view(), e, now).1,
            r matches Some(d) ==> d.view() == final(self).data.view(),
    {
        let connected = match e {
            ClientEvent::Connected => true,
            _ => false,
        };
        match e {
            ClientEvent::Connected => {
                if self.link == HubLink::Connecting {
                    self.link = HubLink::Open;
                }
            },
            ClientEvent::Message(m) => {
                if self.link == HubLink::Open {
                    self.data.update_from_message(m);
                    self.last_hub_update = now;
                    self.need_redraw = true;
                }
            },
            ClientEvent::ConnectFailed => {
                if self.link == HubLink::Connecting {
                    self.mark_lost(now);
                }
            },
            ClientEvent::StreamEnded | ClientEvent::ReadFailed => {
                if self.link == HubLink::Open {
                    self.mark_lost(now);
                }
            },
            ClientEvent::Wakeup => {},
        }
        if connected {
            return None;
        }
        if self.link == HubLink::Failed && now > self.last_hub_update && now - self.last_hub_update
            > HUB_RETRY_MS {
            self.data.update_for_no_connection();
            self.link = HubLink::Connecting;
        }
        if self.need_redraw || (now > self.last_redraw && now - self.last_redraw > REDRAW_MS) {
            self.need_redraw = false;
            self.last_redraw = now;
            Some(self.data.snapshot())
        } else {
            None
        }
    }
}

/// The hello of a one-shot status update, refused when the status is too
/// long for the display.
pub fn status_update_hello(status: String, now: Timestamp) -> (r: Option<ClientHelloMessage>)
    ensures
        crate::protocol::person_is_ok(status@) ==> r == Some(
            ClientHelloMessage::PersonIsUpdate(PersonIsUpdateHelloMessage { person_is: status, timestamp: now }),
        ),
        !crate::protocol::person_is_ok(status@) ==> r is None,
{
    if crate::protocol::is_person_is_valid(status.as_str()) {
        Some(ClientHelloMessage::PersonIsUpdate(PersonIsUpdateHelloMessage { person_is: status, timestamp: now }))
    } else {
        None
    }
}

/// The hello of a displayer.
pub fn display_hello() -> (r: ClientHelloMessage)
    ensures
        r == ClientHelloMessage::Display(DisplayHelloMessage {}),
{
    ClientHelloMessage::Display(DisplayHelloMessage {})
}

} // verus!
