//! The messages exchanged between the hub and its clients, and the status
//! mutations that flow inside the hub.

use crate::timestamp::Timestamp;
use vstd::prelude::*;
use vstd::utf8::encode_utf8;

verus! {

/// The byte length from which a status no longer fits the display.
pub const PERSON_IS_BYTE_LIMIT: usize = 23;

/// The status a hub starts with, before any update.
pub open spec fn initial_person_is() -> Seq<char> {
    "whereabouts unknown"@
}

/// The length of `s` in bytes, once encoded as UTF-8.
pub open spec fn utf8_len(s: Seq<char>) -> nat {
    encode_utf8(s).len()
}

/// A status is accepted when its UTF-8 encoding is shorter than the limit.
pub open spec fn person_is_ok(s: Seq<char>) -> bool {
    utf8_len(s) < PERSON_IS_BYTE_LIMIT
}

/// A snapshot of the status: what a displayer shows.
#[derive(Clone, Debug)]
pub struct DisplayMessage {
    /// The "person is:" text.
    pub person_is: String,
    /// When the text was last updated.
    pub person_is_timestamp: Timestamp,
}

/// The hello of a client that wants to receive the status.
#[derive(Clone, Debug)]
pub struct DisplayHelloMessage {}

/// The hello of a client that sets the status.
#[derive(Clone, Debug)]
pub struct PersonIsUpdateHelloMessage {
    /// The new "person is:" text.
    pub person_is: String,
    /// When the client set it.
    pub timestamp: Timestamp,
}

/// The first message of every client connection.
#[derive(Clone, Debug)]
pub enum ClientHelloMessage {
    /// The client subscribes to the status.
    Display(DisplayHelloMessage),
    /// The client sets the status once.
    PersonIsUpdate(PersonIsUpdateHelloMessage),
}

/// A change to the status, broadcast inside the hub.
#[derive(Clone, Debug)]
pub enum DisplayStateMutation {
    SetPersonIs(PersonIsUpdateHelloMessage),
}

/// Checks a status text against the display's byte limit.
pub fn is_person_is_valid(person_is: &str) -> (r: bool)
    ensures
        r == person_is_ok(person_is@),
{
    person_is.as_bytes().len() < PERSON_IS_BYTE_LIMIT
}

/// The snapshot that results from applying `m` to `s`: the update's text and
/// timestamp replace the old ones.
pub open spec fn applied(m: DisplayStateMutation, s: DisplayMessage) -> DisplayMessage {
    match m {
        DisplayStateMutation::SetPersonIs(u) => DisplayMessage {
            person_is: u.person_is,
            person_is_timestamp: u.timestamp,
        },
    }
}

impl DisplayMessage {
    /// A copy of this snapshot.
    pub fn snapshot(&self) -> (r: DisplayMessage)
        ensures
            r == *self,
    {
        DisplayMessage {
            person_is: self.person_is.clone(),
            person_is_timestamp: self.person_is_timestamp,
        }
    }
}

impl Default for DisplayMessage {
    /// The status of a freshly started hub, stamped with the current time.
    fn default() -> (r: DisplayMessage)
        ensures
            r.person_is@ == initial_person_is(),
            r.person_is_timestamp.valid(),
    {
        DisplayMessage {
            person_is: String::from_str("whereabouts unknown"),
            person_is_timestamp: Timestamp::now(),
        }
    }
}

impl DisplayStateMutation {
    /// The mutation that an accepted update hello asks for.
    pub fn from_update(msg: PersonIsUpdateHelloMessage) -> (r: DisplayStateMutation)
        ensures
            r == DisplayStateMutation::SetPersonIs(msg),
    {
        DisplayStateMutation::SetPersonIs(msg)
    }

    /// Applies this mutation to `state`, consuming the mutation.
    pub fn consume_into(self, state: &mut DisplayMessage)
        ensures
            *final(state) == applied(self, *old(state)),
    {
        match self {
            DisplayStateMutation::SetPersonIs(msg) => {
                state.person_is = msg.person_is;
                state.person_is_timestamp = msg.timestamp;
            },
        }
    }
}

} // verus!
