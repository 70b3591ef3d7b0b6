//! Instants in UTC, held as plain values.

use vstd::prelude::*;

verus! {

/// Whether chrono can represent the UTC instant `secs` seconds after the
/// Unix epoch plus `nanos` nanoseconds (a value of a billion or more marks a
/// leap second).
pub uninterp spec fn utc_representable(secs: i64, nanos: u32) -> bool;

/// A UTC instant: whole seconds since the Unix epoch and the nanoseconds
/// past that second.
#[derive(Clone, Copy, Debug, PartialEq, Eq, Structural)]
pub struct Timestamp {
    pub secs: i64,
    pub nanos: u32,
}

/// Relies on chrono's `Utc::now`: the current time, which chrono built with
/// `DateTime::from_timestamp` from a duration since the epoch, so it is
/// representable, not before the epoch, and not inside a leap second.
#[verifier::external_body]
fn utc_now() -> (r: Timestamp)
    ensures
        utc_representable(r.secs, r.nanos),
        r.secs >= 0,
        r.nanos < 1_000_000_000,
{
    let t = chrono::Utc::now();
    Timestamp { secs: t.timestamp(), nanos: t.timestamp_subsec_nanos() }
}

/// Relies on chrono's `DateTime::<Utc>::from_timestamp`: `Some` exactly for
/// representable instants, and then the instant round-trips through
/// `timestamp` and `timestamp_subsec_nanos`.
#[verifier::external_body]
fn utc_from_timestamp(secs: i64, nanos: u32) -> (r: Option<Timestamp>)
    ensures
        r.is_some() == utc_representable(secs, nanos),
        r matches Some(t) ==> t.secs == secs && t.nanos == nanos,
{
    match chrono::DateTime::<chrono::Utc>::from_timestamp(secs, nanos) {
        Some(t) => Some(Timestamp { secs: t.timestamp(), nanos: t.timestamp_subsec_nanos() }),
        None => None,
    }
}

/// `ms` divided by a thousand, rounded toward zero, as Rust's `/` on
/// integers does.
pub open spec fn millis_to_secs(ms: int) -> int {
    if ms >= 0 {
        ms / 1000
    } else {
        -((-ms) / 1000)
    }
}

impl Timestamp {
    /// The instants that the rest of the system (and chrono) can hold.
    pub open spec fn valid(self) -> bool {
        utc_representable(self.secs, self.nanos)
    }

    /// The current time.
    pub fn now() -> (r: Timestamp)
        ensures
            r.valid(),
            r.secs >= 0,
            r.nanos < 1_000_000_000,
    {
        utc_now()
    }

    /// The instant `secs` seconds and `nanos` nanoseconds after the epoch,
    /// if it can be represented.
    pub fn from_unix(secs: i64, nanos: u32) -> (r: Option<Timestamp>)
        ensures
            r.is_some() == utc_representable(secs, nanos),
            r matches Some(t) ==> t == (Timestamp { secs, nanos }),
    {
        utc_from_timestamp(secs, nanos)
    }

    /// The whole second containing the instant `ms` milliseconds after the
    /// epoch, counted toward the epoch, if it can be represented.
    pub fn from_unix_millis(ms: i64) -> (r: Option<Timestamp>)
        ensures
            r.is_some() == utc_representable(millis_to_secs(ms as int) as i64, 0),
            r matches Some(t) ==> t.secs == millis_to_secs(ms as int) && t.nanos == 0,
    {
        let secs: i64 = if ms >= 0 {
            ms / 1000
        } else if ms == i64::MIN {
            -9_223_372_036_854_775
        } else {
            -((-ms) / 1000)
        };
        utc_from_timestamp(secs, 0)
    }
}

} // verus!
