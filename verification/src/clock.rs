//! Instants and their RFC 3339 rendering. Adding minutes to an instant and
//! writing a timestamp are done by `chrono`; what this module assumes of it is
//! stated on the two functions at its end. The library does not read the
//! clock: the instant of a call is handed to it.

use vstd::prelude::*;

verus! {

/// A point in time: whole seconds since 1970-01-01T00:00:00Z, not counting
/// leap seconds, and the nanoseconds since that second began.
#[derive(Debug, PartialEq, Eq, Clone, Copy, Structural)]
pub struct Instant {
    pub seconds: i64,
    pub nanos: u32,
}

/// The RFC 3339 text of an instant in UTC, as `chrono` writes it, or `None`
/// where `chrono` cannot hold the instant.
pub uninterp spec fn rfc3339_text(at: Instant) -> Option<Seq<char>>;

/// The instant that `chrono` gives for `start` moved by a number of minutes, or
/// `None` where it cannot hold `start` or the moved instant.
pub uninterp spec fn plus_minutes(start: Instant, minutes: i32) -> Option<Instant>;

impl Instant {
    /// The instant of the given seconds and nanoseconds, as a clock reading
    /// gives them.
    pub fn new(seconds: i64, nanos: u32) -> (at: Instant)
        ensures
            at.seconds == seconds,
            at.nanos == nanos,
    {
        Instant { seconds, nanos }
    }
}

/// Adds whole minutes with `chrono::DateTime::checked_add_signed`. Assumed:
/// the result depends on the arguments alone; and where `start` is not within
/// a leap second, the sum is exactly sixty seconds per minute later, with the
/// same nanoseconds, since `chrono` adds as if no leap second ever happened.
#[verifier::external_body]
pub(crate) fn add_minutes(start: Instant, minutes: i32) -> (moved: Option<Instant>)
    ensures
        moved == plus_minutes(start, minutes),
        moved matches Some(t) ==> (start.nanos < 1_000_000_000 ==> t.seconds == start.seconds + 60
            * minutes && t.nanos == start.nanos),
{
    let start = chrono::DateTime::from_timestamp(start.seconds, start.nanos)?;
    let moved = start.checked_add_signed(chrono::TimeDelta::minutes(minutes as i64))?;
    Some(Instant { seconds: moved.timestamp(), nanos: moved.timestamp_subsec_nanos() })
}

/// Writes an instant with `chrono::DateTime::to_rfc3339`. Assumed: the text
/// depends on the instant alone.
#[verifier::external_body]
pub(crate) fn format_rfc3339(at: Instant) -> (text: Option<String>)
    ensures
        text.deep_view() == rfc3339_text(at),
{
    match chrono::DateTime::from_timestamp(at.seconds, at.nanos) {
        Some(moment) => Some(moment.to_rfc3339()),
        None => None,
    }
}

} // verus!
