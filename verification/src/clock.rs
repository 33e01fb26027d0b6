//! Points in time as plain integers, the replay window of signed requests,
//! and the two calls that obtain a point in time.

use vstd::prelude::*;

verus! {

/// A point in time: whole seconds since the Unix epoch, and the nanoseconds
/// into that second. During a leap second the nanoseconds run past one
/// billion.
#[derive(Debug, Clone, Copy, PartialEq, Eq, Structural)]
pub struct Instant {
    pub secs: i64,
    pub nanos: u32,
}

/// How far two points in time may lie apart, in nanoseconds: five minutes.
pub const REPLAY_WINDOW_NANOS: i128 = 300_000_000_000;

/// The point in time that RFC 3339 parsing gives for a text, or `None` where
/// the text is rejected.
pub uninterp spec fn rfc3339_instant(text: Seq<char>) -> Option<Instant>;

impl Instant {
    /// Nanoseconds since the Unix epoch.
    pub open spec fn epoch_nanos(self) -> int {
        self.secs * 1_000_000_000 + self.nanos
    }

    /// The distance between two points in time, in nanoseconds.
    pub open spec fn distance(self, other: Instant) -> int {
        if self.epoch_nanos() >= other.epoch_nanos() {
            self.epoch_nanos() - other.epoch_nanos()
        } else {
            other.epoch_nanos() - self.epoch_nanos()
        }
    }

    /// Whether `other` lies within five minutes of `self`, before or after.
    pub open spec fn in_replay_window(self, other: Instant) -> bool {
        self.distance(other) <= REPLAY_WINDOW_NANOS
    }

    /// Nanoseconds since the Unix epoch, widened so that no instant overflows.
    pub fn to_epoch_nanos(&self) -> (total: i128)
        ensures
            total == self.epoch_nanos(),
    {
        let secs: i128 = self.secs as i128;
        let nanos: i128 = self.nanos as i128;
        secs * 1_000_000_000 + nanos
    }

    /// Tests whether `other` lies within five minutes of `self`, in either
    /// direction. A distance of exactly five minutes is within.
    pub fn within_replay_window(&self, other: &Instant) -> (within: bool)
        ensures
            within == self.in_replay_window(*other),
    {
        let a: i128 = self.to_epoch_nanos();
        let b: i128 = other.to_epoch_nanos();
        let apart: i128 = if a >= b { a - b } else { b - a };
        apart <= REPLAY_WINDOW_NANOS
    }
}

/// Wraps `chrono::DateTime::parse_from_rfc3339`: a text that it accepts gives
/// the parsed date and time as seconds and nanoseconds in UTC, any other text
/// gives `None`.
#[verifier::external_body]
pub(crate) fn parse_rfc3339(text: &str) -> (parsed: Option<Instant>)
    ensures
        parsed == rfc3339_instant(text@),
{
    match chrono::DateTime::parse_from_rfc3339(text) {
        Ok(at) => Some(Instant { secs: at.timestamp(), nanos: at.timestamp_subsec_nanos() }),
        Err(_) => None,
    }
}

/// Wraps `chrono::Utc::now`: the current time of the system clock. Nothing is
/// promised of it.
#[verifier::external_body]
pub(crate) fn utc_now() -> (now: Instant) {
    let at = chrono::Utc::now();
    Instant { secs: at.timestamp(), nanos: at.timestamp_subsec_nanos() }
}

} // verus!
