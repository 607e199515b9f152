//! Creation timestamps: seconds since the Unix epoch plus a sub-second part.
use vstd::prelude::*;

verus! {

/// The first second that a `chrono::DateTime<Utc>` can hold (January 1, 262144 BCE).
pub const MIN_TIMESTAMP: i64 = -8334601228800;

/// The last second that a `chrono::DateTime<Utc>` can hold (December 31, 262142 CE).
pub const MAX_TIMESTAMP: i64 = 8210266876799;

/// Whether a count of epoch seconds names an instant that chrono can represent.
pub open spec fn timestamp_in_range(secs: int) -> bool {
    MIN_TIMESTAMP <= secs <= MAX_TIMESTAMP
}

/// An instant: whole seconds since the Unix epoch and the nanoseconds past them.
#[derive(Clone, Copy, Debug, PartialEq, Eq, Structural)]
pub struct Timestamp {
    pub secs: i64,
    pub nanos: u32,
}

impl Timestamp {
    /// Whether the instant lies in the range that the domain timestamp type covers.
    pub open spec fn wf(self) -> bool {
        timestamp_in_range(self.secs as int)
    }

    /// The same instant with its sub-second part dropped.
    pub open spec fn truncated(self) -> Timestamp {
        Timestamp { secs: self.secs, nanos: 0 }
    }

    /// The instant at a whole number of epoch seconds.
    pub fn from_secs(secs: i64) -> (r: Timestamp)
        ensures
            r == (Timestamp { secs, nanos: 0 }),
    {
        Timestamp { secs, nanos: 0 }
    }
}

/// Relies on `chrono::DateTime::from_timestamp(secs, 0)`: it is `Some` exactly
/// for the seconds between `DateTime::<Utc>::MIN_UTC` and `MAX_UTC`.
#[verifier::external_body]
pub(crate) fn representable(secs: i64) -> (r: bool)
    ensures
        r == timestamp_in_range(secs as int),
{
    chrono::DateTime::from_timestamp(secs, 0).is_some()
}

/// Relies on `chrono::Utc::now` (read as `timestamp` and `timestamp_subsec_nanos`):
/// the time since the Unix epoch as a valid `DateTime`, so its seconds are in
/// range and not negative, and its nanoseconds below one second. It panics
/// only when the system clock reads before the epoch.
#[verifier::external_body]
pub(crate) fn now() -> (r: Timestamp)
    ensures
        r.wf(),
        r.secs >= 0,
        r.nanos < 1_000_000_000,
{
    let t = chrono::Utc::now();
    Timestamp { secs: t.timestamp(), nanos: t.timestamp_subsec_nanos() }
}

} // verus!
