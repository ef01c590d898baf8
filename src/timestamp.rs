//! Points in time as the API sends them: whole seconds since the Unix epoch.
use vstd::prelude::*;

verus! {

/// A point in time, as a signed number of whole seconds since 1970-01-01 00:00:00 UTC.
#[derive(Debug, Clone, Copy, PartialEq, Eq, Structural)]
pub struct Timestamp {
    /// Seconds since the Unix epoch; negative before it.
    pub unix_seconds: i64,
}

impl Timestamp {
    /// The Unix epoch itself.
    pub fn epoch() -> (r: Timestamp)
        ensures
            r.unix_seconds == 0,
    {
        Timestamp { unix_seconds: 0 }
    }

    /// The point in time that many seconds after the Unix epoch.
    pub fn from_unix_seconds(unix_seconds: i64) -> (r: Timestamp)
        ensures
            r.unix_seconds == unix_seconds,
    {
        Timestamp { unix_seconds }
    }

    /// Decodes an optional wire timestamp, standing in the epoch for a missing one.
    pub fn decode(raw: Option<i64>) -> (r: Timestamp)
        ensures
            r.unix_seconds == decoded_seconds(raw),
    {
        match raw {
            Some(s) => Timestamp::from_unix_seconds(s),
            None => Timestamp::epoch(),
        }
    }
}

/// The seconds that a decoded optional wire timestamp holds: the value sent, else zero.
pub open spec fn decoded_seconds(raw: Option<i64>) -> i64 {
    match raw {
        Some(s) => s,
        None => 0,
    }
}

} // verus!
