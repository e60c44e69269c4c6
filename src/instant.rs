//! Points in time and the intervals that the task store understands.
use vstd::prelude::*;

verus! {

/// First second that a date-time can hold: -9999-01-01T00:00:00Z.
pub const MIN_UNIX_SECONDS: i64 = -377705116800;

/// Last second that a date-time can hold: 9999-12-31T23:59:59Z.
pub const MAX_UNIX_SECONDS: i64 = 253402300799;

pub const NANOS_PER_SECOND: i128 = 1_000_000_000;

pub const NANOS_PER_MICRO: u128 = 1000;

/// The earliest representable instant, in nanoseconds since the Unix epoch.
pub open spec fn min_unix_nanos() -> int {
    MIN_UNIX_SECONDS * NANOS_PER_SECOND
}

/// The latest representable instant, in nanoseconds since the Unix epoch.
pub open spec fn max_unix_nanos() -> int {
    (MAX_UNIX_SECONDS + 1) * NANOS_PER_SECOND - 1
}

pub open spec fn in_time_range(n: int) -> bool {
    min_unix_nanos() <= n <= max_unix_nanos()
}

/// An absolute instant, as nanoseconds since 1970-01-01T00:00:00Z.
#[derive(Clone, Copy, Debug, PartialEq, Eq, Structural)]
pub struct Timestamp {
    pub unix_nanos: i128,
}

/// Relies on time::OffsetDateTime::from_unix_timestamp_nanos, which accepts
/// exactly the instants whose whole second lies in its supported range.
#[verifier::external_body]
fn date_time_accepts(unix_nanos: i128) -> (r: bool)
    ensures
        r == in_time_range(unix_nanos as int),
{
    time::OffsetDateTime::from_unix_timestamp_nanos(unix_nanos).is_ok()
}

impl Timestamp {
    /// A timestamp that a date-time value can hold.
    pub open spec fn wf(self) -> bool {
        in_time_range(self.unix_nanos as int)
    }

    pub open spec fn nanos(self) -> int {
        self.unix_nanos as int
    }

    /// The instant `unix_nanos` after the epoch, if a date-time can hold it.
    pub fn from_unix_nanos(unix_nanos: i128) -> (r: Option<Timestamp>)
        ensures
            r is Some <==> in_time_range(unix_nanos as int),
            r matches Some(t) ==> t.unix_nanos == unix_nanos && t.wf(),
    {
        if date_time_accepts(unix_nanos) {
            Some(Timestamp { unix_nanos })
        } else {
            None
        }
    }
}

/// A length of time in the task store's interval representation: whole
/// microseconds that fit in an `i64`.
#[derive(Clone, Copy, Debug, PartialEq, Eq, Structural)]
pub struct Interval {
    pub micros: i64,
}

/// Whether a length of `nanos` nanoseconds has an interval in the store:
/// whole microseconds, at most `i64::MAX` of them.
pub open spec fn fits_interval(nanos: u128) -> bool {
    nanos % NANOS_PER_MICRO == 0 && nanos / NANOS_PER_MICRO <= i64::MAX
}

impl Interval {
    pub open spec fn nanos(self) -> int {
        self.micros * NANOS_PER_MICRO
    }

    /// The store's interval for a length of `nanos` nanoseconds. The store
    /// keeps microseconds only, in an `i64`: a length with a fraction of a
    /// microsecond, or too long for that, has no interval.
    pub fn from_nanos(nanos: u128) -> (r: Option<Interval>)
        ensures
            r is Some <==> fits_interval(nanos),
            r matches Some(iv) ==> iv.nanos() == nanos && iv.micros >= 0,
    {
        if nanos % NANOS_PER_MICRO != 0 {
            return None;
        }
        let micros = nanos / NANOS_PER_MICRO;
        if micros > i64::MAX as u128 {
            return None;
        }
        Some(Interval { micros: micros as i64 })
    }
}

} // verus!
