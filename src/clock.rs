//! Points in time as stored with the records.

use time::OffsetDateTime;
use vstd::prelude::*;

verus! {

/// A point in time with the UTC offset it was written in.
#[derive(Clone, Copy, Debug, PartialEq, Eq, Structural)]
pub struct Timestamp {
    /// Whole seconds since 1970-01-01T00:00:00Z.
    pub unix_seconds: i64,
    /// Nanoseconds within the second, below one billion.
    pub nanosecond: u32,
    /// The offset from UTC, in seconds.
    pub offset_seconds: i32,
}

impl Timestamp {
    /// The nanoseconds lie within the second.
    pub open spec fn wf(self) -> bool {
        self.nanosecond < 1_000_000_000
    }
}

/// `a` is not later than `b`.
pub open spec fn not_later(a: Timestamp, b: Timestamp) -> bool {
    a.unix_seconds < b.unix_seconds || (a.unix_seconds == b.unix_seconds && a.nanosecond
        <= b.nanosecond)
}

/// Whether `a` is not later than `b`.
pub fn is_not_later(a: &Timestamp, b: &Timestamp) -> (r: bool)
    ensures
        r == not_later(*a, *b),
{
    a.unix_seconds < b.unix_seconds || (a.unix_seconds == b.unix_seconds && a.nanosecond
        <= b.nanosecond)
}

/// Relies on time's `OffsetDateTime::now_utc`: the current time, in UTC, with
/// its nanoseconds below one billion.
#[verifier::external_body]
pub fn now_utc() -> (r: Timestamp)
    ensures
        r.wf(),
        r.offset_seconds == 0,
{
    let t = OffsetDateTime::now_utc();
    Timestamp {
        unix_seconds: t.unix_timestamp(),
        nanosecond: t.nanosecond(),
        offset_seconds: t.offset().whole_seconds(),
    }
}

} // verus!
