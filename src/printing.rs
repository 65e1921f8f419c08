//! What the printed invoice shows that needs more than the stored values.

use chrono::{Datelike, TimeZone, Utc};
use chrono_tz::Tz;
use crate::clock::Timestamp;
use vstd::prelude::*;

verus! {

/// The calendar date (year, month, day) of an instant in an IANA time zone,
/// or `None` when the zone is unknown or the instant out of range.
pub uninterp spec fn zoned_date(zone: Seq<char>, unix_seconds: int, nanosecond: int) -> Option<
    (i32, u32, u32),
>;

/// Relies on chrono-tz's parsing of an IANA zone name into `Tz`, and on
/// chrono's `Utc.timestamp_opt(..).single()` and `with_timezone` for the local
/// date; its month lies in 1..=12 and its day in 1..=31.
#[verifier::external_body]
fn local_date(zone: &str, unix_seconds: i64, nanosecond: u32) -> (r: Option<(i32, u32, u32)>)
    ensures
        r == zoned_date(zone@, unix_seconds as int, nanosecond as int),
        r matches Some((_, m, d)) ==> 1 <= m <= 12 && 1 <= d <= 31,
{
    match zone.parse::<Tz>() {
        Ok(tz) => match Utc.timestamp_opt(unix_seconds, nanosecond).single() {
            Some(t) => {
                let l = t.with_timezone(&tz);
                Some((l.year(), l.month(), l.day()))
            },
            None => None,
        },
        Err(_) => None,
    }
}

/// The zone invoices are printed in when the client has none.
pub fn default_zone() -> (r: &'static str)
    ensures
        r@ == "America/New_York"@,
{
    "America/New_York"
}

/// The due date as printed: its calendar date in the client's time zone (New
/// York's when the client has none); nothing when the invoice has no due date
/// or the zone is unknown.
pub fn due_date_for_print(due_date: Option<Timestamp>, client_zone: &Option<String>) -> (r: Option<
    (i32, u32, u32),
>)
    ensures
        due_date is None ==> r is None,
        due_date matches Some(t) ==> r == zoned_date(
            match client_zone {
                Some(z) => z@,
                None => "America/New_York"@,
            },
            t.unix_seconds as int,
            t.nanosecond as int,
        ),
{
    match due_date {
        None => None,
        Some(t) => match client_zone {
            Some(z) => local_date(z.as_str(), t.unix_seconds, t.nanosecond),
            None => local_date(default_zone(), t.unix_seconds, t.nanosecond),
        },
    }
}

} // verus!
