//! Calendar dates as the store keeps them.

use vstd::prelude::*;
use crate::values::Datetime;

verus! {

/// The instant at which a day of the proleptic Gregorian calendar starts in
/// UTC, in seconds since 1970-01-01T00:00:00Z, as chrono computes it; none
/// where chrono knows no such day.
pub uninterp spec fn midnight_of(year: int, month: int, day: int) -> Option<int>;

/// `NaiveDate::from_ymd_opt` of chrono, followed by the midnight of that
/// day in UTC (`and_hms_opt(0, 0, 0)`, `and_utc`) and its `timestamp`. The
/// result depends on the three numbers alone; nothing more is claimed of
/// it here.
#[verifier::external_body]
fn midnight_utc(year: i32, month: u32, day: u32) -> (r: Option<i64>)
    ensures
        match r {
            Some(at) => midnight_of(year as int, month as int, day as int) == Some(at as int),
            None => midnight_of(year as int, month as int, day as int) is None,
        },
{
    let date = chrono::NaiveDate::from_ymd_opt(year, month, day)?;
    Some(date.and_hms_opt(0, 0, 0)?.and_utc().timestamp())
}

/// A calendar date as the store keeps it: the instant at which the day
/// starts in UTC. There is none where the calendar has no such day.
pub fn to_surreal_datetime(year: i32, month: u32, day: u32) -> (r: Option<Datetime>)
    ensures
        match r {
            Some(at) => midnight_of(year as int, month as int, day as int) == Some(at as int),
            None => midnight_of(year as int, month as int, day as int) is None,
        },
{
    midnight_utc(year, month, day)
}

} // verus!
