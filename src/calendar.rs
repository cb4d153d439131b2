//! Calendar arithmetic for the monthly statistics.
use vstd::prelude::*;

verus! {

/// Milliseconds in a day.
pub const MILLIS_PER_DAY: i64 = 86_400_000;

/// The earliest and latest years that the calendar can represent.
pub const EARLIEST_YEAR: i32 = -262_143;
pub const LATEST_YEAR: i32 = 262_142;

/// Days from 1970-01-01 to the given day of the proleptic Gregorian calendar.
pub open spec fn days_from_civil(year: int, month: int, day: int) -> int {
    let y = if month <= 2 {
        year - 1
    } else {
        year
    };
    let era = y / 400;
    let yoe = y - era * 400;
    let mp = (month + 9) % 12;
    let doy = (153 * mp + 2) / 5 + day - 1;
    let doe = yoe * 365 + yoe / 4 - yoe / 100 + doy;
    era * 146097 + doe - 719468
}

/// Relies on chrono's `NaiveDate::from_ymd_opt` (a date exists for every valid
/// month of a year in the supported range, and for no other input),
/// `NaiveDate::and_hms_opt` and `NaiveDateTime::and_utc().timestamp_millis()`
/// (milliseconds since the Unix epoch, midnight UTC, on that date).
#[verifier::external_body]
fn midnight_utc_millis(year: i32, month: u32) -> (r: Option<i64>)
    ensures
        r.is_some() == (1 <= month <= 12 && EARLIEST_YEAR <= year <= LATEST_YEAR),
        r matches Some(ms) ==> ms == days_from_civil(year as int, month as int, 1) * MILLIS_PER_DAY,
{
    let date = chrono::NaiveDate::from_ymd_opt(year, month, 1)?;
    let midnight = date.and_hms_opt(0, 0, 0)?;
    Some(midnight.and_utc().timestamp_millis())
}

/// The start of the given month, midnight UTC, in milliseconds since the Unix
/// epoch; `None` for a month outside 1 to 12 or a year the calendar cannot hold.
pub fn month_start(year: i32, month: u32) -> (r: Option<i64>)
    ensures
        r is Some <==> 1 <= month <= 12 && EARLIEST_YEAR <= year <= LATEST_YEAR,
        r matches Some(ms) ==> ms == days_from_civil(year as int, month as int, 1) * MILLIS_PER_DAY,
{
    midnight_utc_millis(year, month)
}

} // verus!
