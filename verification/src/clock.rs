//! The system clock and the mapping from local calendar times to epoch
//! instants.  Both depend on the machine (its clock and its time
//! zone), so nothing beyond well-formedness and coarse bounds is
//! promised of their results.

use vstd::prelude::*;

use chrono::TimeZone;

use crate::cal::{days_in_month_spec, valid_cal, CalTime, MAX_YEAR, MIN_YEAR};

verus! {

/// Relies on chrono's `Local::now` with the `Datelike` and `Timelike`
/// accessors: the month is in 1..=12, the day is valid for that month
/// and year, the hour is in 0..=23 and the minute in 0..=59.
#[verifier::external_body]
fn read_local_clock() -> (r: (i32, u8, u8, u8, u8))
    ensures
        1 <= r.1 <= 12,
        1 <= r.2 <= days_in_month_spec(r.0 as int, r.1 as int),
        r.3 <= 23,
        r.4 <= 59,
{
    let now = chrono::Local::now();
    (
        chrono::Datelike::year(&now),
        chrono::Datelike::month(&now) as u8,
        chrono::Datelike::day(&now) as u8,
        chrono::Timelike::hour(&now) as u8,
        chrono::Timelike::minute(&now) as u8,
    )
}

/// Reads the local wall clock as a calendar timestamp, falling back to
/// a fixed value in the unreachable case that the clock's year lies
/// outside the supported range.
pub fn current_local_time() -> (r: CalTime)
    ensures
        valid_cal(r),
{
    let (y, mo, d, h, mi) = read_local_clock();
    if y < MIN_YEAR as i32 || y > MAX_YEAR as i32 {
        CalTime { year: 2000, month: 1, day: 1, hour: 0, minute: 0 }
    } else {
        CalTime { year: y as u16, month: mo, day: d, hour: h, minute: mi }
    }
}

/// Relies on chrono's `TimeZone::with_ymd_and_hms` for `Local` and
/// `DateTime::timestamp_millis`: a representable local calendar time
/// in the supported year range maps to an epoch instant within the
/// bounds below; a time skipped by a time-zone transition yields
/// `None`.
#[verifier::external_body]
pub fn local_epoch_millis(t: &CalTime) -> (r: Option<i64>)
    requires
        valid_cal(*t),
    ensures
        r matches Some(ms) ==> -62_200_000_000_000 <= ms <= 253_500_000_000_000,
{
    let mapped = chrono::Local.with_ymd_and_hms(
        t.year as i32,
        t.month as u32,
        t.day as u32,
        t.hour as u32,
        t.minute as u32,
        0,
    );
    match mapped {
        chrono::LocalResult::Single(dt) => Some(dt.timestamp_millis()),
        chrono::LocalResult::Ambiguous(dt, _) => Some(dt.timestamp_millis()),
        chrono::LocalResult::None => None,
    }
}

} // verus!
