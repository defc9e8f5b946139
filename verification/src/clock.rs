//! The calendar and the clock, read through chrono.
//!
//! Times of day are seconds after midnight (`0..86400`), dates are chrono's day numbers
//! counted from the Common Era (1 January of year 1 is day 1), and instants are Unix
//! timestamps in seconds.
use vstd::prelude::*;

use chrono::{DateTime, Datelike, Local, NaiveDate, NaiveTime, Timelike};
use std::time::{SystemTime, UNIX_EPOCH};

verus! {

/// Seconds in a day.
pub const SECONDS_PER_DAY: u32 = 86400;

/// chrono's day number of 1 January 1970.
pub open spec fn unix_epoch_day() -> int {
    719163
}

/// The dates that chrono's `NaiveDate` can hold: 1 January of year -262143 through
/// 31 December of year 262142.
pub open spec fn date_in_range(days: int) -> bool {
    -95746129 <= days <= 95745399
}

/// The Unix timestamps that `DateTime::from_timestamp(_, 0)` accepts: those whose day lies
/// within `date_in_range`.
pub open spec fn timestamp_in_range(ts: int) -> bool {
    -8334601228800 <= ts <= 8210266876799
}

/// The timestamp that a local date and time of day would have at UTC.
pub open spec fn naive_timestamp(days: int, secs: int) -> int {
    (days - unix_epoch_day()) * 86400 + secs
}

/// An instant as the local clock shows it.
pub struct LocalInstant {
    /// Unix timestamp in seconds.
    pub timestamp: i64,
    /// Local date (chrono day number).
    pub date: i32,
    /// Local time of day, seconds after midnight.
    pub seconds: u32,
    /// The local time zone's offset from UTC at this instant, in seconds.
    pub offset: i32,
}

/// chrono's `NaiveTime::from_hms_opt(hour, minute, 0)`, read back with
/// `num_seconds_from_midnight`. chrono's source gives `Some` exactly when
/// `hour < 24 && minute < 60`, holding `hour * 3600 + minute * 60` seconds.
#[verifier::external_body]
pub(crate) fn time_from_hm(hour: u32, minute: u32) -> (r: Option<u32>)
    ensures
        r is Some <==> (hour < 24 && minute < 60),
        r matches Some(s) ==> s == hour * 3600 + minute * 60,
{
    match NaiveTime::from_hms_opt(hour, minute, 0) {
        Some(t) => Some(t.num_seconds_from_midnight()),
        None => None,
    }
}

/// std's `SystemTime::now().duration_since(UNIX_EPOCH)`: the whole seconds since 1970 on the
/// system clock, or `None` when the clock reads before 1970. What it returns depends on the
/// clock, so nothing more is claimed.
#[verifier::external_body]
pub(crate) fn seconds_since_epoch() -> (r: Option<u64>) {
    match SystemTime::now().duration_since(UNIX_EPOCH) {
        Ok(d) => Some(d.as_secs()),
        Err(_) => None,
    }
}

/// `n` is instant `ts` on the local clock: the local date and time of day are those of
/// `ts` moved by the time zone's offset `n.offset`, which is under one day.
pub open spec fn local_reading_ok(ts: i64, n: LocalInstant) -> bool {
    &&& n.timestamp == ts
    &&& -86400 < n.offset < 86400
    &&& n.seconds == (ts + n.offset) % 86400
    &&& n.date == (ts + n.offset) / 86400 + unix_epoch_day()
}

/// chrono's `DateTime::from_timestamp(ts, 0)`, then `with_timezone(&Local)`, read back as the
/// local offset from UTC (`local_minus_utc`) at instant `ts`. chrono's source gives `None`
/// exactly for timestamps outside `timestamp_in_range`; the offset depends on the machine's
/// time zone, of which only the bound of a chrono `FixedOffset` (under one day) is claimed.
/// chrono panics if the time-zone data cannot be used; that is not stated here.
#[verifier::external_body]
pub(crate) fn local_offset(ts: i64) -> (r: Option<i32>)
    ensures
        r is Some <==> timestamp_in_range(ts as int),
        r matches Some(o) ==> -86400 < o < 86400,
{
    match DateTime::from_timestamp(ts, 0) {
        Some(dt) => Some(dt.with_timezone(&Local).offset().local_minus_utc()),
        None => None,
    }
}

/// Instant `ts` on the local clock: its local date and time of day, computed from the local
/// offset as chrono computes a local date-time (UTC plus the offset). `None` exactly when `ts`
/// is outside chrono's range.
pub fn local_reading(ts: i64) -> (r: Option<LocalInstant>)
    ensures
        r is Some <==> timestamp_in_range(ts as int),
        r matches Some(n) ==> local_reading_ok(ts, n),
{
    let offset = match local_offset(ts) {
        Some(o) => o,
        None => {
            return None;
        },
    };
    // Shift by a whole number of days so that the local reading is non-negative.
    let shift: i64 = 8640000000000;
    let x = ts + offset as i64 + shift;
    let ux = x as u64;
    let seconds = (ux % 86400) as u32;
    let days = (ux / 86400) as i64 - 100000000 + 719163;
    proof {
        let l = ts + offset;
        assert(x == l + 100000000 * 86400);
        assert(x % 86400 == l % 86400 && x / 86400 == l / 86400 + 100000000) by (nonlinear_arith)
            requires
                x == l + 100000000 * 86400,
        ;
    }
    Some(LocalInstant { timestamp: ts, date: days as i32, seconds, offset })
}

/// `s` is the time of day that the local clock shows at instant `ts`, for some offset of the
/// local time zone at `ts`.
pub open spec fn local_time_of(ts: i64, s: u32) -> bool {
    exists|n: LocalInstant| #[trigger] local_reading_ok(ts, n) && n.seconds == s
}

/// `s` is the local time of day of one reading of the clock: an instant within chrono's
/// range, as the local clock shows it.
pub open spec fn clock_time_of_day(s: u32) -> bool {
    exists|n: LocalInstant|
        #[trigger] local_reading_ok(n.timestamp, n) && timestamp_in_range(n.timestamp as int)
            && n.seconds == s
}

/// Every time of day is what the local clock shows at an instant `ts` for some offset under
/// a day: a local time of day says nothing of the instant by itself.
pub proof fn lemma_every_time_of_day_is_local(ts: i64, s: u32)
    requires
        timestamp_in_range(ts as int),
        s < 86400,
    ensures
        local_time_of(ts, s),
{
    let q = ts / 86400;
    let o = s - ts % 86400;
    assert(ts == q * 86400 + ts % 86400);
    assert(ts + o == q * 86400 + s);
    assert((ts + o) % 86400 == s && (ts + o) / 86400 == q) by (nonlinear_arith)
        requires
            ts + o == q * 86400 + s,
            0 <= s < 86400,
    ;
    assert(-96468996 <= q <= 95026236) by (nonlinear_arith)
        requires
            q == ts / 86400,
            -8334601228800 <= ts <= 8210266876799,
    ;
    let n = LocalInstant {
        timestamp: ts,
        date: (q + unix_epoch_day()) as i32,
        seconds: s,
        offset: o as i32,
    };
    assert(local_reading_ok(ts, n));
}

/// The local time of day of instant `ts`, when `ts` is within chrono's range.
pub fn local_seconds(ts: i64) -> (r: Option<u32>)
    ensures
        r is Some <==> timestamp_in_range(ts as int),
        r matches Some(s) ==> s < 86400 && local_time_of(ts, s),
{
    match local_reading(ts) {
        Some(n) => {
            assert(local_reading_ok(ts, n));
            Some(n.seconds)
        },
        None => None,
    }
}

/// The current instant on the local clock, to the second; `None` when the system clock reads
/// before 1970 or beyond chrono's range.
pub fn local_now() -> (r: Option<LocalInstant>)
    ensures
        r matches Some(n) ==> local_reading_ok(n.timestamp, n) && timestamp_in_range(
            n.timestamp as int,
        ),
{
    let secs = match seconds_since_epoch() {
        Some(s) => s,
        None => {
            return None;
        },
    };
    if secs > 8210266876799 {
        return None;
    }
    local_reading(secs as i64)
}

/// chrono's `NaiveDate::succ_opt`, on the date with day number `date`: `Some(date + 1)`
/// exactly when both days lie within chrono's range.
#[verifier::external_body]
pub(crate) fn next_day(date: i32) -> (r: Option<i32>)
    ensures
        r is Some <==> (date_in_range(date as int) && date_in_range(date + 1)),
        r matches Some(n) ==> n == date + 1,
{
    match NaiveDate::from_num_days_from_ce_opt(date) {
        Some(d) => match d.succ_opt() {
            Some(n) => Some(n.num_days_from_ce()),
            None => None,
        },
        None => None,
    }
}

/// chrono's `and_local_timezone(Local).earliest()` on local date `date` at `secs` after
/// midnight, read back as a Unix timestamp. Whether such a local time exists (a
/// daylight-saving gap has none) and its offset depend on the machine's time zone: the
/// contract claims only that a result needs a valid date and time of day and differs from
/// the same wall-clock reading at UTC by less than a day, as every chrono `FixedOffset` does.
/// chrono panics if the time-zone data cannot be used; that is not stated here.
#[verifier::external_body]
pub(crate) fn local_timestamp_at(date: i32, secs: u32) -> (r: Option<i64>)
    ensures
        r matches Some(t) ==> {
            &&& date_in_range(date as int)
            &&& secs < 86400
            &&& naive_timestamp(date as int, secs as int) - 86400 < t
            &&& t < naive_timestamp(date as int, secs as int) + 86400
        },
{
    let d = NaiveDate::from_num_days_from_ce_opt(date)?;
    let t = NaiveTime::from_num_seconds_from_midnight_opt(secs, 0)?;
    match d.and_time(t).and_local_timezone(Local).earliest() {
        Some(dt) => Some(dt.timestamp()),
        None => None,
    }
}

} // verus!
