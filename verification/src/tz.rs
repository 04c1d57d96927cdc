use vstd::prelude::*;

use chrono::TimeZone;
use chrono::{Datelike, Timelike};

use crate::date::{Date, day_index, days_in_month};

verus! {

/// Instants earlier than this (1985-01-01T00:00:00Z) are outside the range
/// the engine accepts, which keeps every date the window arithmetic can
/// reach inside the years the timezone wrappers are specified for.
pub const MS_MIN: i64 = 473_385_600_000;

/// Instants later than this (late in year 2098 UTC) are outside the range
/// the engine accepts.
pub const MS_MAX: i64 = 4_070_000_000_000;

/// Hour of the local day before which an instant is bucketed with the
/// previous calendar day.
pub const ROLLOVER_HOUR: u32 = 4;

/// The local civil time in America/Chicago of the instant `ms`
/// (milliseconds since the Unix epoch), as `(year, month, day, hour)`.
/// The value is fixed by the timezone database; nothing in this crate
/// defines it beyond the facts stated by `civil_parts`.
pub uninterp spec fn chicago_civil(ms: int) -> (int, int, int, int);

/// The calendar date of `chicago_civil(ms)`.
pub open spec fn civil_date_of(ms: int) -> Date {
    Date {
        year: chicago_civil(ms).0 as u32,
        month: chicago_civil(ms).1 as u32,
        day: chicago_civil(ms).2 as u32,
    }
}

/// The local hour of `chicago_civil(ms)`.
pub open spec fn civil_hour_of(ms: int) -> int {
    chicago_civil(ms).3
}

/// The instant (milliseconds since the Unix epoch) at 04:00 local
/// America/Chicago time on the given calendar day.
pub uninterp spec fn chicago_day_start(y: int, m: int, d: int) -> int;

/// Midnight UTC of the day with the given day index, in milliseconds
/// since the Unix epoch (day index 719162 is 1970-01-01).
pub open spec fn day_utc_ms(idx: int) -> int {
    (idx - 719_162) * 86_400_000
}

/// `chicago_day_start` applied to a date's components.
pub open spec fn day_start_of(d: Date) -> int {
    chicago_day_start(d.year as int, d.month as int, d.day as int)
}

/// Relies on chrono's `TimeZone::timestamp_millis_opt` and
/// `DateTime::with_timezone` with chrono-tz's `America::Chicago`, and on the
/// `Datelike`/`Timelike` accessors: for an in-range instant the conversion
/// always succeeds and yields a valid civil date (month 1..=12, day valid
/// for the month, hour 0..=23); for instants between 1985 and late 2098 UTC
/// the local year stays within 1984..=2098.
#[verifier::external_body]
fn civil_parts(ms: i64) -> (r: (u32, u32, u32, u32))
    requires
        MS_MIN <= ms <= MS_MAX,
    ensures
        (r.0 as int, r.1 as int, r.2 as int, r.3 as int) == chicago_civil(ms as int),
        1984 <= r.0 <= 2098,
        1 <= r.1 <= 12,
        1 <= r.2 <= days_in_month(r.0 as int, r.1 as int),
        r.3 <= 23,
{
    let dt = chrono::Utc
        .timestamp_millis_opt(ms)
        .unwrap()
        .with_timezone(&chrono_tz::America::Chicago);
    (dt.year() as u32, dt.month(), dt.day(), dt.hour())
}

/// Relies on chrono-tz's `TimeZone::with_ymd_and_hms` for `America::Chicago`
/// and chrono's `DateTime::timestamp_millis`: 04:00 exists exactly once on
/// every Chicago day in the supported years (daylight-saving transitions
/// happen at 02:00 local), and the resulting instant lies 9 to 10 hours
/// after midnight UTC of that day (Chicago is UTC-5 or UTC-6).
#[verifier::external_body]
pub(crate) fn day_start_instant(date: &Date) -> (r: i64)
    requires
        date.valid(),
        1970 <= date.year <= 2099,
    ensures
        r == chicago_day_start(date.year as int, date.month as int, date.day as int),
        day_utc_ms(day_index(*date)) + 32_400_000 <= r <= day_utc_ms(day_index(*date))
            + 36_000_000,
{
    let dt = chrono_tz::America::Chicago
        .with_ymd_and_hms(date.year as i32, date.month, date.day, ROLLOVER_HOUR, 0, 0)
        .single()
        .unwrap();
    dt.timestamp_millis()
}

/// What chrono's `DateTime::parse_from_rfc3339` accepts, reduced to the
/// parsed instant in milliseconds since the Unix epoch; `None` where the
/// string is not a valid RFC 3339 date-time.
pub uninterp spec fn rfc3339_ms(s: Seq<char>) -> Option<i64>;

/// Relies on chrono's `DateTime::parse_from_rfc3339` and
/// `DateTime::timestamp_millis`: the parse is a pure function of the
/// string's characters.
#[verifier::external_body]
pub fn parse_iso8601_timestamp(s: &str) -> (r: Option<i64>)
    ensures
        r == rfc3339_ms(s@),
{
    match chrono::DateTime::parse_from_rfc3339(s) {
        Ok(dt) => Some(dt.timestamp_millis()),
        Err(_) => None,
    }
}

/// The civil date handed back by the timezone wrapper, packaged with the
/// validity facts its contract states.
pub(crate) fn chicago_civil_date(ms: i64) -> (r: (Date, u32))
    requires
        MS_MIN <= ms <= MS_MAX,
    ensures
        r.0 == civil_date_of(ms as int),
        r.1 == civil_hour_of(ms as int),
        r.0.valid(),
        1984 <= r.0.year <= 2098,
        r.1 <= 23,
{
    let (y, m, d, h) = civil_parts(ms);
    (Date { year: y, month: m, day: d }, h)
}

} // verus!
