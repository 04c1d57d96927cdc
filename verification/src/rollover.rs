use vstd::prelude::*;

use crate::date::{
    Date, date_key_chars, day_index, days_before_year, lemma_day_index_in_year,
    lemma_days_before_year_bounds, lemma_days_before_year_mono, lemma_minus_days, minus_days,
    prev_date, spec_weekday,
};
use crate::tz::{MS_MAX, MS_MIN, ROLLOVER_HOUR, chicago_civil_date, civil_date_of, civil_hour_of};

verus! {

/// The calendar day an instant belongs to: its Chicago civil date, moved
/// one day back when the local hour is before the rollover hour.
pub open spec fn spec_bucket_date(ms: int) -> Date {
    if civil_hour_of(ms) < ROLLOVER_HOUR as int {
        prev_date(civil_date_of(ms))
    } else {
        civil_date_of(ms)
    }
}

/// The most recent Sunday on or before `d` (the start of `d`'s week).
pub open spec fn spec_week_start(d: Date) -> Date {
    minus_days(d, spec_weekday(d) as nat)
}

/// The week-start key of an instant: the Sunday starting the week of the
/// rollover-adjusted local day.
pub open spec fn spec_week_start_of_ms(ms: int) -> Date {
    spec_week_start(spec_bucket_date(ms))
}

/// Every date the wrappers hand out is late enough on the time line that
/// the window arithmetic never runs off the calendar.
pub proof fn lemma_modern_index(d: Date)
    requires
        d.valid(),
        1982 <= d.year,
    ensures
        day_index(d) >= days_before_year(1970) + 4000,
        day_index(d) > 0,
{
    lemma_day_index_in_year(d);
    lemma_days_before_year_mono(1970, d.year as int);
    lemma_days_before_year_bounds(1970);
}

/// The rollover-adjusted local calendar day of an instant.
pub fn bucket_date(ms: i64) -> (r: Date)
    requires
        MS_MIN <= ms <= MS_MAX,
    ensures
        r == spec_bucket_date(ms as int),
        r.valid(),
        1983 <= r.year <= 2098,
{
    let (civil, hour) = chicago_civil_date(ms);
    if hour < ROLLOVER_HOUR {
        proof {
            lemma_modern_index(civil);
        }
        civil.pred()
    } else {
        civil
    }
}

/// The start (Sunday) of the week an instant belongs to, after rollover
/// adjustment.
pub fn week_start_date(ms: i64) -> (r: Date)
    requires
        MS_MIN <= ms <= MS_MAX,
    ensures
        r == spec_week_start_of_ms(ms as int),
        r.valid(),
        1982 <= r.year <= 2098,
{
    let d = bucket_date(ms);
    let wd = d.weekday();
    proof {
        lemma_modern_index(d);
        lemma_days_before_year_bounds(1970);
        lemma_minus_days(d, wd as nat);
        lemma_day_index_in_year(d);
        lemma_days_before_year_mono(1982, d.year as int);
        lemma_days_before_year_mono(d.year as int + 1, 2099);
        let r = minus_days(d, wd as nat);
        crate::date::lemma_year_within(r, 1982, 2098);
    }
    d.back(wd)
}

/// The canonical `YYYY-MM-DD` day-bucket key of an instant.
pub fn day_key(ms: i64) -> (r: String)
    requires
        MS_MIN <= ms <= MS_MAX,
    ensures
        r@ == date_key_chars(spec_bucket_date(ms as int)),
{
    let d = bucket_date(ms);
    d.key_string()
}

/// The canonical `YYYY-MM-DD` week-bucket key of an instant: the date of
/// the Sunday starting its rollover-adjusted week.
pub fn week_start_key(ms: i64) -> (r: String)
    requires
        MS_MIN <= ms <= MS_MAX,
    ensures
        r@ == date_key_chars(spec_week_start_of_ms(ms as int)),
{
    let d = week_start_date(ms);
    d.key_string()
}

/// Law: the week-start map always lands on a Sunday, and applying it to a
/// date that already starts a week leaves the date unchanged.
pub proof fn lemma_week_start_idempotent(d: Date)
    requires
        d.valid(),
        day_index(d) >= 6,
    ensures
        spec_weekday(spec_week_start(d)) == 0,
        spec_week_start(spec_week_start(d)) == spec_week_start(d),
{
    let i = day_index(d);
    let wd = spec_weekday(d);
    lemma_minus_days(d, wd as nat);
    let ws = spec_week_start(d);
    assert(day_index(ws) == i - wd);
    assert(spec_weekday(ws) == 0) by {
        let q = (i + 1) / 7;
        assert(i + 1 == 7 * q + wd);
        assert(day_index(ws) + 1 == 7 * q);
        assert((7 * q) % 7 == 0) by (nonlinear_arith);
    }
    assert(spec_week_start(ws) == minus_days(ws, 0));
}

} // verus!
