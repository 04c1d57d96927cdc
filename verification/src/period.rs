use vstd::prelude::*;

use crate::date::{
    Date, date_key_chars, date_lt, day_index, days_before_year, lemma_day_index_in_year,
    lemma_days_before_year_bounds, lemma_days_before_year_mono, lemma_plus_days,
    lemma_year_within, minus_days, plus_days,
};
use crate::rollover::{
    bucket_date, lemma_modern_index, spec_bucket_date, spec_week_start_of_ms, week_start_date,
};
use crate::tz::{MS_MAX, MS_MIN, day_start_instant, day_start_of, day_utc_ms};

verus! {

/// Granularity of a trailing window: one bucket per day or one per week.
#[derive(Clone, Copy, Debug, PartialEq, Eq, Structural)]
pub enum WindowKind {
    Daily,
    Weekly,
}

/// Days between two consecutive bucket keys of a window.
pub open spec fn window_step(kind: WindowKind) -> int {
    match kind {
        WindowKind::Daily => 1,
        WindowKind::Weekly => 7,
    }
}

/// The newest bucket key of a window anchored at the instant `ms`: the
/// rollover-adjusted local day, or the Sunday starting its week.
pub open spec fn spec_anchor(kind: WindowKind, ms: int) -> Date {
    match kind {
        WindowKind::Daily => spec_bucket_date(ms),
        WindowKind::Weekly => spec_week_start_of_ms(ms),
    }
}

/// The full ordered bucket-key list of a window: `size` keys, one step
/// apart, ending at the anchor.
pub open spec fn spec_bucket_dates(kind: WindowKind, size: int, ms: int) -> Seq<Date> {
    Seq::new(
        size as nat,
        |i: int| minus_days(spec_anchor(kind, ms), (window_step(kind) * (size - 1 - i)) as nat),
    )
}

/// A trailing window of day or week buckets: the half-open instant
/// interval `[start_ms, end_ms)` and the ordered list of bucket dates
/// covering it.
///
/// Created fresh per query and never mutated.  Two calls of
/// [`generate_bucket_period`] whose instants fall in the same
/// rollover-adjusted bucket produce identical periods.
pub struct BucketPeriod {
    pub start_ms: i64,
    pub end_ms: i64,
    pub dates: Vec<Date>,
}

impl BucketPeriod {
    /// Well-formedness: at least one bucket, every date valid, dates
    /// strictly increasing, and a non-empty instant interval.
    pub open spec fn wf(self) -> bool {
        &&& self.dates@.len() >= 1
        &&& (forall|i: int| 0 <= i < self.dates@.len() ==> (#[trigger] self.dates@[i]).valid())
        &&& (forall|i: int, j: int|
            0 <= i < j < self.dates@.len() ==> date_lt(self.dates@[i], self.dates@[j]))
        &&& self.start_ms < self.end_ms
    }

    /// The canonical `YYYY-MM-DD` key strings of the buckets, oldest
    /// first.
    pub fn key_strings(&self) -> (r: Vec<String>)
        requires
            self.wf(),
        ensures
            r@.len() == self.dates@.len(),
            forall|i: int| 0 <= i < r@.len() ==> r@[i]@ == date_key_chars(self.dates@[i]),
    {
        let mut r: Vec<String> = Vec::new();
        let mut i: usize = 0;
        while i < self.dates.len()
            invariant
                i <= self.dates@.len(),
                self.wf(),
                r@.len() == i,
                forall|k: int| 0 <= k < i ==> r@[k]@ == date_key_chars(self.dates@[k]),
            decreases self.dates@.len() - i,
        {
            r.push(self.dates[i].key_string());
            i = i + 1;
        }
        r
    }
}

/// Builds the canonical bucket list for a trailing window of `size` day
/// or week buckets, anchored at the instant `now_ms`.
///
/// The newest bucket is the one `now_ms` itself falls into; the window
/// covers the instants from 04:00 local time on the first bucket's date
/// up to (but excluding) 04:00 local time on the day after the last
/// bucket ends.
pub fn generate_bucket_period(kind: WindowKind, size: usize, now_ms: i64) -> (r: BucketPeriod)
    requires
        MS_MIN <= now_ms <= MS_MAX,
        1 <= size <= 400,
    ensures
        r.wf(),
        r.dates@.len() == size,
        r.dates@ == spec_bucket_dates(kind, size as int, now_ms as int),
        forall|i: int, j: int| 0 <= i < j < size ==> r.dates@[i] != r.dates@[j],
        forall|i: int|
            0 <= i < size ==> day_index(#[trigger] r.dates@[i]) == day_index(
                spec_anchor(kind, now_ms as int),
            ) - window_step(kind) * (size - 1 - i),
        r.start_ms == day_start_of(spec_bucket_dates(kind, size as int, now_ms as int)[0]),
        r.end_ms == day_start_of(
            plus_days(spec_anchor(kind, now_ms as int), window_step(kind) as nat),
        ),
{
    let anchor = match kind {
        WindowKind::Daily => bucket_date(now_ms),
        WindowKind::Weekly => week_start_date(now_ms),
    };
    let step: u32 = match kind {
        WindowKind::Daily => 1,
        WindowKind::Weekly => 7,
    };
    proof {
        lemma_modern_index(anchor);
        lemma_days_before_year_bounds(1970);
    }
    let ghost anchor_idx = day_index(anchor);
    let mut dates: Vec<Date> = Vec::new();
    let mut i: usize = 0;
    while i < size
        invariant
            i <= size,
            1 <= size <= 400,
            step == window_step(kind),
            anchor == spec_anchor(kind, now_ms as int),
            anchor.valid(),
            anchor_idx == day_index(anchor),
            anchor_idx >= days_before_year(1970) + 4000,
            days_before_year(1970) >= 0,
            dates@.len() == i,
            forall|k: int|
                0 <= k < i ==> dates@[k] == spec_bucket_dates(kind, size as int, now_ms as int)[k],
            forall|k: int|
                0 <= k < i ==> (#[trigger] dates@[k]).valid() && day_index(dates@[k]) == anchor_idx
                    - window_step(kind) * (size - 1 - k),
        decreases size - i,
    {
        let n: u32 = step * ((size - 1 - i) as u32);
        proof {
            assert(n == window_step(kind) * (size - 1 - i));
            assert(n <= 7 * 399);
        }
        let d = anchor.back(n);
        dates.push(d);
        i = i + 1;
    }
    proof {
        assert(dates@ =~= spec_bucket_dates(kind, size as int, now_ms as int));
        assert forall|a: int, b: int| 0 <= a < b < size implies date_lt(dates@[a], dates@[b]) by {
            let s = window_step(kind);
            assert(s * (size - 1 - a) > s * (size - 1 - b)) by (nonlinear_arith)
                requires
                    1 <= s,
                    size - 1 - a > size - 1 - b >= 0,
            ;
        }
        // Year bounds let the timezone wrapper accept the boundary dates.
        lemma_day_index_in_year(anchor);
        lemma_days_before_year_mono(anchor.year as int + 1, 2099);
        lemma_year_within(dates@[0], 1970, 2098);
        lemma_plus_days(anchor, step as nat);
        lemma_year_within(plus_days(anchor, step as nat), 1970, 2099);
    }
    let start_ms = day_start_instant(&dates[0]);
    let end_date = anchor.fwd(step);
    let end_ms = day_start_instant(&end_date);
    proof {
        // The window is non-empty: the end bucket's day starts at least
        // one full day after the first bucket's day.
        let idx0 = day_index(dates@[0]);
        let idxe = day_index(end_date);
        assert(idxe - idx0 == window_step(kind) * (size as int - 1) + window_step(kind));
        assert(window_step(kind) * (size as int - 1) >= 0) by (nonlinear_arith)
            requires
                window_step(kind) >= 1,
                size >= 1,
        ;
        assert(day_utc_ms(idxe) >= day_utc_ms(idx0) + 86_400_000);
    }
    BucketPeriod { start_ms, end_ms, dates }
}

/// The canonical trailing 30-day window ending on the bucket day of
/// `now_ms`.
pub fn last_30_days(now_ms: i64) -> (r: BucketPeriod)
    requires
        MS_MIN <= now_ms <= MS_MAX,
    ensures
        r.wf(),
        r.dates@.len() == 30,
        r.dates@ == spec_bucket_dates(WindowKind::Daily, 30, now_ms as int),
{
    generate_bucket_period(WindowKind::Daily, 30, now_ms)
}

/// The canonical trailing 12-week window ending on the week of `now_ms`.
pub fn last_12_weeks(now_ms: i64) -> (r: BucketPeriod)
    requires
        MS_MIN <= now_ms <= MS_MAX,
    ensures
        r.wf(),
        r.dates@.len() == 12,
        r.dates@ == spec_bucket_dates(WindowKind::Weekly, 12, now_ms as int),
{
    generate_bucket_period(WindowKind::Weekly, 12, now_ms)
}

} // verus!
