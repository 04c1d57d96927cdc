use vstd::prelude::*;

use crate::date::Date;
use crate::period::BucketPeriod;
use crate::sparse::{
    SparseSeries, VALUE_LIMIT, bounded_entries, lemma_lookup_bounded, spec_lookup,
};

verus! {

/// One bucket of a dense series: the bucket date, the signed per-bucket
/// delta read from the sparse input (0 for an empty bucket), and the
/// running sum of all deltas up to and including this bucket, seeded at
/// zero before the first bucket of the window.
pub struct DenseRecord {
    pub date: Date,
    pub delta: i64,
    pub cumulative: i64,
}

/// Sum of the sparse values of the first `n` bucket keys.
pub open spec fn spec_prefix_sum(keys: Seq<Date>, s: Seq<(Date, i64)>, n: nat) -> int
    decreases n,
{
    if n == 0 {
        0
    } else {
        spec_prefix_sum(keys, s, (n - 1) as nat) + spec_lookup(s, keys[n - 1])
    }
}

/// Law: the cumulative field is monotonic-additive.  Each prefix sum
/// extends the previous one by exactly that bucket's delta, and the sum
/// before the first bucket is zero: there is no contribution from before
/// the window.
pub proof fn lemma_cumulative_additive(keys: Seq<Date>, s: Seq<(Date, i64)>, i: int)
    requires
        0 <= i < keys.len(),
    ensures
        spec_prefix_sum(keys, s, (i + 1) as nat) == spec_prefix_sum(keys, s, i as nat)
            + spec_lookup(s, keys[i]),
        spec_prefix_sum(keys, s, 0) == 0,
{
}

/// Builds the dense series of a period from a sparse per-bucket delta
/// aggregate: exactly one record per bucket, in the period's order, with
/// a zero delta where the sparse input has no entry, and the cumulative
/// counter threaded in strict chronological order.
///
/// Sparse entries whose date is not one of the period's bucket dates are
/// never looked up, so they cannot affect the output.
pub fn build_dense_series(period: &BucketPeriod, deltas: &SparseSeries) -> (r: Vec<DenseRecord>)
    requires
        bounded_entries(deltas@),
        period.dates@.len() <= 100_000,
    ensures
        r@.len() == period.dates@.len(),
        forall|i: int| 0 <= i < r@.len() ==> (#[trigger] r@[i]).date == period.dates@[i],
        forall|i: int|
            0 <= i < r@.len() ==> (#[trigger] r@[i]).delta == spec_lookup(
                deltas@,
                period.dates@[i],
            ),
        forall|i: int|
            0 <= i < r@.len() ==> (#[trigger] r@[i]).cumulative == spec_prefix_sum(
                period.dates@,
                deltas@,
                (i + 1) as nat,
            ),
{
    let mut r: Vec<DenseRecord> = Vec::new();
    let mut cum: i64 = 0;
    let mut i: usize = 0;
    while i < period.dates.len()
        invariant
            i <= period.dates@.len(),
            period.dates@.len() <= 100_000,
            bounded_entries(deltas@),
            r@.len() == i,
            cum == spec_prefix_sum(period.dates@, deltas@, i as nat),
            -(i as int) * VALUE_LIMIT <= cum <= (i as int) * VALUE_LIMIT,
            forall|k: int| 0 <= k < i ==> (#[trigger] r@[k]).date == period.dates@[k],
            forall|k: int|
                0 <= k < i ==> (#[trigger] r@[k]).delta == spec_lookup(
                    deltas@,
                    period.dates@[k],
                ),
            forall|k: int|
                0 <= k < i ==> (#[trigger] r@[k]).cumulative == spec_prefix_sum(
                    period.dates@,
                    deltas@,
                    (k + 1) as nat,
                ),
        decreases period.dates@.len() - i,
    {
        let key = period.dates[i];
        let d = deltas.get(&key);
        proof {
            lemma_lookup_bounded(deltas@, key);
        }
        cum = cum + d;
        r.push(DenseRecord { date: key, delta: d, cumulative: cum });
        i = i + 1;
    }
    r
}

/// One bucket of a plain time series: the bucket date and the time
/// recorded for it, 0 where the source saw no activity.
pub struct MinutesRecord {
    pub date: Date,
    pub time_ms: i64,
}

/// Builds the dense time series of a period from a sparse per-bucket
/// time aggregate: one record per bucket, in the period's order,
/// zero-filled where the sparse input has no entry.
pub fn build_time_series(period: &BucketPeriod, time: &SparseSeries) -> (r: Vec<MinutesRecord>)
    ensures
        r@.len() == period.dates@.len(),
        forall|i: int| 0 <= i < r@.len() ==> (#[trigger] r@[i]).date == period.dates@[i],
        forall|i: int|
            0 <= i < r@.len() ==> (#[trigger] r@[i]).time_ms == spec_lookup(
                time@,
                period.dates@[i],
            ),
{
    let mut r: Vec<MinutesRecord> = Vec::new();
    let mut i: usize = 0;
    while i < period.dates.len()
        invariant
            i <= period.dates@.len(),
            r@.len() == i,
            forall|k: int| 0 <= k < i ==> (#[trigger] r@[k]).date == period.dates@[k],
            forall|k: int|
                0 <= k < i ==> (#[trigger] r@[k]).time_ms == spec_lookup(
                    time@,
                    period.dates@[k],
                ),
        decreases period.dates@.len() - i,
    {
        let key = period.dates[i];
        r.push(MinutesRecord { date: key, time_ms: time.get(&key) });
        i = i + 1;
    }
    r
}

/// One bucket of a study-progress series: per-bucket study time, counts
/// of passages that matured and that were lost, and the running net
/// progress (matured minus lost) accumulated over the window.
pub struct DayStats {
    pub date: Date,
    pub time_ms: i64,
    pub matured_passages: i64,
    pub lost_passages: i64,
    pub cumulative_passages: i64,
}

/// The same record shape keyed by the week's starting Sunday.
pub struct WeekStats {
    pub week_start: Date,
    pub time_ms: i64,
    pub matured_passages: i64,
    pub lost_passages: i64,
    pub cumulative_passages: i64,
}

/// Net progress (matured minus lost) summed over the first `n` bucket
/// keys.
pub open spec fn spec_net_prefix(
    keys: Seq<Date>,
    matured: Seq<(Date, i64)>,
    lost: Seq<(Date, i64)>,
    n: nat,
) -> int
    decreases n,
{
    if n == 0 {
        0
    } else {
        spec_net_prefix(keys, matured, lost, (n - 1) as nat) + spec_lookup(matured, keys[n - 1])
            - spec_lookup(lost, keys[n - 1])
    }
}

/// Builds the per-day study series of a period: study time, maturation
/// and loss counts per bucket (zero-filled where a source has no entry),
/// and the cumulative net progress threaded chronologically.
pub fn build_day_series(
    period: &BucketPeriod,
    time: &SparseSeries,
    matured: &SparseSeries,
    lost: &SparseSeries,
) -> (r: Vec<DayStats>)
    requires
        bounded_entries(time@),
        bounded_entries(matured@),
        bounded_entries(lost@),
        period.dates@.len() <= 100_000,
    ensures
        r@.len() == period.dates@.len(),
        forall|i: int| 0 <= i < r@.len() ==> (#[trigger] r@[i]).date == period.dates@[i],
        forall|i: int|
            0 <= i < r@.len() ==> (#[trigger] r@[i]).time_ms == spec_lookup(
                time@,
                period.dates@[i],
            ),
        forall|i: int|
            0 <= i < r@.len() ==> (#[trigger] r@[i]).matured_passages == spec_lookup(
                matured@,
                period.dates@[i],
            ),
        forall|i: int|
            0 <= i < r@.len() ==> (#[trigger] r@[i]).lost_passages == spec_lookup(
                lost@,
                period.dates@[i],
            ),
        forall|i: int|
            0 <= i < r@.len() ==> (#[trigger] r@[i]).cumulative_passages == spec_net_prefix(
                period.dates@,
                matured@,
                lost@,
                (i + 1) as nat,
            ),
{
    let mut r: Vec<DayStats> = Vec::new();
    let mut cum: i64 = 0;
    let mut i: usize = 0;
    while i < period.dates.len()
        invariant
            i <= period.dates@.len(),
            period.dates@.len() <= 100_000,
            bounded_entries(time@),
            bounded_entries(matured@),
            bounded_entries(lost@),
            r@.len() == i,
            cum == spec_net_prefix(period.dates@, matured@, lost@, i as nat),
            -(i as int) * 2_000_000_000_000 <= cum <= (i as int) * 2_000_000_000_000,
            forall|k: int| 0 <= k < i ==> (#[trigger] r@[k]).date == period.dates@[k],
            forall|k: int|
                0 <= k < i ==> (#[trigger] r@[k]).time_ms == spec_lookup(
                    time@,
                    period.dates@[k],
                ),
            forall|k: int|
                0 <= k < i ==> (#[trigger] r@[k]).matured_passages == spec_lookup(
                    matured@,
                    period.dates@[k],
                ),
            forall|k: int|
                0 <= k < i ==> (#[trigger] r@[k]).lost_passages == spec_lookup(
                    lost@,
                    period.dates@[k],
                ),
            forall|k: int|
                0 <= k < i ==> (#[trigger] r@[k]).cumulative_passages == spec_net_prefix(
                    period.dates@,
                    matured@,
                    lost@,
                    (k + 1) as nat,
                ),
        decreases period.dates@.len() - i,
    {
        let key = period.dates[i];
        let t = time.get(&key);
        let m = matured.get(&key);
        let l = lost.get(&key);
        proof {
            lemma_lookup_bounded(matured@, key);
            lemma_lookup_bounded(lost@, key);
        }
        cum = cum + m - l;
        r.push(
            DayStats {
                date: key,
                time_ms: t,
                matured_passages: m,
                lost_passages: l,
                cumulative_passages: cum,
            },
        );
        i = i + 1;
    }
    r
}

/// Builds the per-week study series of a period; the same computation as
/// [`build_day_series`], keyed by week-start dates.
pub fn build_week_series(
    period: &BucketPeriod,
    time: &SparseSeries,
    matured: &SparseSeries,
    lost: &SparseSeries,
) -> (r: Vec<WeekStats>)
    requires
        bounded_entries(time@),
        bounded_entries(matured@),
        bounded_entries(lost@),
        period.dates@.len() <= 100_000,
    ensures
        r@.len() == period.dates@.len(),
        forall|i: int| 0 <= i < r@.len() ==> (#[trigger] r@[i]).week_start == period.dates@[i],
        forall|i: int|
            0 <= i < r@.len() ==> (#[trigger] r@[i]).time_ms == spec_lookup(
                time@,
                period.dates@[i],
            ),
        forall|i: int|
            0 <= i < r@.len() ==> (#[trigger] r@[i]).matured_passages == spec_lookup(
                matured@,
                period.dates@[i],
            ),
        forall|i: int|
            0 <= i < r@.len() ==> (#[trigger] r@[i]).lost_passages == spec_lookup(
                lost@,
                period.dates@[i],
            ),
        forall|i: int|
            0 <= i < r@.len() ==> (#[trigger] r@[i]).cumulative_passages == spec_net_prefix(
                period.dates@,
                matured@,
                lost@,
                (i + 1) as nat,
            ),
{
    let days = build_day_series(period, time, matured, lost);
    let mut r: Vec<WeekStats> = Vec::new();
    let mut i: usize = 0;
    while i < days.len()
        invariant
            i <= days@.len(),
            r@.len() == i,
            forall|k: int|
                0 <= k < i ==> #[trigger] r@[k] == (WeekStats {
                    week_start: days@[k].date,
                    time_ms: days@[k].time_ms,
                    matured_passages: days@[k].matured_passages,
                    lost_passages: days@[k].lost_passages,
                    cumulative_passages: days@[k].cumulative_passages,
                }),
        decreases days@.len() - i,
    {
        let d = &days[i];
        r.push(
            WeekStats {
                week_start: d.date,
                time_ms: d.time_ms,
                matured_passages: d.matured_passages,
                lost_passages: d.lost_passages,
                cumulative_passages: d.cumulative_passages,
            },
        );
        i = i + 1;
    }
    r
}

} // verus!
