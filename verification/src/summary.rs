use vstd::prelude::*;

use crate::dense::{DayStats, MinutesRecord, WeekStats};
use crate::merge::{
    FaithDayStats, FaithWeekStats, days_aligned, merged_day, merged_week, try_merge_daily,
    try_merge_weekly, weeks_aligned,
};

verus! {

/// Per-record magnitude bound under which every total a summary forms
/// stays far away from overflow.
pub const SUMMARY_VALUE_LIMIT: i64 = 1_000_000_000_000;

/// Every metric of every day record lies within the summary bound.
pub open spec fn day_records_bounded(days: Seq<DayStats>) -> bool {
    forall|i: int|
        0 <= i < days.len() ==> {
            let d = #[trigger] days[i];
            &&& -SUMMARY_VALUE_LIMIT <= d.time_ms <= SUMMARY_VALUE_LIMIT
            &&& -SUMMARY_VALUE_LIMIT <= d.matured_passages <= SUMMARY_VALUE_LIMIT
            &&& -SUMMARY_VALUE_LIMIT <= d.lost_passages <= SUMMARY_VALUE_LIMIT
        }
}

/// Study time total, count of days with any study time, and the matured
/// and lost totals of a day series.
pub open spec fn spec_day_totals(days: Seq<DayStats>) -> (int, int, int, int)
    decreases days.len(),
{
    if days.len() == 0 {
        (0, 0, 0, 0)
    } else {
        let p = spec_day_totals(days.drop_last());
        let d = days.last();
        (
            p.0 + d.time_ms,
            p.1 + if d.time_ms > 0 {
                1int
            } else {
                0int
            },
            p.2 + d.matured_passages,
            p.3 + d.lost_passages,
        )
    }
}

/// Whole-window totals of a daily study series.  The presentation layer
/// derives hours and averages from these.
pub struct DailySummary {
    pub total_time_ms: i64,
    pub days_studied: usize,
    pub total_days: usize,
    pub total_matured_passages: i64,
    pub total_lost_passages: i64,
    pub net_progress: i64,
}

impl DailySummary {
    /// Sums a day series: total study time, how many days saw any
    /// study, total maturations and losses, and the net progress.
    pub fn from_daily_stats(daily: &Vec<DayStats>) -> (r: DailySummary)
        requires
            daily@.len() <= 100_000,
            day_records_bounded(daily@),
        ensures
            r.total_time_ms == spec_day_totals(daily@).0,
            r.days_studied == spec_day_totals(daily@).1,
            r.total_days == daily@.len(),
            r.total_matured_passages == spec_day_totals(daily@).2,
            r.total_lost_passages == spec_day_totals(daily@).3,
            r.net_progress == spec_day_totals(daily@).2 - spec_day_totals(daily@).3,
    {
        let mut time: i64 = 0;
        let mut studied: usize = 0;
        let mut matured: i64 = 0;
        let mut lost: i64 = 0;
        let mut i: usize = 0;
        while i < daily.len()
            invariant
                i <= daily@.len(),
                daily@.len() <= 100_000,
                day_records_bounded(daily@),
                time == spec_day_totals(daily@.take(i as int)).0,
                studied == spec_day_totals(daily@.take(i as int)).1,
                matured == spec_day_totals(daily@.take(i as int)).2,
                lost == spec_day_totals(daily@.take(i as int)).3,
                -(i as int) * 1_000_000_000_000 <= time <= (i as int) * 1_000_000_000_000,
                studied <= i,
                -(i as int) * 1_000_000_000_000 <= matured <= (i as int) * 1_000_000_000_000,
                -(i as int) * 1_000_000_000_000 <= lost <= (i as int) * 1_000_000_000_000,
            decreases daily@.len() - i,
        {
            proof {
                assert(daily@.take(i as int + 1).drop_last() =~= daily@.take(i as int));
                assert(daily@.take(i as int + 1).last() == daily@[i as int]);
            }
            let d = &daily[i];
            time = time + d.time_ms;
            if d.time_ms > 0 {
                studied = studied + 1;
            }
            matured = matured + d.matured_passages;
            lost = lost + d.lost_passages;
            i = i + 1;
        }
        proof {
            assert(daily@.take(daily@.len() as int) =~= daily@);
        }
        DailySummary {
            total_time_ms: time,
            days_studied: studied,
            total_days: daily.len(),
            total_matured_passages: matured,
            total_lost_passages: lost,
            net_progress: matured - lost,
        }
    }
}

/// Every metric of every week record lies within the summary bound.
pub open spec fn week_records_bounded(weeks: Seq<WeekStats>) -> bool {
    forall|i: int|
        0 <= i < weeks.len() ==> {
            let w = #[trigger] weeks[i];
            &&& -SUMMARY_VALUE_LIMIT <= w.time_ms <= SUMMARY_VALUE_LIMIT
            &&& -SUMMARY_VALUE_LIMIT <= w.matured_passages <= SUMMARY_VALUE_LIMIT
            &&& -SUMMARY_VALUE_LIMIT <= w.lost_passages <= SUMMARY_VALUE_LIMIT
        }
}

/// Study time total, count of weeks with any study time, and the
/// matured and lost totals of a week series.
pub open spec fn spec_week_totals(weeks: Seq<WeekStats>) -> (int, int, int, int)
    decreases weeks.len(),
{
    if weeks.len() == 0 {
        (0, 0, 0, 0)
    } else {
        let p = spec_week_totals(weeks.drop_last());
        let w = weeks.last();
        (
            p.0 + w.time_ms,
            p.1 + if w.time_ms > 0 {
                1int
            } else {
                0int
            },
            p.2 + w.matured_passages,
            p.3 + w.lost_passages,
        )
    }
}

/// Whole-window totals of a weekly study series.
pub struct WeeklySummary {
    pub total_time_ms: i64,
    pub weeks_studied: usize,
    pub total_weeks: usize,
    pub total_matured_passages: i64,
    pub total_lost_passages: i64,
    pub net_progress: i64,
}

impl WeeklySummary {
    /// Sums a week series: total study time, how many weeks saw any
    /// study, total maturations and losses, and the net progress.
    pub fn from_weekly_stats(weekly: &Vec<WeekStats>) -> (r: WeeklySummary)
        requires
            weekly@.len() <= 100_000,
            week_records_bounded(weekly@),
        ensures
            r.total_time_ms == spec_week_totals(weekly@).0,
            r.weeks_studied == spec_week_totals(weekly@).1,
            r.total_weeks == weekly@.len(),
            r.total_matured_passages == spec_week_totals(weekly@).2,
            r.total_lost_passages == spec_week_totals(weekly@).3,
            r.net_progress == spec_week_totals(weekly@).2 - spec_week_totals(weekly@).3,
    {
        let mut time: i64 = 0;
        let mut studied: usize = 0;
        let mut matured: i64 = 0;
        let mut lost: i64 = 0;
        let mut i: usize = 0;
        while i < weekly.len()
            invariant
                i <= weekly@.len(),
                weekly@.len() <= 100_000,
                week_records_bounded(weekly@),
                time == spec_week_totals(weekly@.take(i as int)).0,
                studied == spec_week_totals(weekly@.take(i as int)).1,
                matured == spec_week_totals(weekly@.take(i as int)).2,
                lost == spec_week_totals(weekly@.take(i as int)).3,
                -(i as int) * 1_000_000_000_000 <= time <= (i as int) * 1_000_000_000_000,
                studied <= i,
                -(i as int) * 1_000_000_000_000 <= matured <= (i as int) * 1_000_000_000_000,
                -(i as int) * 1_000_000_000_000 <= lost <= (i as int) * 1_000_000_000_000,
            decreases weekly@.len() - i,
        {
            proof {
                assert(weekly@.take(i as int + 1).drop_last() =~= weekly@.take(i as int));
                assert(weekly@.take(i as int + 1).last() == weekly@[i as int]);
            }
            let w = &weekly[i];
            time = time + w.time_ms;
            if w.time_ms > 0 {
                studied = studied + 1;
            }
            matured = matured + w.matured_passages;
            lost = lost + w.lost_passages;
            i = i + 1;
        }
        proof {
            assert(weekly@.take(weekly@.len() as int) =~= weekly@);
        }
        WeeklySummary {
            total_time_ms: time,
            weeks_studied: studied,
            total_weeks: weekly.len(),
            total_matured_passages: matured,
            total_lost_passages: lost,
            net_progress: matured - lost,
        }
    }
}

/// Every metric of every merged day record lies within the summary
/// bound.
pub open spec fn faith_day_records_bounded(days: Seq<FaithDayStats>) -> bool {
    forall|i: int|
        0 <= i < days.len() ==> {
            let d = #[trigger] days[i];
            &&& -SUMMARY_VALUE_LIMIT <= d.anki_time_ms <= SUMMARY_VALUE_LIMIT
            &&& -SUMMARY_VALUE_LIMIT <= d.reading_time_ms <= SUMMARY_VALUE_LIMIT
            &&& -SUMMARY_VALUE_LIMIT <= d.prayer_time_ms <= SUMMARY_VALUE_LIMIT
            &&& -SUMMARY_VALUE_LIMIT <= d.anki_matured_passages <= SUMMARY_VALUE_LIMIT
            &&& -SUMMARY_VALUE_LIMIT <= d.anki_lost_passages <= SUMMARY_VALUE_LIMIT
        }
}

/// Per-source time totals, per-source active-day counts, the count of
/// days with any activity, and the matured and lost totals of a merged
/// daily series.
pub open spec fn spec_faith_day_totals(days: Seq<FaithDayStats>) -> (
    int,
    int,
    int,
    int,
    int,
    int,
    int,
    int,
    int,
)
    decreases days.len(),
{
    if days.len() == 0 {
        (0, 0, 0, 0, 0, 0, 0, 0, 0)
    } else {
        let p = spec_faith_day_totals(days.drop_last());
        let d = days.last();
        (
            p.0 + d.anki_time_ms,
            p.1 + d.reading_time_ms,
            p.2 + d.prayer_time_ms,
            p.3 + if d.anki_time_ms > 0 {
                1int
            } else {
                0int
            },
            p.4 + if d.reading_time_ms > 0 {
                1int
            } else {
                0int
            },
            p.5 + if d.prayer_time_ms > 0 {
                1int
            } else {
                0int
            },
            p.6 + if d.anki_time_ms + d.reading_time_ms + d.prayer_time_ms > 0 {
                1int
            } else {
                0int
            },
            p.7 + d.anki_matured_passages,
            p.8 + d.anki_lost_passages,
        )
    }
}

/// Whole-window totals of a merged daily series, per source and
/// combined.
pub struct FaithDailySummary {
    pub anki_total_ms: i64,
    pub reading_total_ms: i64,
    pub prayer_total_ms: i64,
    pub anki_days_studied: usize,
    pub reading_days_studied: usize,
    pub prayer_days_studied: usize,
    pub days_with_any_activity: usize,
    pub anki_total_matured_passages: i64,
    pub anki_total_lost_passages: i64,
    pub anki_net_progress: i64,
    pub total_ms: i64,
    pub total_days: usize,
}

impl FaithDailySummary {
    /// Sums a merged daily series source by source: time totals, how
    /// many days each source was active, how many days saw any
    /// activity, and the net memorization progress.
    pub fn from_faith_daily_stats(days: &Vec<FaithDayStats>) -> (r: FaithDailySummary)
        requires
            days@.len() <= 100_000,
            faith_day_records_bounded(days@),
        ensures
            r.anki_total_ms == spec_faith_day_totals(days@).0,
            r.reading_total_ms == spec_faith_day_totals(days@).1,
            r.prayer_total_ms == spec_faith_day_totals(days@).2,
            r.anki_days_studied == spec_faith_day_totals(days@).3,
            r.reading_days_studied == spec_faith_day_totals(days@).4,
            r.prayer_days_studied == spec_faith_day_totals(days@).5,
            r.days_with_any_activity == spec_faith_day_totals(days@).6,
            r.anki_total_matured_passages == spec_faith_day_totals(days@).7,
            r.anki_total_lost_passages == spec_faith_day_totals(days@).8,
            r.anki_net_progress == spec_faith_day_totals(days@).7 - spec_faith_day_totals(
                days@,
            ).8,
            r.total_ms == spec_faith_day_totals(days@).0 + spec_faith_day_totals(days@).1
                + spec_faith_day_totals(days@).2,
            r.total_days == days@.len(),
    {
        let mut anki: i64 = 0;
        let mut reading: i64 = 0;
        let mut prayer: i64 = 0;
        let mut anki_days: usize = 0;
        let mut reading_days: usize = 0;
        let mut prayer_days: usize = 0;
        let mut any_days: usize = 0;
        let mut matured: i64 = 0;
        let mut lost: i64 = 0;
        let mut i: usize = 0;
        while i < days.len()
            invariant
                i <= days@.len(),
                days@.len() <= 100_000,
                faith_day_records_bounded(days@),
                anki == spec_faith_day_totals(days@.take(i as int)).0,
                reading == spec_faith_day_totals(days@.take(i as int)).1,
                prayer == spec_faith_day_totals(days@.take(i as int)).2,
                anki_days == spec_faith_day_totals(days@.take(i as int)).3,
                reading_days == spec_faith_day_totals(days@.take(i as int)).4,
                prayer_days == spec_faith_day_totals(days@.take(i as int)).5,
                any_days == spec_faith_day_totals(days@.take(i as int)).6,
                matured == spec_faith_day_totals(days@.take(i as int)).7,
                lost == spec_faith_day_totals(days@.take(i as int)).8,
                -(i as int) * 1_000_000_000_000 <= anki <= (i as int) * 1_000_000_000_000,
                -(i as int) * 1_000_000_000_000 <= reading <= (i as int) * 1_000_000_000_000,
                -(i as int) * 1_000_000_000_000 <= prayer <= (i as int) * 1_000_000_000_000,
                -(i as int) * 1_000_000_000_000 <= matured <= (i as int) * 1_000_000_000_000,
                -(i as int) * 1_000_000_000_000 <= lost <= (i as int) * 1_000_000_000_000,
                anki_days <= i,
                reading_days <= i,
                prayer_days <= i,
                any_days <= i,
            decreases days@.len() - i,
        {
            proof {
                assert(days@.take(i as int + 1).drop_last() =~= days@.take(i as int));
                assert(days@.take(i as int + 1).last() == days@[i as int]);
            }
            let d = &days[i];
            anki = anki + d.anki_time_ms;
            reading = reading + d.reading_time_ms;
            prayer = prayer + d.prayer_time_ms;
            if d.anki_time_ms > 0 {
                anki_days = anki_days + 1;
            }
            if d.reading_time_ms > 0 {
                reading_days = reading_days + 1;
            }
            if d.prayer_time_ms > 0 {
                prayer_days = prayer_days + 1;
            }
            if d.anki_time_ms + d.reading_time_ms + d.prayer_time_ms > 0 {
                any_days = any_days + 1;
            }
            matured = matured + d.anki_matured_passages;
            lost = lost + d.anki_lost_passages;
            i = i + 1;
        }
        proof {
            assert(days@.take(days@.len() as int) =~= days@);
        }
        FaithDailySummary {
            anki_total_ms: anki,
            reading_total_ms: reading,
            prayer_total_ms: prayer,
            anki_days_studied: anki_days,
            reading_days_studied: reading_days,
            prayer_days_studied: prayer_days,
            days_with_any_activity: any_days,
            anki_total_matured_passages: matured,
            anki_total_lost_passages: lost,
            anki_net_progress: matured - lost,
            total_ms: anki + reading + prayer,
            total_days: days.len(),
        }
    }
}

/// Every metric of every merged week record lies within the summary
/// bound.
pub open spec fn faith_week_records_bounded(weeks: Seq<FaithWeekStats>) -> bool {
    forall|i: int|
        0 <= i < weeks.len() ==> {
            let w = #[trigger] weeks[i];
            &&& -SUMMARY_VALUE_LIMIT <= w.anki_time_ms <= SUMMARY_VALUE_LIMIT
            &&& -SUMMARY_VALUE_LIMIT <= w.reading_time_ms <= SUMMARY_VALUE_LIMIT
            &&& -SUMMARY_VALUE_LIMIT <= w.at_church_time_ms <= SUMMARY_VALUE_LIMIT
            &&& -SUMMARY_VALUE_LIMIT <= w.prayer_time_ms <= SUMMARY_VALUE_LIMIT
            &&& -SUMMARY_VALUE_LIMIT <= w.anki_matured_passages <= SUMMARY_VALUE_LIMIT
            &&& -SUMMARY_VALUE_LIMIT <= w.anki_lost_passages <= SUMMARY_VALUE_LIMIT
        }
}

/// Per-source time totals, per-source active-week counts, the count of
/// weeks with any activity, and the matured and lost totals of a merged
/// weekly series.
pub open spec fn spec_faith_week_totals(weeks: Seq<FaithWeekStats>) -> (
    int,
    int,
    int,
    int,
    int,
    int,
    int,
    int,
    int,
    int,
    int,
)
    decreases weeks.len(),
{
    if weeks.len() == 0 {
        (0, 0, 0, 0, 0, 0, 0, 0, 0, 0, 0)
    } else {
        let p = spec_faith_week_totals(weeks.drop_last());
        let w = weeks.last();
        (
            p.0 + w.anki_time_ms,
            p.1 + w.reading_time_ms,
            p.2 + w.at_church_time_ms,
            p.3 + w.prayer_time_ms,
            p.4 + if w.anki_time_ms > 0 {
                1int
            } else {
                0int
            },
            p.5 + if w.reading_time_ms > 0 {
                1int
            } else {
                0int
            },
            p.6 + if w.at_church_time_ms > 0 {
                1int
            } else {
                0int
            },
            p.7 + if w.prayer_time_ms > 0 {
                1int
            } else {
                0int
            },
            p.8 + if w.anki_time_ms + w.reading_time_ms + w.at_church_time_ms + w.prayer_time_ms
                > 0 {
                1int
            } else {
                0int
            },
            p.9 + w.anki_matured_passages,
            p.10 + w.anki_lost_passages,
        )
    }
}

/// Whole-window totals of a merged weekly series, per source and
/// combined.
pub struct FaithWeeklySummary {
    pub anki_total_ms: i64,
    pub reading_total_ms: i64,
    pub church_total_ms: i64,
    pub prayer_total_ms: i64,
    pub anki_weeks_studied: usize,
    pub reading_weeks_studied: usize,
    pub church_weeks_attended: usize,
    pub prayer_weeks_studied: usize,
    pub weeks_with_any_activity: usize,
    pub anki_total_matured_passages: i64,
    pub anki_total_lost_passages: i64,
    pub anki_net_progress: i64,
    pub total_ms: i64,
    pub total_weeks: usize,
}

impl FaithWeeklySummary {
    /// Sums a merged weekly series source by source: time totals, how
    /// many weeks each source was active, how many weeks saw any
    /// activity, and the net memorization progress.
    pub fn from_faith_weekly_stats(weeks: &Vec<FaithWeekStats>) -> (r: FaithWeeklySummary)
        requires
            weeks@.len() <= 100_000,
            faith_week_records_bounded(weeks@),
        ensures
            r.anki_total_ms == spec_faith_week_totals(weeks@).0,
            r.reading_total_ms == spec_faith_week_totals(weeks@).1,
            r.church_total_ms == spec_faith_week_totals(weeks@).2,
            r.prayer_total_ms == spec_faith_week_totals(weeks@).3,
            r.anki_weeks_studied == spec_faith_week_totals(weeks@).4,
            r.reading_weeks_studied == spec_faith_week_totals(weeks@).5,
            r.church_weeks_attended == spec_faith_week_totals(weeks@).6,
            r.prayer_weeks_studied == spec_faith_week_totals(weeks@).7,
            r.weeks_with_any_activity == spec_faith_week_totals(weeks@).8,
            r.anki_total_matured_passages == spec_faith_week_totals(weeks@).9,
            r.anki_total_lost_passages == spec_faith_week_totals(weeks@).10,
            r.anki_net_progress == spec_faith_week_totals(weeks@).9 - spec_faith_week_totals(
                weeks@,
            ).10,
            r.total_ms == spec_faith_week_totals(weeks@).0 + spec_faith_week_totals(weeks@).1
                + spec_faith_week_totals(weeks@).2 + spec_faith_week_totals(weeks@).3,
            r.total_weeks == weeks@.len(),
    {
        let mut anki: i64 = 0;
        let mut reading: i64 = 0;
        let mut church: i64 = 0;
        let mut prayer: i64 = 0;
        let mut anki_weeks: usize = 0;
        let mut reading_weeks: usize = 0;
        let mut church_weeks: usize = 0;
        let mut prayer_weeks: usize = 0;
        let mut any_weeks: usize = 0;
        let mut matured: i64 = 0;
        let mut lost: i64 = 0;
        let mut i: usize = 0;
        while i < weeks.len()
            invariant
                i <= weeks@.len(),
                weeks@.len() <= 100_000,
                faith_week_records_bounded(weeks@),
                anki == spec_faith_week_totals(weeks@.take(i as int)).0,
                reading == spec_faith_week_totals(weeks@.take(i as int)).1,
                church == spec_faith_week_totals(weeks@.take(i as int)).2,
                prayer == spec_faith_week_totals(weeks@.take(i as int)).3,
                anki_weeks == spec_faith_week_totals(weeks@.take(i as int)).4,
                reading_weeks == spec_faith_week_totals(weeks@.take(i as int)).5,
                church_weeks == spec_faith_week_totals(weeks@.take(i as int)).6,
                prayer_weeks == spec_faith_week_totals(weeks@.take(i as int)).7,
                any_weeks == spec_faith_week_totals(weeks@.take(i as int)).8,
                matured == spec_faith_week_totals(weeks@.take(i as int)).9,
                lost == spec_faith_week_totals(weeks@.take(i as int)).10,
                -(i as int) * 1_000_000_000_000 <= anki <= (i as int) * 1_000_000_000_000,
                -(i as int) * 1_000_000_000_000 <= reading <= (i as int) * 1_000_000_000_000,
                -(i as int) * 1_000_000_000_000 <= church <= (i as int) * 1_000_000_000_000,
                -(i as int) * 1_000_000_000_000 <= prayer <= (i as int) * 1_000_000_000_000,
                -(i as int) * 1_000_000_000_000 <= matured <= (i as int) * 1_000_000_000_000,
                -(i as int) * 1_000_000_000_000 <= lost <= (i as int) * 1_000_000_000_000,
                anki_weeks <= i,
                reading_weeks <= i,
                church_weeks <= i,
                prayer_weeks <= i,
                any_weeks <= i,
            decreases weeks@.len() - i,
        {
            proof {
                assert(weeks@.take(i as int + 1).drop_last() =~= weeks@.take(i as int));
                assert(weeks@.take(i as int + 1).last() == weeks@[i as int]);
            }
            let w = &weeks[i];
            anki = anki + w.anki_time_ms;
            reading = reading + w.reading_time_ms;
            church = church + w.at_church_time_ms;
            prayer = prayer + w.prayer_time_ms;
            if w.anki_time_ms > 0 {
                anki_weeks = anki_weeks + 1;
            }
            if w.reading_time_ms > 0 {
                reading_weeks = reading_weeks + 1;
            }
            if w.at_church_time_ms > 0 {
                church_weeks = church_weeks + 1;
            }
            if w.prayer_time_ms > 0 {
                prayer_weeks = prayer_weeks + 1;
            }
            if w.anki_time_ms + w.reading_time_ms + w.at_church_time_ms + w.prayer_time_ms > 0 {
                any_weeks = any_weeks + 1;
            }
            matured = matured + w.anki_matured_passages;
            lost = lost + w.anki_lost_passages;
            i = i + 1;
        }
        proof {
            assert(weeks@.take(weeks@.len() as int) =~= weeks@);
        }
        FaithWeeklySummary {
            anki_total_ms: anki,
            reading_total_ms: reading,
            church_total_ms: church,
            prayer_total_ms: prayer,
            anki_weeks_studied: anki_weeks,
            reading_weeks_studied: reading_weeks,
            church_weeks_attended: church_weeks,
            prayer_weeks_studied: prayer_weeks,
            weeks_with_any_activity: any_weeks,
            anki_total_matured_passages: matured,
            anki_total_lost_passages: lost,
            anki_net_progress: matured - lost,
            total_ms: anki + reading + church + prayer,
            total_weeks: weeks.len(),
        }
    }
}

/// Every record of a plain time series lies within the summary bound.
pub open spec fn minutes_records_bounded(records: Seq<MinutesRecord>) -> bool {
    forall|i: int|
        0 <= i < records.len() ==> -SUMMARY_VALUE_LIMIT <= (#[trigger] records[i]).time_ms
            <= SUMMARY_VALUE_LIMIT
}

/// A daily study series together with its whole-window summary.
pub struct DailyStats {
    pub days: Vec<DayStats>,
    pub summary: DailySummary,
}

impl DailyStats {
    /// Packages a day series with its summary.
    pub fn new(days: Vec<DayStats>) -> (r: DailyStats)
        requires
            days@.len() <= 100_000,
            day_records_bounded(days@),
        ensures
            r.days == days,
            r.summary.total_time_ms == spec_day_totals(days@).0,
            r.summary.days_studied == spec_day_totals(days@).1,
            r.summary.total_days == days@.len(),
            r.summary.total_matured_passages == spec_day_totals(days@).2,
            r.summary.total_lost_passages == spec_day_totals(days@).3,
            r.summary.net_progress == spec_day_totals(days@).2 - spec_day_totals(days@).3,
    {
        let summary = DailySummary::from_daily_stats(&days);
        DailyStats { days, summary }
    }
}

/// A weekly study series together with its whole-window summary.
pub struct WeeklyStats {
    pub weeks: Vec<WeekStats>,
    pub summary: WeeklySummary,
}

impl WeeklyStats {
    /// Packages a week series with its summary.
    pub fn new(weeks: Vec<WeekStats>) -> (r: WeeklyStats)
        requires
            weeks@.len() <= 100_000,
            week_records_bounded(weeks@),
        ensures
            r.weeks == weeks,
            r.summary.total_time_ms == spec_week_totals(weeks@).0,
            r.summary.weeks_studied == spec_week_totals(weeks@).1,
            r.summary.total_weeks == weeks@.len(),
            r.summary.total_matured_passages == spec_week_totals(weeks@).2,
            r.summary.total_lost_passages == spec_week_totals(weeks@).3,
            r.summary.net_progress == spec_week_totals(weeks@).2 - spec_week_totals(weeks@).3,
    {
        let summary = WeeklySummary::from_weekly_stats(&weeks);
        WeeklyStats { weeks, summary }
    }
}

/// A merged daily series together with its whole-window summary.
pub struct FaithDailyStats {
    pub days: Vec<FaithDayStats>,
    pub summary: FaithDailySummary,
}

/// Merges the three daily sources (checking alignment) and summarizes
/// the result; `None` exactly where the series are misaligned.
pub fn get_faith_daily_stats(
    anki: &Vec<DayStats>,
    reading: &Vec<MinutesRecord>,
    prayer: &Vec<MinutesRecord>,
) -> (r: Option<FaithDailyStats>)
    requires
        anki@.len() <= 100_000,
        day_records_bounded(anki@),
        minutes_records_bounded(reading@),
        minutes_records_bounded(prayer@),
    ensures
        r is Some <==> days_aligned(anki@, reading@, prayer@),
        r is Some ==> r->Some_0.days@.len() == anki@.len(),
        r is Some ==> forall|i: int|
            0 <= i < anki@.len() ==> #[trigger] r->Some_0.days@[i] == merged_day(
                anki@[i],
                reading@[i],
                prayer@[i],
            ),
        r is Some ==> {
            let t = spec_faith_day_totals(r->Some_0.days@);
            &&& r->Some_0.summary.anki_total_ms == t.0
            &&& r->Some_0.summary.reading_total_ms == t.1
            &&& r->Some_0.summary.prayer_total_ms == t.2
            &&& r->Some_0.summary.anki_days_studied == t.3
            &&& r->Some_0.summary.reading_days_studied == t.4
            &&& r->Some_0.summary.prayer_days_studied == t.5
            &&& r->Some_0.summary.days_with_any_activity == t.6
            &&& r->Some_0.summary.anki_total_matured_passages == t.7
            &&& r->Some_0.summary.anki_total_lost_passages == t.8
            &&& r->Some_0.summary.total_days == anki@.len()
        },
{
    match try_merge_daily(anki, reading, prayer) {
        Option::None => Option::None,
        Option::Some(days) => {
            proof {
                assert forall|i: int| 0 <= i < days@.len() implies {
                    let d = #[trigger] days@[i];
                    &&& -SUMMARY_VALUE_LIMIT <= d.anki_time_ms <= SUMMARY_VALUE_LIMIT
                    &&& -SUMMARY_VALUE_LIMIT <= d.reading_time_ms <= SUMMARY_VALUE_LIMIT
                    &&& -SUMMARY_VALUE_LIMIT <= d.prayer_time_ms <= SUMMARY_VALUE_LIMIT
                    &&& -SUMMARY_VALUE_LIMIT <= d.anki_matured_passages <= SUMMARY_VALUE_LIMIT
                    &&& -SUMMARY_VALUE_LIMIT <= d.anki_lost_passages <= SUMMARY_VALUE_LIMIT
                } by {
                    assert(days@[i] == merged_day(anki@[i], reading@[i], prayer@[i]));
                }
            }
            let summary = FaithDailySummary::from_faith_daily_stats(&days);
            Option::Some(FaithDailyStats { days, summary })
        },
    }
}

/// A merged weekly series together with its whole-window summary.
pub struct FaithWeeklyStats {
    pub weeks: Vec<FaithWeekStats>,
    pub summary: FaithWeeklySummary,
}

/// Merges the four weekly sources (checking alignment) and summarizes
/// the result; `None` exactly where the series are misaligned.
pub fn get_faith_weekly_stats(
    anki: &Vec<WeekStats>,
    reading: &Vec<MinutesRecord>,
    church: &Vec<MinutesRecord>,
    prayer: &Vec<MinutesRecord>,
) -> (r: Option<FaithWeeklyStats>)
    requires
        anki@.len() <= 100_000,
        week_records_bounded(anki@),
        minutes_records_bounded(reading@),
        minutes_records_bounded(church@),
        minutes_records_bounded(prayer@),
    ensures
        r is Some <==> weeks_aligned(anki@, reading@, church@, prayer@),
        r is Some ==> r->Some_0.weeks@.len() == anki@.len(),
        r is Some ==> forall|i: int|
            0 <= i < anki@.len() ==> #[trigger] r->Some_0.weeks@[i] == merged_week(
                anki@[i],
                reading@[i],
                church@[i],
                prayer@[i],
            ),
        r is Some ==> {
            let t = spec_faith_week_totals(r->Some_0.weeks@);
            &&& r->Some_0.summary.anki_total_ms == t.0
            &&& r->Some_0.summary.reading_total_ms == t.1
            &&& r->Some_0.summary.church_total_ms == t.2
            &&& r->Some_0.summary.prayer_total_ms == t.3
            &&& r->Some_0.summary.anki_weeks_studied == t.4
            &&& r->Some_0.summary.reading_weeks_studied == t.5
            &&& r->Some_0.summary.church_weeks_attended == t.6
            &&& r->Some_0.summary.prayer_weeks_studied == t.7
            &&& r->Some_0.summary.weeks_with_any_activity == t.8
            &&& r->Some_0.summary.anki_total_matured_passages == t.9
            &&& r->Some_0.summary.anki_total_lost_passages == t.10
            &&& r->Some_0.summary.total_weeks == anki@.len()
        },
{
    match try_merge_weekly(anki, reading, church, prayer) {
        Option::None => Option::None,
        Option::Some(weeks) => {
            proof {
                assert forall|i: int| 0 <= i < weeks@.len() implies {
                    let w = #[trigger] weeks@[i];
                    &&& -SUMMARY_VALUE_LIMIT <= w.anki_time_ms <= SUMMARY_VALUE_LIMIT
                    &&& -SUMMARY_VALUE_LIMIT <= w.reading_time_ms <= SUMMARY_VALUE_LIMIT
                    &&& -SUMMARY_VALUE_LIMIT <= w.at_church_time_ms <= SUMMARY_VALUE_LIMIT
                    &&& -SUMMARY_VALUE_LIMIT <= w.prayer_time_ms <= SUMMARY_VALUE_LIMIT
                    &&& -SUMMARY_VALUE_LIMIT <= w.anki_matured_passages <= SUMMARY_VALUE_LIMIT
                    &&& -SUMMARY_VALUE_LIMIT <= w.anki_lost_passages <= SUMMARY_VALUE_LIMIT
                } by {
                    assert(weeks@[i] == merged_week(anki@[i], reading@[i], church@[i], prayer@[i]));
                }
            }
            let summary = FaithWeeklySummary::from_faith_weekly_stats(&weeks);
            Option::Some(FaithWeeklyStats { weeks, summary })
        },
    }
}

} // verus!
