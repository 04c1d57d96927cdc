use vstd::prelude::*;

use crate::date::Date;
use crate::dense::{DayStats, MinutesRecord, WeekStats};

verus! {

/// The bucket-aligned union of one day's records from every daily
/// source: flashcard study, reading and prayer.
pub struct FaithDayStats {
    pub date: Date,
    pub anki_time_ms: i64,
    pub anki_matured_passages: i64,
    pub anki_lost_passages: i64,
    pub anki_cumulative_passages: i64,
    pub reading_time_ms: i64,
    pub prayer_time_ms: i64,
}

impl FaithDayStats {
    /// Total time across all activities of this day.
    pub fn total_time_ms(&self) -> (r: i64)
        requires
            i64::MIN <= self.anki_time_ms + self.reading_time_ms <= i64::MAX,
            i64::MIN <= self.anki_time_ms + self.reading_time_ms + self.prayer_time_ms
                <= i64::MAX,
        ensures
            r == self.anki_time_ms + self.reading_time_ms + self.prayer_time_ms,
    {
        self.anki_time_ms + self.reading_time_ms + self.prayer_time_ms
    }
}

/// The bucket-aligned union of one week's records from every weekly
/// source: flashcard study, reading, church attendance and prayer.
pub struct FaithWeekStats {
    pub week_start: Date,
    pub anki_time_ms: i64,
    pub anki_matured_passages: i64,
    pub anki_lost_passages: i64,
    pub anki_cumulative_passages: i64,
    pub reading_time_ms: i64,
    pub at_church_time_ms: i64,
    pub prayer_time_ms: i64,
}

impl FaithWeekStats {
    /// Total time across all activities of this week.
    pub fn total_time_ms(&self) -> (r: i64)
        requires
            i64::MIN <= self.anki_time_ms + self.reading_time_ms <= i64::MAX,
            i64::MIN <= self.anki_time_ms + self.reading_time_ms + self.at_church_time_ms
                <= i64::MAX,
            i64::MIN <= self.anki_time_ms + self.reading_time_ms + self.at_church_time_ms
                + self.prayer_time_ms <= i64::MAX,
        ensures
            r == self.anki_time_ms + self.reading_time_ms + self.at_church_time_ms
                + self.prayer_time_ms,
    {
        self.anki_time_ms + self.reading_time_ms + self.at_church_time_ms + self.prayer_time_ms
    }
}

/// Today's combined totals across the three daily sources.
pub struct FaithTodayStats {
    pub anki_time_ms: i64,
    pub reading_time_ms: i64,
    pub prayer_time_ms: i64,
    pub total_time_ms: i64,
}

impl FaithTodayStats {
    pub fn new(anki_time_ms: i64, reading_time_ms: i64, prayer_time_ms: i64) -> (r:
        FaithTodayStats)
        requires
            i64::MIN <= anki_time_ms + reading_time_ms <= i64::MAX,
            i64::MIN <= anki_time_ms + reading_time_ms + prayer_time_ms <= i64::MAX,
        ensures
            r.anki_time_ms == anki_time_ms,
            r.reading_time_ms == reading_time_ms,
            r.prayer_time_ms == prayer_time_ms,
            r.total_time_ms == anki_time_ms + reading_time_ms + prayer_time_ms,
    {
        FaithTodayStats {
            anki_time_ms,
            reading_time_ms,
            prayer_time_ms,
            total_time_ms: anki_time_ms + reading_time_ms + prayer_time_ms,
        }
    }
}

/// The three daily series cover the same buckets in the same order.
pub open spec fn days_aligned(
    anki: Seq<DayStats>,
    reading: Seq<MinutesRecord>,
    prayer: Seq<MinutesRecord>,
) -> bool {
    &&& reading.len() == anki.len()
    &&& prayer.len() == anki.len()
    &&& (forall|i: int| 0 <= i < anki.len() ==> (#[trigger] reading[i]).date == anki[i].date)
    &&& (forall|i: int| 0 <= i < anki.len() ==> (#[trigger] prayer[i]).date == anki[i].date)
}

/// The composite record at one position of the daily merge.
pub open spec fn merged_day(a: DayStats, reading: MinutesRecord, prayer: MinutesRecord)
    -> FaithDayStats {
    FaithDayStats {
        date: a.date,
        anki_time_ms: a.time_ms,
        anki_matured_passages: a.matured_passages,
        anki_lost_passages: a.lost_passages,
        anki_cumulative_passages: a.cumulative_passages,
        reading_time_ms: reading.time_ms,
        prayer_time_ms: prayer.time_ms,
    }
}

/// Positionally zips the three daily series into composite records.
/// The caller must have built all three from the same period, so that
/// lengths and bucket order agree.
pub fn merge_daily(
    anki: &Vec<DayStats>,
    reading: &Vec<MinutesRecord>,
    prayer: &Vec<MinutesRecord>,
) -> (r: Vec<FaithDayStats>)
    requires
        days_aligned(anki@, reading@, prayer@),
    ensures
        r@.len() == anki@.len(),
        forall|i: int|
            0 <= i < r@.len() ==> #[trigger] r@[i] == merged_day(
                anki@[i],
                reading@[i],
                prayer@[i],
            ),
{
    let mut r: Vec<FaithDayStats> = Vec::new();
    let mut i: usize = 0;
    while i < anki.len()
        invariant
            i <= anki@.len(),
            days_aligned(anki@, reading@, prayer@),
            r@.len() == i,
            forall|k: int|
                0 <= k < i ==> #[trigger] r@[k] == merged_day(anki@[k], reading@[k], prayer@[k]),
        decreases anki@.len() - i,
    {
        let a = &anki[i];
        r.push(
            FaithDayStats {
                date: a.date,
                anki_time_ms: a.time_ms,
                anki_matured_passages: a.matured_passages,
                anki_lost_passages: a.lost_passages,
                anki_cumulative_passages: a.cumulative_passages,
                reading_time_ms: reading[i].time_ms,
                prayer_time_ms: prayer[i].time_ms,
            },
        );
        i = i + 1;
    }
    r
}

/// The checked daily merge: re-validates lengths and bucket keys and
/// refuses (with `None`) any misaligned input instead of zipping it.
pub fn try_merge_daily(
    anki: &Vec<DayStats>,
    reading: &Vec<MinutesRecord>,
    prayer: &Vec<MinutesRecord>,
) -> (r: Option<Vec<FaithDayStats>>)
    ensures
        r is Some <==> days_aligned(anki@, reading@, prayer@),
        r is Some ==> r->Some_0@.len() == anki@.len(),
        r is Some ==> forall|i: int|
            0 <= i < anki@.len() ==> #[trigger] r->Some_0@[i] == merged_day(
                anki@[i],
                reading@[i],
                prayer@[i],
            ),
{
    if reading.len() != anki.len() || prayer.len() != anki.len() {
        return None;
    }
    let mut i: usize = 0;
    while i < anki.len()
        invariant
            i <= anki@.len(),
            reading@.len() == anki@.len(),
            prayer@.len() == anki@.len(),
            forall|k: int| 0 <= k < i ==> (#[trigger] reading@[k]).date == anki@[k].date,
            forall|k: int| 0 <= k < i ==> (#[trigger] prayer@[k]).date == anki@[k].date,
        decreases anki@.len() - i,
    {
        if !(reading[i].date == anki[i].date) || !(prayer[i].date == anki[i].date) {
            return None;
        }
        i = i + 1;
    }
    Some(merge_daily(anki, reading, prayer))
}

/// The four weekly series cover the same weeks in the same order.
pub open spec fn weeks_aligned(
    anki: Seq<WeekStats>,
    reading: Seq<MinutesRecord>,
    church: Seq<MinutesRecord>,
    prayer: Seq<MinutesRecord>,
) -> bool {
    &&& reading.len() == anki.len()
    &&& church.len() == anki.len()
    &&& prayer.len() == anki.len()
    &&& (forall|i: int|
        0 <= i < anki.len() ==> (#[trigger] reading[i]).date == anki[i].week_start)
    &&& (forall|i: int| 0 <= i < anki.len() ==> (#[trigger] church[i]).date == anki[i].week_start)
    &&& (forall|i: int| 0 <= i < anki.len() ==> (#[trigger] prayer[i]).date == anki[i].week_start)
}

/// The composite record at one position of the weekly merge.
pub open spec fn merged_week(
    a: WeekStats,
    reading: MinutesRecord,
    church: MinutesRecord,
    prayer: MinutesRecord,
) -> FaithWeekStats {
    FaithWeekStats {
        week_start: a.week_start,
        anki_time_ms: a.time_ms,
        anki_matured_passages: a.matured_passages,
        anki_lost_passages: a.lost_passages,
        anki_cumulative_passages: a.cumulative_passages,
        reading_time_ms: reading.time_ms,
        at_church_time_ms: church.time_ms,
        prayer_time_ms: prayer.time_ms,
    }
}

/// Positionally zips the four weekly series into composite records.
pub fn merge_weekly(
    anki: &Vec<WeekStats>,
    reading: &Vec<MinutesRecord>,
    church: &Vec<MinutesRecord>,
    prayer: &Vec<MinutesRecord>,
) -> (r: Vec<FaithWeekStats>)
    requires
        weeks_aligned(anki@, reading@, church@, prayer@),
    ensures
        r@.len() == anki@.len(),
        forall|i: int|
            0 <= i < r@.len() ==> #[trigger] r@[i] == merged_week(
                anki@[i],
                reading@[i],
                church@[i],
                prayer@[i],
            ),
{
    let mut r: Vec<FaithWeekStats> = Vec::new();
    let mut i: usize = 0;
    while i < anki.len()
        invariant
            i <= anki@.len(),
            weeks_aligned(anki@, reading@, church@, prayer@),
            r@.len() == i,
            forall|k: int|
                0 <= k < i ==> #[trigger] r@[k] == merged_week(
                    anki@[k],
                    reading@[k],
                    church@[k],
                    prayer@[k],
                ),
        decreases anki@.len() - i,
    {
        let a = &anki[i];
        r.push(
            FaithWeekStats {
                week_start: a.week_start,
                anki_time_ms: a.time_ms,
                anki_matured_passages: a.matured_passages,
                anki_lost_passages: a.lost_passages,
                anki_cumulative_passages: a.cumulative_passages,
                reading_time_ms: reading[i].time_ms,
                at_church_time_ms: church[i].time_ms,
                prayer_time_ms: prayer[i].time_ms,
            },
        );
        i = i + 1;
    }
    r
}

/// The checked weekly merge: re-validates lengths and bucket keys and
/// refuses (with `None`) any misaligned input instead of zipping it.
pub fn try_merge_weekly(
    anki: &Vec<WeekStats>,
    reading: &Vec<MinutesRecord>,
    church: &Vec<MinutesRecord>,
    prayer: &Vec<MinutesRecord>,
) -> (r: Option<Vec<FaithWeekStats>>)
    ensures
        r is Some <==> weeks_aligned(anki@, reading@, church@, prayer@),
        r is Some ==> r->Some_0@.len() == anki@.len(),
        r is Some ==> forall|i: int|
            0 <= i < anki@.len() ==> #[trigger] r->Some_0@[i] == merged_week(
                anki@[i],
                reading@[i],
                church@[i],
                prayer@[i],
            ),
{
    if reading.len() != anki.len() || church.len() != anki.len() || prayer.len() != anki.len() {
        return None;
    }
    let mut i: usize = 0;
    while i < anki.len()
        invariant
            i <= anki@.len(),
            reading@.len() == anki@.len(),
            church@.len() == anki@.len(),
            prayer@.len() == anki@.len(),
            forall|k: int| 0 <= k < i ==> (#[trigger] reading@[k]).date == anki@[k].week_start,
            forall|k: int| 0 <= k < i ==> (#[trigger] church@[k]).date == anki@[k].week_start,
            forall|k: int| 0 <= k < i ==> (#[trigger] prayer@[k]).date == anki@[k].week_start,
        decreases anki@.len() - i,
    {
        if !(reading[i].date == anki[i].week_start) || !(church[i].date == anki[i].week_start)
            || !(prayer[i].date == anki[i].week_start) {
            return None;
        }
        i = i + 1;
    }
    Some(merge_weekly(anki, reading, church, prayer))
}

} // verus!
