use faithstats::{
    merge_daily, try_merge_daily, try_merge_weekly, DayStats, Date, FaithTodayStats,
    MinutesRecord, WeekStats,
};

fn day(d: u32) -> Date {
    Date { year: 2025, month: 1, day: d }
}

fn anki_day(d: u32, time_ms: i64, matured: i64, lost: i64, cumulative: i64) -> DayStats {
    DayStats {
        date: day(d),
        time_ms,
        matured_passages: matured,
        lost_passages: lost,
        cumulative_passages: cumulative,
    }
}

fn minutes(d: u32, time_ms: i64) -> MinutesRecord {
    MinutesRecord { date: day(d), time_ms }
}

#[test]
fn test_merge_daily_positional_sums() {
    // Three aligned series of length 12 with matching keys.
    let mut anki = Vec::new();
    let mut reading = Vec::new();
    let mut prayer = Vec::new();
    for d in 1..=12u32 {
        anki.push(anki_day(d, (d as i64) * 60000, 1, 0, d as i64));
        reading.push(minutes(d, (d as i64) * 30000));
        prayer.push(minutes(d, (d as i64) * 10000));
    }
    let merged = merge_daily(&anki, &reading, &prayer);
    assert_eq!(merged.len(), 12);
    for i in 0..12 {
        let m = &merged[i];
        assert_eq!(m.date, day((i + 1) as u32));
        assert_eq!(m.anki_time_ms, anki[i].time_ms);
        assert_eq!(m.reading_time_ms, reading[i].time_ms);
        assert_eq!(m.prayer_time_ms, prayer[i].time_ms);
        assert_eq!(
            m.total_time_ms(),
            anki[i].time_ms + reading[i].time_ms + prayer[i].time_ms
        );
    }
}

#[test]
fn test_try_merge_daily_rejects_length_mismatch() {
    let anki = vec![anki_day(1, 0, 0, 0, 0), anki_day(2, 0, 0, 0, 0)];
    let reading = vec![minutes(1, 0)];
    let prayer = vec![minutes(1, 0), minutes(2, 0)];
    assert!(try_merge_daily(&anki, &reading, &prayer).is_none());
}

#[test]
fn test_try_merge_daily_rejects_key_mismatch() {
    let anki = vec![anki_day(1, 0, 0, 0, 0), anki_day(2, 0, 0, 0, 0)];
    let reading = vec![minutes(1, 0), minutes(3, 0)];
    let prayer = vec![minutes(1, 0), minutes(2, 0)];
    assert!(try_merge_daily(&anki, &reading, &prayer).is_none());
    let aligned = vec![minutes(1, 0), minutes(2, 0)];
    assert!(try_merge_daily(&anki, &aligned, &prayer).is_some());
}

#[test]
fn test_try_merge_weekly_composites() {
    let mut anki = Vec::new();
    let mut reading = Vec::new();
    let mut church = Vec::new();
    let mut prayer = Vec::new();
    for d in 1..=4u32 {
        anki.push(WeekStats {
            week_start: day(d),
            time_ms: 100 * d as i64,
            matured_passages: 2,
            lost_passages: 1,
            cumulative_passages: d as i64,
        });
        reading.push(minutes(d, 10 * d as i64));
        church.push(minutes(d, 20 * d as i64));
        prayer.push(minutes(d, 30 * d as i64));
    }
    let merged = try_merge_weekly(&anki, &reading, &church, &prayer).expect("aligned input");
    assert_eq!(merged.len(), 4);
    for i in 0..4 {
        let m = &merged[i];
        assert_eq!(m.week_start, day((i + 1) as u32));
        assert_eq!(m.at_church_time_ms, church[i].time_ms);
        assert_eq!(m.total_time_ms(), 160 * (i as i64 + 1));
        assert_eq!(m.anki_cumulative_passages, i as i64 + 1);
    }
}

#[test]
fn test_faith_today_stats_total() {
    let t = FaithTodayStats::new(600000, 300000, 100000);
    assert_eq!(t.total_time_ms, 1000000);
    assert_eq!(t.anki_time_ms, 600000);
    assert_eq!(t.reading_time_ms, 300000);
    assert_eq!(t.prayer_time_ms, 100000);
}
