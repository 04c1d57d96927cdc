use faithstats::{
    get_faith_daily_stats, get_faith_weekly_stats, DailyStats, DailySummary, Date, DayStats,
    FaithDailySummary, FaithDayStats, FaithWeeklySummary, FaithWeekStats, MinutesRecord,
    WeeklySummary, WeekStats,
};

fn day(d: u32) -> Date {
    Date { year: 2025, month: 1, day: d }
}

#[test]
fn test_daily_summary_totals() {
    let days = vec![
        DayStats {
            date: day(1),
            time_ms: 600000,
            matured_passages: 2,
            lost_passages: 0,
            cumulative_passages: 2,
        },
        DayStats {
            date: day(2),
            time_ms: 0,
            matured_passages: 0,
            lost_passages: 1,
            cumulative_passages: 1,
        },
        DayStats {
            date: day(3),
            time_ms: 300000,
            matured_passages: 1,
            lost_passages: 0,
            cumulative_passages: 2,
        },
    ];
    let s = DailySummary::from_daily_stats(&days);
    assert_eq!(s.total_time_ms, 900000);
    assert_eq!(s.days_studied, 2);
    assert_eq!(s.total_days, 3);
    assert_eq!(s.total_matured_passages, 3);
    assert_eq!(s.total_lost_passages, 1);
    assert_eq!(s.net_progress, 2);
}

#[test]
fn test_daily_stats_packages_summary() {
    let days = vec![
        DayStats {
            date: day(1),
            time_ms: 120000,
            matured_passages: 1,
            lost_passages: 0,
            cumulative_passages: 1,
        },
    ];
    let stats = DailyStats::new(days);
    assert_eq!(stats.days.len(), 1);
    assert_eq!(stats.summary.total_time_ms, 120000);
    assert_eq!(stats.summary.days_studied, 1);
}

#[test]
fn test_get_faith_daily_stats_merges_and_summarizes() {
    let anki = vec![
        DayStats {
            date: day(1),
            time_ms: 600000,
            matured_passages: 1,
            lost_passages: 0,
            cumulative_passages: 1,
        },
        DayStats {
            date: day(2),
            time_ms: 0,
            matured_passages: 0,
            lost_passages: 0,
            cumulative_passages: 1,
        },
    ];
    let reading = vec![
        MinutesRecord { date: day(1), time_ms: 0 },
        MinutesRecord { date: day(2), time_ms: 300000 },
    ];
    let prayer = vec![
        MinutesRecord { date: day(1), time_ms: 60000 },
        MinutesRecord { date: day(2), time_ms: 0 },
    ];
    let stats = get_faith_daily_stats(&anki, &reading, &prayer).expect("aligned input");
    assert_eq!(stats.days.len(), 2);
    assert_eq!(stats.days[0].anki_time_ms, 600000);
    assert_eq!(stats.days[1].reading_time_ms, 300000);
    assert_eq!(stats.summary.anki_total_ms, 600000);
    assert_eq!(stats.summary.reading_total_ms, 300000);
    assert_eq!(stats.summary.prayer_total_ms, 60000);
    assert_eq!(stats.summary.total_ms, 960000);
    assert_eq!(stats.summary.days_with_any_activity, 2);

    // Misaligned keys are refused rather than zipped.
    let skewed = vec![
        MinutesRecord { date: day(1), time_ms: 0 },
        MinutesRecord { date: day(3), time_ms: 300000 },
    ];
    assert!(get_faith_daily_stats(&anki, &skewed, &prayer).is_none());
}

#[test]
fn test_get_faith_weekly_stats_merges_and_summarizes() {
    let anki = vec![
        WeekStats {
            week_start: day(5),
            time_ms: 600000,
            matured_passages: 2,
            lost_passages: 0,
            cumulative_passages: 2,
        },
    ];
    let reading = vec![MinutesRecord { date: day(5), time_ms: 120000 }];
    let church = vec![MinutesRecord { date: day(5), time_ms: 5400000 }];
    let prayer = vec![MinutesRecord { date: day(5), time_ms: 0 }];
    let stats =
        get_faith_weekly_stats(&anki, &reading, &church, &prayer).expect("aligned input");
    assert_eq!(stats.weeks.len(), 1);
    assert_eq!(stats.weeks[0].at_church_time_ms, 5400000);
    assert_eq!(stats.summary.church_total_ms, 5400000);
    assert_eq!(stats.summary.total_ms, 6120000);
    assert_eq!(stats.summary.weeks_with_any_activity, 1);

    let short: Vec<MinutesRecord> = Vec::new();
    assert!(get_faith_weekly_stats(&anki, &short, &church, &prayer).is_none());
}

#[test]
fn test_weekly_summary_totals() {
    let weeks = vec![
        WeekStats {
            week_start: day(5),
            time_ms: 1200000,
            matured_passages: 5,
            lost_passages: 2,
            cumulative_passages: 3,
        },
        WeekStats {
            week_start: day(12),
            time_ms: 0,
            matured_passages: 0,
            lost_passages: 0,
            cumulative_passages: 3,
        },
    ];
    let s = WeeklySummary::from_weekly_stats(&weeks);
    assert_eq!(s.total_time_ms, 1200000);
    assert_eq!(s.weeks_studied, 1);
    assert_eq!(s.total_weeks, 2);
    assert_eq!(s.net_progress, 3);
}

#[test]
fn test_faith_daily_summary_totals() {
    let days = vec![
        FaithDayStats {
            date: day(1),
            anki_time_ms: 600000,
            anki_matured_passages: 1,
            anki_lost_passages: 0,
            anki_cumulative_passages: 1,
            reading_time_ms: 0,
            prayer_time_ms: 120000,
        },
        FaithDayStats {
            date: day(2),
            anki_time_ms: 0,
            anki_matured_passages: 0,
            anki_lost_passages: 0,
            anki_cumulative_passages: 1,
            reading_time_ms: 0,
            prayer_time_ms: 0,
        },
        FaithDayStats {
            date: day(3),
            anki_time_ms: 0,
            anki_matured_passages: 0,
            anki_lost_passages: 2,
            anki_cumulative_passages: -1,
            reading_time_ms: 900000,
            prayer_time_ms: 0,
        },
    ];
    let s = FaithDailySummary::from_faith_daily_stats(&days);
    assert_eq!(s.anki_total_ms, 600000);
    assert_eq!(s.reading_total_ms, 900000);
    assert_eq!(s.prayer_total_ms, 120000);
    assert_eq!(s.total_ms, 1620000);
    assert_eq!(s.anki_days_studied, 1);
    assert_eq!(s.reading_days_studied, 1);
    assert_eq!(s.prayer_days_studied, 1);
    assert_eq!(s.days_with_any_activity, 2);
    assert_eq!(s.total_days, 3);
    assert_eq!(s.anki_net_progress, -1);
}

#[test]
fn test_faith_weekly_summary_totals() {
    let weeks = vec![
        FaithWeekStats {
            week_start: day(5),
            anki_time_ms: 600000,
            anki_matured_passages: 4,
            anki_lost_passages: 1,
            anki_cumulative_passages: 3,
            reading_time_ms: 300000,
            at_church_time_ms: 7200000,
            prayer_time_ms: 0,
        },
        FaithWeekStats {
            week_start: day(12),
            anki_time_ms: 0,
            anki_matured_passages: 0,
            anki_lost_passages: 0,
            anki_cumulative_passages: 3,
            reading_time_ms: 0,
            at_church_time_ms: 0,
            prayer_time_ms: 0,
        },
    ];
    let s = FaithWeeklySummary::from_faith_weekly_stats(&weeks);
    assert_eq!(s.anki_total_ms, 600000);
    assert_eq!(s.church_total_ms, 7200000);
    assert_eq!(s.total_ms, 8100000);
    assert_eq!(s.anki_weeks_studied, 1);
    assert_eq!(s.church_weeks_attended, 1);
    assert_eq!(s.prayer_weeks_studied, 0);
    assert_eq!(s.weeks_with_any_activity, 1);
    assert_eq!(s.total_weeks, 2);
    assert_eq!(s.anki_total_matured_passages, 4);
    assert_eq!(s.anki_net_progress, 3);
}
