use faithstats::{generate_bucket_period, last_12_weeks, last_30_days, Date, WindowKind};

// 2025-01-15T12:00:00 America/Chicago (CST), a Wednesday.
const NOW_WED_NOON: i64 = 1736964000000;
// 2025-01-15T23:00:00 America/Chicago, the same bucket day.
const NOW_WED_NIGHT: i64 = 1737003600000;

#[test]
fn test_daily_period_keys() {
    let period = generate_bucket_period(WindowKind::Daily, 30, NOW_WED_NOON);
    let keys = period.key_strings();
    assert_eq!(keys.len(), 30);
    assert_eq!(keys[0], "2024-12-17");
    assert_eq!(keys[14], "2024-12-31");
    assert_eq!(keys[15], "2025-01-01");
    assert_eq!(keys[29], "2025-01-15");
    // strictly increasing, no duplicates
    for i in 1..keys.len() {
        assert!(keys[i - 1] < keys[i]);
    }
}

#[test]
fn test_daily_period_window_bounds() {
    let period = last_30_days(NOW_WED_NOON);
    // [2024-12-17 04:00 CST, 2025-01-16 04:00 CST)
    assert_eq!(period.start_ms, 1734429600000);
    assert_eq!(period.end_ms, 1737021600000);
    assert!(period.start_ms <= NOW_WED_NOON && NOW_WED_NOON < period.end_ms);
}

#[test]
fn test_weekly_period_keys() {
    let period = generate_bucket_period(WindowKind::Weekly, 12, NOW_WED_NOON);
    let keys = period.key_strings();
    assert_eq!(keys.len(), 12);
    let expected = [
        "2024-10-27",
        "2024-11-03",
        "2024-11-10",
        "2024-11-17",
        "2024-11-24",
        "2024-12-01",
        "2024-12-08",
        "2024-12-15",
        "2024-12-22",
        "2024-12-29",
        "2025-01-05",
        "2025-01-12",
    ];
    for i in 0..12 {
        assert_eq!(keys[i], expected[i]);
    }
}

#[test]
fn test_weekly_period_window_bounds() {
    let period = last_12_weeks(NOW_WED_NOON);
    // The window opens at 04:00 CDT (daylight time) and closes at 04:00 CST.
    assert_eq!(period.start_ms, 1730019600000);
    assert_eq!(period.end_ms, 1737280800000);
}

#[test]
fn test_period_idempotent_within_day() {
    let a = generate_bucket_period(WindowKind::Daily, 30, NOW_WED_NOON);
    let b = generate_bucket_period(WindowKind::Daily, 30, NOW_WED_NIGHT);
    assert_eq!(a.start_ms, b.start_ms);
    assert_eq!(a.end_ms, b.end_ms);
    assert_eq!(a.key_strings(), b.key_strings());
}

#[test]
fn test_requested_size_is_honored() {
    let period = generate_bucket_period(WindowKind::Daily, 5, NOW_WED_NOON);
    let keys = period.key_strings();
    assert_eq!(keys.len(), 5);
    assert_eq!(keys[0], "2025-01-11");
    assert_eq!(keys[4], "2025-01-15");
    let last = period.dates[4];
    assert_eq!(last, Date { year: 2025, month: 1, day: 15 });
}
