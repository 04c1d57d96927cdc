use faithstats::{bucket_date, day_key, parse_iso8601_timestamp, week_start_date, week_start_key, Date};

#[test]
fn test_day_key_rollover() {
    // 2025-01-15 03:59 local is still bucketed with the previous day;
    // one minute later the new day begins.
    assert_eq!(day_key(1736935140000), "2025-01-14");
    assert_eq!(day_key(1736935200000), "2025-01-15");
    assert_eq!(bucket_date(1736935140000), Date { year: 2025, month: 1, day: 14 });
}

#[test]
fn test_week_start_key_monday_early_morning() {
    // Monday 2025-01-06 03:30 local rolls back to Sunday 2025-01-05 and
    // lands in the same week bucket as the preceding Sunday's events.
    assert_eq!(week_start_key(1736155800000), "2025-01-05");
    // Sunday 2025-01-05 10:00 local.
    assert_eq!(week_start_key(1736092800000), "2025-01-05");
}

#[test]
fn test_week_start_key_rollover_boundary() {
    // Sunday 2025-01-05 03:30 local is before the rollover hour: it still
    // belongs to the week starting 2024-12-29.  An hour later the new
    // week has begun.
    assert_eq!(week_start_key(1736069400000), "2024-12-29");
    assert_eq!(week_start_key(1736073000000), "2025-01-05");
}

#[test]
fn test_week_start_key_saturday_midnight_offsets() {
    // Three hours after Saturday 2025-01-04 midnight (03:00, pre-rollover)
    // and twenty-seven hours after it (Sunday 03:00, also pre-rollover)
    // the rollover boundary has not been crossed into the new week, so
    // both instants share the old week's key.
    assert_eq!(week_start_key(1735981200000), "2024-12-29");
    assert_eq!(week_start_key(1736067600000), "2024-12-29");
}

#[test]
fn test_week_start_date_is_sunday() {
    let ws = week_start_date(1736964000000);
    assert_eq!(ws, Date { year: 2025, month: 1, day: 12 });
    assert_eq!(ws.weekday(), 0);
    // Taking the week start twice changes nothing.
    assert_eq!(ws.key_string(), "2025-01-12");
}

#[test]
fn test_iso8601_timestamp_parsing() {
    let ms = parse_iso8601_timestamp("2025-12-20T22:20:04Z").expect("Failed to parse");
    assert_eq!(ms, 1766269204000);
    let with_offset = parse_iso8601_timestamp("2025-12-20T16:20:04-06:00").expect("Failed to parse");
    assert_eq!(with_offset, 1766269204000);
    assert!(parse_iso8601_timestamp("not a timestamp").is_none());
    assert!(parse_iso8601_timestamp("2025-13-40T99:00:00Z").is_none());
}
