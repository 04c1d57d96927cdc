use faithstats::{get_last_12_weeks_stats, VisitItem};

// 2025-01-15T12:00:00 America/Chicago.
const NOW: i64 = 1736964000000;

fn visit(place: Option<&str>, is_visit: bool, start: &str, end: &str) -> VisitItem {
    VisitItem {
        is_visit,
        place_name: place.map(|s| s.to_string()),
        start_date: start.to_string(),
        end_date: end.to_string(),
    }
}

#[test]
fn test_church_weeks_sum_and_zero_fill() {
    let items = vec![
        // Tuesday evening service, week of 2025-01-05: 90 minutes.
        visit(
            Some("Martin Luther Church"),
            true,
            "2025-01-07T19:00:00-06:00",
            "2025-01-07T20:30:00-06:00",
        ),
        // Sunday morning, same week: 120 minutes.
        visit(
            Some("Martin Luther Church"),
            true,
            "2025-01-05T09:00:00-06:00",
            "2025-01-05T11:00:00-06:00",
        ),
        // Week of 2024-12-08: 60 minutes.
        visit(
            Some("Martin Luther Church"),
            true,
            "2024-12-10T08:00:00-06:00",
            "2024-12-10T09:00:00-06:00",
        ),
        // Early Sunday 03:00 on 2025-01-12 rolls back before the week
        // boundary, so these 30 minutes land in the week of 2025-01-05.
        visit(
            Some("Martin Luther Church"),
            true,
            "2025-01-12T03:00:00-06:00",
            "2025-01-12T03:30:00-06:00",
        ),
        // A trip, not a visit: excluded.
        visit(
            Some("Martin Luther Church"),
            false,
            "2025-01-07T10:00:00-06:00",
            "2025-01-07T11:00:00-06:00",
        ),
        // A different place: excluded.
        visit(Some("Home"), true, "2025-01-07T12:00:00-06:00", "2025-01-07T13:00:00-06:00"),
        // No place resolved: excluded.
        visit(None, true, "2025-01-07T14:00:00-06:00", "2025-01-07T15:00:00-06:00"),
        // Malformed stamp: excluded, not fatal.
        visit(Some("Martin Luther Church"), true, "garbage", "2025-01-07T16:00:00-06:00"),
    ];

    let weeks = get_last_12_weeks_stats(&items, NOW);
    assert_eq!(weeks.len(), 12);

    // Weeks are the canonical 12-week window ending at the week of NOW.
    assert_eq!(weeks[0].date.key_string(), "2024-10-27");
    assert_eq!(weeks[11].date.key_string(), "2025-01-12");

    for w in &weeks {
        let key = w.date.key_string();
        let minutes = w.time_ms / 60000;
        if key == "2025-01-05" {
            assert_eq!(minutes, 90 + 120 + 30);
        } else if key == "2024-12-08" {
            assert_eq!(minutes, 60);
        } else {
            assert_eq!(w.time_ms, 0);
        }
    }
}
