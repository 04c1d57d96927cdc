use faithstats::{get_top_places_last_6_months, place_totals, VisitItem};

// 2025-01-15T12:00:00 America/Chicago.
const NOW: i64 = 1736964000000;

fn visit(place: &str, start: &str, end: &str) -> VisitItem {
    VisitItem {
        is_visit: true,
        place_name: Some(place.to_string()),
        start_date: start.to_string(),
        end_date: end.to_string(),
    }
}

fn sample_items() -> Vec<VisitItem> {
    vec![
        visit("Library", "2025-01-02T10:00:00-06:00", "2025-01-02T11:00:00-06:00"),
        visit("Library", "2025-01-09T10:00:00-06:00", "2025-01-09T10:30:00-06:00"),
        visit("Cafe", "2025-01-03T08:00:00-06:00", "2025-01-03T10:00:00-06:00"),
        // Home is excluded from the ranking.
        visit("Home", "2025-01-04T00:00:00-06:00", "2025-01-04T08:20:00-06:00"),
        visit("Gym", "2025-01-05T17:00:00-06:00", "2025-01-05T17:45:00-06:00"),
        // Before the six-month cutoff: excluded.
        visit("Library", "2024-06-01T10:00:00-05:00", "2024-06-01T12:00:00-05:00"),
    ]
}

#[test]
fn test_place_totals_accumulate_and_filter() {
    let cutoff = NOW - 15_724_800_000;
    let totals = place_totals(&sample_items(), cutoff);
    assert_eq!(totals.len(), 3);
    let library = totals.iter().find(|p| p.place_name == "Library").unwrap();
    assert_eq!(library.time_ms, 90 * 60000);
    let cafe = totals.iter().find(|p| p.place_name == "Cafe").unwrap();
    assert_eq!(cafe.time_ms, 120 * 60000);
    let gym = totals.iter().find(|p| p.place_name == "Gym").unwrap();
    assert_eq!(gym.time_ms, 45 * 60000);
    assert!(totals.iter().all(|p| p.place_name != "Home"));
}

#[test]
fn test_top_places_sorted_and_truncated() {
    let items = sample_items();
    let top2 = get_top_places_last_6_months(&items, NOW, 2);
    assert_eq!(top2.len(), 2);
    assert_eq!(top2[0].place_name, "Cafe");
    assert_eq!(top2[0].time_ms, 120 * 60000);
    assert_eq!(top2[1].place_name, "Library");
    assert_eq!(top2[1].time_ms, 90 * 60000);

    let all = get_top_places_last_6_months(&items, NOW, 10);
    assert_eq!(all.len(), 3);
    assert_eq!(all[2].place_name, "Gym");
    for i in 1..all.len() {
        assert!(all[i - 1].time_ms >= all[i].time_ms);
    }
}
