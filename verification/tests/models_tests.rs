use faithstats::{get_bible_stats, AggregateStats, BookStats, ErrorResponse, HealthCheck};

fn book(name: &str, mature_p: i64, young_p: i64, mature_v: i64, young_v: i64) -> BookStats {
    BookStats {
        book: name.to_string(),
        mature_passages: mature_p,
        young_passages: young_p,
        learning_passages: 0,
        unseen_passages: 0,
        suspended_passages: 0,
        mature_verses: mature_v,
        young_verses: young_v,
        learning_verses: 0,
        unseen_verses: 0,
        suspended_verses: 0,
    }
}

#[test]
fn test_book_stats_totals() {
    let b = book("Genesis", 4, 2, 12, 5);
    assert_eq!(b.total_passages(), 6);
    assert_eq!(b.total_verses(), 17);
}

#[test]
fn test_aggregate_stats_add_book() {
    let mut agg = AggregateStats::new("Old Testament".to_string());
    assert_eq!(agg.total_passages(), 0);
    agg.add_book(book("Genesis", 4, 2, 12, 5));
    agg.add_book(book("Exodus", 1, 3, 2, 9));
    assert_eq!(agg.mature_passages, 5);
    assert_eq!(agg.young_passages, 5);
    assert_eq!(agg.mature_verses, 14);
    assert_eq!(agg.young_verses, 14);
    assert_eq!(agg.total_passages(), 10);
    assert_eq!(agg.total_verses(), 28);
    assert_eq!(agg.book_stats.len(), 2);
    assert_eq!(agg.label, "Old Testament");
}

#[test]
fn test_get_bible_stats_fills_missing_books() {
    let books = vec![book("Genesis", 4, 2, 12, 5), book("John", 7, 0, 20, 0)];
    let ot = vec!["Genesis".to_string(), "Exodus".to_string()];
    let nt = vec!["John".to_string(), "Acts".to_string()];
    let stats = get_bible_stats(&books, &ot, &nt);

    assert_eq!(stats.old_testament.label, "Old Testament");
    assert_eq!(stats.new_testament.label, "New Testament");
    assert_eq!(stats.old_testament.book_stats.len(), 2);
    assert_eq!(stats.new_testament.book_stats.len(), 2);

    // Books absent from the query appear zero-filled, in list order.
    assert_eq!(stats.old_testament.book_stats[0].book, "Genesis");
    assert_eq!(stats.old_testament.book_stats[1].book, "Exodus");
    assert_eq!(stats.old_testament.book_stats[1].total_passages(), 0);

    assert_eq!(stats.old_testament.mature_passages, 4);
    assert_eq!(stats.new_testament.mature_passages, 7);
    assert_eq!(stats.total_mature_passages(), 11);
    assert_eq!(stats.total_young_passages(), 2);
    assert_eq!(stats.total_passages(), 13);
    assert_eq!(stats.total_mature_verses(), 32);
    assert_eq!(stats.total_verses(), 37);
    assert_eq!(stats.total_learning_passages(), 0);
    assert_eq!(stats.total_unseen_passages(), 0);
    assert_eq!(stats.total_suspended_passages(), 0);
    assert_eq!(stats.total_learning_verses(), 0);
    assert_eq!(stats.total_unseen_verses(), 0);
    assert_eq!(stats.total_suspended_verses(), 0);
    assert_eq!(stats.total_young_verses(), 5);
}

#[test]
fn test_health_check_new() {
    let h = HealthCheck::new();
    assert_eq!(h.status, "ok");
    assert_eq!(h.service, "anki-bible-stats");
}

#[test]
fn test_error_response_new() {
    let e = ErrorResponse::new("database unavailable".to_string());
    assert_eq!(e.error, "database unavailable");
}
