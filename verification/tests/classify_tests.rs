use faithstats::{aggregate_book_stats, classify, CardState, Category, PassageRow};

fn card(queue: i64, interval: i64) -> CardState {
    CardState { queue, interval }
}

#[test]
fn test_classify_suspended_dominates() {
    // (suspended, new) -> suspended; (new, new) -> unseen.
    assert_eq!(classify(card(-1, 0), card(0, 0)), Category::Suspended);
    assert_eq!(classify(card(0, 0), card(0, 0)), Category::Unseen);
    // A suspended sub-unit wins even over mature intervals.
    assert_eq!(classify(card(-1, 100), card(2, 100)), Category::Suspended);
    assert_eq!(classify(card(2, 100), card(-1, 100)), Category::Suspended);
}

#[test]
fn test_classify_thresholds() {
    assert_eq!(classify(card(2, 21), card(2, 21)), Category::Mature);
    assert_eq!(classify(card(2, 21), card(2, 20)), Category::Young);
    assert_eq!(classify(card(2, 7), card(2, 7)), Category::Young);
    assert_eq!(classify(card(2, 7), card(2, 6)), Category::Learning);
    assert_eq!(classify(card(2, 0), card(2, 100)), Category::Learning);
    // One new sub-unit alone is not "unseen".
    assert_eq!(classify(card(0, 0), card(2, 30)), Category::Learning);
}

fn reference_classify(a: CardState, b: CardState) -> Category {
    if a.queue == -1 || b.queue == -1 {
        Category::Suspended
    } else if a.queue == 0 && b.queue == 0 {
        Category::Unseen
    } else if a.interval >= 21 && b.interval >= 21 {
        Category::Mature
    } else if a.interval >= 7 && b.interval >= 7 {
        Category::Young
    } else {
        Category::Learning
    }
}

#[test]
fn test_classify_exhaustive_on_generated_pairs() {
    // 100 pseudo-random (queue, interval) pairs: the classifier always
    // returns exactly the category of the first matching rule.
    let mut state: u64 = 0x2545F4914F6CDD1D;
    let mut next = || {
        state = state.wrapping_mul(6364136223846793005).wrapping_add(1442695040888963407);
        state
    };
    for _ in 0..100 {
        let a = card((next() % 6) as i64 - 1, (next() % 40) as i64);
        let b = card((next() % 6) as i64 - 1, (next() % 40) as i64);
        let got = classify(a, b);
        assert_eq!(got, reference_classify(a, b));
        let all = [
            Category::Suspended,
            Category::Unseen,
            Category::Mature,
            Category::Young,
            Category::Learning,
        ];
        let matching = all.iter().filter(|c| **c == got).count();
        assert_eq!(matching, 1);
    }
}

fn row(book: Option<&str>, verses: i64, a: CardState, b: CardState) -> PassageRow {
    PassageRow { book: book.map(|s| s.to_string()), verses, first: a, second: b }
}

#[test]
fn test_aggregate_book_stats_groups_and_counts() {
    let rows = vec![
        row(Some("Genesis"), 5, card(2, 30), card(2, 25)),
        row(Some("Genesis"), 3, card(2, 30), card(2, 25)),
        row(Some("Genesis"), 2, card(2, 10), card(2, 8)),
        row(Some("John"), 4, card(0, 0), card(0, 0)),
        row(Some("John"), 6, card(-1, 50), card(2, 50)),
        // No grouping key: excluded from aggregation.
        row(None, 9, card(2, 30), card(2, 30)),
    ];
    let books = aggregate_book_stats(&rows);
    assert_eq!(books.len(), 2);

    let genesis = books.iter().find(|b| b.book == "Genesis").expect("Genesis missing");
    assert_eq!(genesis.mature_passages, 2);
    assert_eq!(genesis.mature_verses, 8);
    assert_eq!(genesis.young_passages, 1);
    assert_eq!(genesis.young_verses, 2);
    assert_eq!(genesis.total_passages(), 3);
    assert_eq!(genesis.total_verses(), 10);

    let john = books.iter().find(|b| b.book == "John").expect("John missing");
    assert_eq!(john.unseen_passages, 1);
    assert_eq!(john.unseen_verses, 4);
    assert_eq!(john.suspended_passages, 1);
    assert_eq!(john.suspended_verses, 6);
    assert_eq!(john.mature_passages, 0);
}
