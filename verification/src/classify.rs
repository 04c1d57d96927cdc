use vstd::prelude::*;

use crate::models::{BookStats, counts_within, zero_counts};

verus! {

/// Scheduler queue value marking a suspended card.
pub const QUEUE_TYPE_SUSPENDED: i64 = -1;

/// Scheduler queue value marking a never-studied card.
pub const QUEUE_TYPE_NEW: i64 = 0;

/// A review interval of at least this many days counts as mature.
pub const MATURE_INTERVAL_DAYS: i64 = 21;

/// A review interval of at least this many days (but below the mature
/// threshold) counts as young.
pub const YOUNG_INTERVAL_DAYS: i64 = 7;

/// The five mutually exclusive progress categories of a tracked unit,
/// in decreasing precedence.
#[derive(Clone, Copy, Debug, PartialEq, Eq, Structural)]
pub enum Category {
    Suspended,
    Unseen,
    Mature,
    Young,
    Learning,
}

/// One sub-unit's progress descriptor: its scheduler queue status and
/// its current review interval in days.
#[derive(Clone, Copy, Debug, PartialEq, Eq, Structural)]
pub struct CardState {
    pub queue: i64,
    pub interval: i64,
}

/// Precedence rule 1: either sub-unit is suspended.
pub open spec fn is_suspended_pair(a: CardState, b: CardState) -> bool {
    a.queue == QUEUE_TYPE_SUSPENDED || b.queue == QUEUE_TYPE_SUSPENDED
}

/// Precedence rule 2: neither sub-unit suspended, both never studied.
pub open spec fn is_unseen_pair(a: CardState, b: CardState) -> bool {
    !is_suspended_pair(a, b) && a.queue == QUEUE_TYPE_NEW && b.queue == QUEUE_TYPE_NEW
}

/// Precedence rule 3: no earlier rule applies and both intervals have
/// reached the mature threshold.
pub open spec fn is_mature_pair(a: CardState, b: CardState) -> bool {
    !is_suspended_pair(a, b) && !is_unseen_pair(a, b) && a.interval >= MATURE_INTERVAL_DAYS
        && b.interval >= MATURE_INTERVAL_DAYS
}

/// Precedence rule 4: no earlier rule applies and both intervals have
/// reached the young threshold.
pub open spec fn is_young_pair(a: CardState, b: CardState) -> bool {
    !is_suspended_pair(a, b) && !is_unseen_pair(a, b) && !is_mature_pair(a, b)
        && a.interval >= YOUNG_INTERVAL_DAYS && b.interval >= YOUNG_INTERVAL_DAYS
}

/// Precedence rule 5: everything else is still learning.
pub open spec fn is_learning_pair(a: CardState, b: CardState) -> bool {
    !is_suspended_pair(a, b) && !is_unseen_pair(a, b) && !is_mature_pair(a, b) && !is_young_pair(
        a,
        b,
    )
}

/// The category of a paired progress descriptor, first matching rule
/// wins.
pub open spec fn spec_classify(a: CardState, b: CardState) -> Category {
    if is_suspended_pair(a, b) {
        Category::Suspended
    } else if is_unseen_pair(a, b) {
        Category::Unseen
    } else if is_mature_pair(a, b) {
        Category::Mature
    } else if is_young_pair(a, b) {
        Category::Young
    } else {
        Category::Learning
    }
}

/// Maps a pair of per-sub-unit progress descriptors to its category.
/// A suspended sub-unit dominates every other signal; "unseen" asks
/// that both sub-units be new; the interval thresholds ask both
/// sub-units to have crossed them.
pub fn classify(first: CardState, second: CardState) -> (r: Category)
    ensures
        r == spec_classify(first, second),
        is_suspended_pair(first, second) ==> r == Category::Suspended,
{
    if first.queue == QUEUE_TYPE_SUSPENDED || second.queue == QUEUE_TYPE_SUSPENDED {
        Category::Suspended
    } else if first.queue == QUEUE_TYPE_NEW && second.queue == QUEUE_TYPE_NEW {
        Category::Unseen
    } else if first.interval >= MATURE_INTERVAL_DAYS && second.interval >= MATURE_INTERVAL_DAYS {
        Category::Mature
    } else if first.interval >= YOUNG_INTERVAL_DAYS && second.interval >= YOUNG_INTERVAL_DAYS {
        Category::Young
    } else {
        Category::Learning
    }
}

/// Law: the five category rules are exhaustive and mutually exclusive —
/// every pair of descriptors satisfies exactly one rule — and the
/// classifier returns exactly the category of the rule that holds.
pub proof fn lemma_classify_exhaustive_exclusive(a: CardState, b: CardState)
    ensures
        is_suspended_pair(a, b) || is_unseen_pair(a, b) || is_mature_pair(a, b) || is_young_pair(
            a,
            b,
        ) || is_learning_pair(a, b),
        !(is_suspended_pair(a, b) && is_unseen_pair(a, b)),
        !(is_suspended_pair(a, b) && is_mature_pair(a, b)),
        !(is_suspended_pair(a, b) && is_young_pair(a, b)),
        !(is_suspended_pair(a, b) && is_learning_pair(a, b)),
        !(is_unseen_pair(a, b) && is_mature_pair(a, b)),
        !(is_unseen_pair(a, b) && is_young_pair(a, b)),
        !(is_unseen_pair(a, b) && is_learning_pair(a, b)),
        !(is_mature_pair(a, b) && is_young_pair(a, b)),
        !(is_mature_pair(a, b) && is_learning_pair(a, b)),
        !(is_young_pair(a, b) && is_learning_pair(a, b)),
        is_suspended_pair(a, b) <==> spec_classify(a, b) == Category::Suspended,
        is_unseen_pair(a, b) <==> spec_classify(a, b) == Category::Unseen,
        is_mature_pair(a, b) <==> spec_classify(a, b) == Category::Mature,
        is_young_pair(a, b) <==> spec_classify(a, b) == Category::Young,
        is_learning_pair(a, b) <==> spec_classify(a, b) == Category::Learning,
{
}

/// Whether a review that moved the interval from `last_interval` to
/// `interval` matured the passage (crossed the threshold upward) or
/// lost it (crossed the threshold downward).
pub fn progress_event(last_interval: i64, interval: i64) -> (r: (bool, bool))
    ensures
        r.0 == (last_interval < MATURE_INTERVAL_DAYS && interval >= MATURE_INTERVAL_DAYS),
        r.1 == (last_interval >= MATURE_INTERVAL_DAYS && interval < MATURE_INTERVAL_DAYS),
{
    (
        last_interval < MATURE_INTERVAL_DAYS && interval >= MATURE_INTERVAL_DAYS,
        last_interval >= MATURE_INTERVAL_DAYS && interval < MATURE_INTERVAL_DAYS,
    )
}

/// One tracked unit before aggregation: the grouping key its reference
/// string yielded (absent where the text predicate found no group), the
/// sub-unit weight (verse count) of the reference, and the two
/// sub-units' progress descriptors.
pub struct PassageRow {
    pub book: Option<String>,
    pub verses: i64,
    pub first: CardState,
    pub second: CardState,
}

/// Whether the row's text predicate yielded a grouping key.
pub open spec fn row_has_group(r: PassageRow) -> bool {
    match r.book {
        Option::Some(_) => true,
        Option::None => false,
    }
}

/// The row's grouping key (meaningful only where `row_has_group`).
pub open spec fn row_group(r: PassageRow) -> Seq<char> {
    match r.book {
        Option::Some(s) => s@,
        Option::None => Seq::empty(),
    }
}

/// Componentwise sum of two ten-counter values.
pub open spec fn add_counts(
    a: (int, int, int, int, int, int, int, int, int, int),
    b: (int, int, int, int, int, int, int, int, int, int),
) -> (int, int, int, int, int, int, int, int, int, int) {
    (
        a.0 + b.0,
        a.1 + b.1,
        a.2 + b.2,
        a.3 + b.3,
        a.4 + b.4,
        a.5 + b.5,
        a.6 + b.6,
        a.7 + b.7,
        a.8 + b.8,
        a.9 + b.9,
    )
}

/// What one unit of category `cat` with `v` verses contributes to the
/// counters: one passage and `v` verses in that category's slots.
pub open spec fn cat_contrib(cat: Category, v: int) -> (
    int,
    int,
    int,
    int,
    int,
    int,
    int,
    int,
    int,
    int,
) {
    match cat {
        Category::Mature => (1, 0, 0, 0, 0, v, 0, 0, 0, 0),
        Category::Young => (0, 1, 0, 0, 0, 0, v, 0, 0, 0),
        Category::Learning => (0, 0, 1, 0, 0, 0, 0, v, 0, 0),
        Category::Unseen => (0, 0, 0, 1, 0, 0, 0, 0, v, 0),
        Category::Suspended => (0, 0, 0, 0, 1, 0, 0, 0, 0, v),
    }
}

/// What one row contributes to the counters of the book named `book`.
pub open spec fn row_contrib(r: PassageRow, book: Seq<char>) -> (
    int,
    int,
    int,
    int,
    int,
    int,
    int,
    int,
    int,
    int,
) {
    if row_has_group(r) && row_group(r) == book {
        cat_contrib(spec_classify(r.first, r.second), r.verses as int)
    } else {
        zero_counts()
    }
}

/// The counters the book named `book` accumulates over a row list: the
/// sum of every row's contribution.
pub open spec fn spec_book_tally(rows: Seq<PassageRow>, book: Seq<char>) -> (
    int,
    int,
    int,
    int,
    int,
    int,
    int,
    int,
    int,
    int,
)
    decreases rows.len(),
{
    if rows.len() == 0 {
        zero_counts()
    } else {
        add_counts(spec_book_tally(rows.drop_last(), book), row_contrib(rows.last(), book))
    }
}

/// Every row's verse weight lies in `[0, 1000]`.
pub open spec fn rows_bounded(rows: Seq<PassageRow>) -> bool {
    forall|j: int| 0 <= j < rows.len() ==> 0 <= (#[trigger] rows[j]).verses <= 1000
}

pub proof fn lemma_tally_absent(rows: Seq<PassageRow>, book: Seq<char>)
    requires
        forall|j: int|
            0 <= j < rows.len() ==> !(row_has_group(#[trigger] rows[j]) && row_group(rows[j])
                == book),
    ensures
        spec_book_tally(rows, book) == zero_counts(),
    decreases rows.len(),
{
    if rows.len() > 0 {
        lemma_tally_absent(rows.drop_last(), book);
    }
}

/// A zero-counter record for the book named `name`.
fn zero_book(name: &String) -> (r: BookStats)
    ensures
        r.book@ == name@,
        r.counts() == zero_counts(),
{
    BookStats {
        book: name.clone(),
        mature_passages: 0,
        young_passages: 0,
        learning_passages: 0,
        unseen_passages: 0,
        suspended_passages: 0,
        mature_verses: 0,
        young_verses: 0,
        learning_verses: 0,
        unseen_verses: 0,
        suspended_verses: 0,
    }
}

/// `b` with one more passage of category `cat` and its `verses` folded
/// in.
fn bump(b: &BookStats, cat: Category, verses: i64) -> (r: BookStats)
    requires
        counts_within(b.counts(), 2_000_000_000_000),
        0 <= verses <= 1000,
    ensures
        r.book == b.book,
        r.counts() == add_counts(b.counts(), cat_contrib(cat, verses as int)),
{
    let mut r = BookStats {
        book: b.book.clone(),
        mature_passages: b.mature_passages,
        young_passages: b.young_passages,
        learning_passages: b.learning_passages,
        unseen_passages: b.unseen_passages,
        suspended_passages: b.suspended_passages,
        mature_verses: b.mature_verses,
        young_verses: b.young_verses,
        learning_verses: b.learning_verses,
        unseen_verses: b.unseen_verses,
        suspended_verses: b.suspended_verses,
    };
    match cat {
        Category::Mature => {
            r.mature_passages = r.mature_passages + 1;
            r.mature_verses = r.mature_verses + verses;
        },
        Category::Young => {
            r.young_passages = r.young_passages + 1;
            r.young_verses = r.young_verses + verses;
        },
        Category::Learning => {
            r.learning_passages = r.learning_passages + 1;
            r.learning_verses = r.learning_verses + verses;
        },
        Category::Unseen => {
            r.unseen_passages = r.unseen_passages + 1;
            r.unseen_verses = r.unseen_verses + verses;
        },
        Category::Suspended => {
            r.suspended_passages = r.suspended_passages + 1;
            r.suspended_verses = r.suspended_verses + verses;
        },
    }
    r
}

/// The index of the book named `name`, or the length where absent.
fn find_index(out: &Vec<BookStats>, name: &String) -> (r: usize)
    ensures
        r <= out@.len(),
        r < out@.len() ==> out@[r as int].book@ == name@,
        forall|m: int| 0 <= m < r ==> (#[trigger] out@[m]).book@ != name@,
        r == out@.len() ==> forall|m: int| 0 <= m < out@.len() ==> (#[trigger] out@[m]).book@
            != name@,
{
    let mut k: usize = 0;
    while k < out.len()
        invariant
            k <= out@.len(),
            forall|m: int| 0 <= m < k ==> (#[trigger] out@[m]).book@ != name@,
        decreases out@.len() - k,
    {
        if out[k].book == *name {
            return k;
        }
        k = k + 1;
    }
    k
}

/// Groups classified units by book name and accumulates, per book and
/// per category, the number of units and their verse-weighted count.
/// Units whose text predicate yielded no group are excluded.  The
/// result holds exactly the books that appear in some grouped row, each
/// once, with exactly the counters its rows contribute.
#[verifier::rlimit(80)]
pub fn aggregate_book_stats(rows: &Vec<PassageRow>) -> (out: Vec<BookStats>)
    requires
        rows@.len() <= 1_000_000,
        rows_bounded(rows@),
    ensures
        forall|a: int, b: int|
            0 <= a < b < out@.len() ==> (#[trigger] out@[a]).book@ != (#[trigger] out@[b]).book@,
        forall|k: int|
            0 <= k < out@.len() ==> (#[trigger] out@[k]).counts() == spec_book_tally(
                rows@,
                out@[k].book@,
            ),
        forall|k: int| 0 <= k < out@.len() ==> (#[trigger] out@[k]).bounded(),
        forall|j: int|
            0 <= j < rows@.len() && row_has_group(#[trigger] rows@[j]) ==> exists|k: int|
                0 <= k < out@.len() && (#[trigger] out@[k]).book@ == row_group(rows@[j]),
{
    let mut out: Vec<BookStats> = Vec::new();
    let mut i: usize = 0;
    while i < rows.len()
        invariant
            i <= rows@.len(),
            rows@.len() <= 1_000_000,
            rows_bounded(rows@),
            forall|a: int, b: int|
                0 <= a < b < out@.len() ==> (#[trigger] out@[a]).book@ != (
                #[trigger] out@[b]).book@,
            forall|k: int|
                0 <= k < out@.len() ==> (#[trigger] out@[k]).counts() == spec_book_tally(
                    rows@.take(i as int),
                    out@[k].book@,
                ),
            forall|k: int|
                0 <= k < out@.len() ==> counts_within(
                    (#[trigger] out@[k]).counts(),
                    (i as int) * 1000,
                ),
            forall|j: int|
                0 <= j < i && row_has_group(#[trigger] rows@[j]) ==> exists|k: int|
                    0 <= k < out@.len() && (#[trigger] out@[k]).book@ == row_group(rows@[j]),
        decreases rows@.len() - i,
    {
        let ghost prefix = rows@.take(i as int);
        let ghost prefix1 = rows@.take(i as int + 1);
        proof {
            assert(prefix1.drop_last() =~= prefix);
            assert(prefix1.last() == rows@[i as int]);
        }
        let row = &rows[i];
        match &row.book {
            Option::None => {
                proof {
                    assert(forall|k: int|
                        0 <= k < out@.len() ==> row_contrib(rows@[i as int], (
                        #[trigger] out@[k]).book@) == zero_counts());
                }
            },
            Option::Some(name) => {
                let cat = classify(row.first, row.second);
                let idx = find_index(&out, name);
                if idx < out.len() {
                    let nb = bump(&out[idx], cat, row.verses);
                    let ghost out0 = out@;
                    out.set(idx, nb);
                    proof {
                        assert(out@[idx as int].counts() == spec_book_tally(
                            prefix1,
                            out@[idx as int].book@,
                        ));
                        assert(forall|k: int|
                            0 <= k < out@.len() && k != idx ==> (#[trigger] out@[k]).book@
                                != name@);
                        assert(forall|k: int|
                            0 <= k < out@.len() && k != idx ==> row_contrib(rows@[i as int], (
                            #[trigger] out@[k]).book@) == zero_counts());
                        assert forall|j: int| 0 <= j < i + 1 && row_has_group(#[trigger] rows@[j])
                            implies exists|k: int|
                            0 <= k < out@.len() && (#[trigger] out@[k]).book@ == row_group(
                                rows@[j],
                            ) by {
                            if j < i {
                                let k0 = choose|k: int|
                                    0 <= k < out0.len() && (#[trigger] out0[k]).book@ == row_group(
                                        rows@[j],
                                    );
                                assert(out@[k0].book@ == out0[k0].book@);
                            } else {
                                assert(out@[idx as int].book@ == name@);
                            }
                        }
                    }
                } else {
                    let zb = zero_book(name);
                    let nb = bump(&zb, cat, row.verses);
                    let ghost out0 = out@;
                    out.push(nb);
                    proof {
                        lemma_tally_absent(prefix, name@);
                        assert(forall|k: int|
                            0 <= k < out@.len() - 1 ==> row_contrib(rows@[i as int], (
                            #[trigger] out@[k]).book@) == zero_counts());
                        assert forall|j: int| 0 <= j < i + 1 && row_has_group(#[trigger] rows@[j])
                            implies exists|k: int|
                            0 <= k < out@.len() && (#[trigger] out@[k]).book@ == row_group(
                                rows@[j],
                            ) by {
                            if j < i {
                                let k0 = choose|k: int|
                                    0 <= k < out0.len() && (#[trigger] out0[k]).book@ == row_group(
                                        rows@[j],
                                    );
                                assert(out@[k0].book@ == out0[k0].book@);
                            } else {
                                assert(out@[out@.len() - 1].book@ == name@);
                            }
                        }
                    }
                }
            },
        }
        i = i + 1;
    }
    proof {
        assert(rows@.take(rows@.len() as int) =~= rows@);
        assert forall|k: int| 0 <= k < out@.len() implies (#[trigger] out@[k]).bounded() by {
            assert(counts_within(out@[k].counts(), (i as int) * 1000));
        }
    }
    out
}

} // verus!
