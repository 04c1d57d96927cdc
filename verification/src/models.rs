use vstd::prelude::*;
use vstd::string::StringExecFns;

verus! {

/// Largest value a single per-book counter may hold; queries producing
/// book statistics stay far below this.
pub const COUNT_LIMIT: i64 = 1_000_000_000;

/// Per-category passage and verse statistics for a single book.
pub struct BookStats {
    pub book: String,
    pub mature_passages: i64,
    pub young_passages: i64,
    pub learning_passages: i64,
    pub unseen_passages: i64,
    pub suspended_passages: i64,
    pub mature_verses: i64,
    pub young_verses: i64,
    pub learning_verses: i64,
    pub unseen_verses: i64,
    pub suspended_verses: i64,
}

impl BookStats {
    /// The ten counters as one mathematical value, in the fixed order
    /// mature/young/learning/unseen/suspended passages, then the same
    /// five verse counters.
    pub open spec fn counts(self) -> (int, int, int, int, int, int, int, int, int, int) {
        (
            self.mature_passages as int,
            self.young_passages as int,
            self.learning_passages as int,
            self.unseen_passages as int,
            self.suspended_passages as int,
            self.mature_verses as int,
            self.young_verses as int,
            self.learning_verses as int,
            self.unseen_verses as int,
            self.suspended_verses as int,
        )
    }

    /// Counters are nonnegative and small enough that any sum the
    /// engine forms stays far away from overflow.
    pub open spec fn bounded(self) -> bool {
        &&& 0 <= self.mature_passages <= COUNT_LIMIT
        &&& 0 <= self.young_passages <= COUNT_LIMIT
        &&& 0 <= self.learning_passages <= COUNT_LIMIT
        &&& 0 <= self.unseen_passages <= COUNT_LIMIT
        &&& 0 <= self.suspended_passages <= COUNT_LIMIT
        &&& 0 <= self.mature_verses <= COUNT_LIMIT
        &&& 0 <= self.young_verses <= COUNT_LIMIT
        &&& 0 <= self.learning_verses <= COUNT_LIMIT
        &&& 0 <= self.unseen_verses <= COUNT_LIMIT
        &&& 0 <= self.suspended_verses <= COUNT_LIMIT
    }

    /// Total passages tracked for this book, across all five categories.
    pub fn total_passages(&self) -> (r: i64)
        requires
            self.bounded(),
        ensures
            r == self.mature_passages + self.young_passages + self.learning_passages
                + self.unseen_passages + self.suspended_passages,
    {
        self.mature_passages + self.young_passages + self.learning_passages
            + self.unseen_passages + self.suspended_passages
    }

    /// Total verses tracked for this book, across all five categories.
    pub fn total_verses(&self) -> (r: i64)
        requires
            self.bounded(),
        ensures
            r == self.mature_verses + self.young_verses + self.learning_verses
                + self.unseen_verses + self.suspended_verses,
    {
        self.mature_verses + self.young_verses + self.learning_verses + self.unseen_verses
            + self.suspended_verses
    }
}

/// The all-zero counter value: what a book with no tracked passages
/// reads.
pub open spec fn zero_counts() -> (int, int, int, int, int, int, int, int, int, int) {
    (0, 0, 0, 0, 0, 0, 0, 0, 0, 0)
}

/// The counters recorded for the book named `name`: the first matching
/// entry's counters, or all zeros where no entry matches.
pub open spec fn spec_find_book(books: Seq<BookStats>, name: Seq<char>) -> (
    int,
    int,
    int,
    int,
    int,
    int,
    int,
    int,
    int,
    int,
)
    decreases books.len(),
{
    if books.len() == 0 {
        zero_counts()
    } else if books[0].book@ == name {
        books[0].counts()
    } else {
        spec_find_book(books.drop_first(), name)
    }
}

/// Componentwise sum, over a list of book names, of the counters each
/// name reads from `books` (zeros for an absent book).
pub open spec fn spec_books_sum(books: Seq<BookStats>, names: Seq<String>) -> (
    int,
    int,
    int,
    int,
    int,
    int,
    int,
    int,
    int,
    int,
)
    decreases names.len(),
{
    if names.len() == 0 {
        zero_counts()
    } else {
        let p = spec_books_sum(books, names.drop_last());
        let c = spec_find_book(books, names.last()@);
        (
            p.0 + c.0,
            p.1 + c.1,
            p.2 + c.2,
            p.3 + c.3,
            p.4 + c.4,
            p.5 + c.5,
            p.6 + c.6,
            p.7 + c.7,
            p.8 + c.8,
            p.9 + c.9,
        )
    }
}

/// Every component of a ten-counter value lies in `[0, hi]`.
pub open spec fn counts_within(
    c: (int, int, int, int, int, int, int, int, int, int),
    hi: int,
) -> bool {
    &&& 0 <= c.0 <= hi
    &&& 0 <= c.1 <= hi
    &&& 0 <= c.2 <= hi
    &&& 0 <= c.3 <= hi
    &&& 0 <= c.4 <= hi
    &&& 0 <= c.5 <= hi
    &&& 0 <= c.6 <= hi
    &&& 0 <= c.7 <= hi
    &&& 0 <= c.8 <= hi
    &&& 0 <= c.9 <= hi
}

pub proof fn lemma_find_book_match(books: Seq<BookStats>, name: Seq<char>, j: int)
    requires
        0 <= j < books.len(),
        books[j].book@ == name,
        forall|k: int| 0 <= k < j ==> (#[trigger] books[k]).book@ != name,
    ensures
        spec_find_book(books, name) == books[j].counts(),
    decreases j,
{
    if j > 0 {
        lemma_find_book_match(books.drop_first(), name, j - 1);
    }
}

pub proof fn lemma_find_book_absent(books: Seq<BookStats>, name: Seq<char>)
    requires
        forall|k: int| 0 <= k < books.len() ==> (#[trigger] books[k]).book@ != name,
    ensures
        spec_find_book(books, name) == zero_counts(),
    decreases books.len(),
{
    if books.len() > 0 {
        lemma_find_book_absent(books.drop_first(), name);
    }
}

/// Aggregated statistics over a labelled collection of books.
pub struct AggregateStats {
    pub label: String,
    pub mature_passages: i64,
    pub young_passages: i64,
    pub learning_passages: i64,
    pub unseen_passages: i64,
    pub suspended_passages: i64,
    pub mature_verses: i64,
    pub young_verses: i64,
    pub learning_verses: i64,
    pub unseen_verses: i64,
    pub suspended_verses: i64,
    pub book_stats: Vec<BookStats>,
}

impl AggregateStats {
    /// The ten aggregate counters as one mathematical value.
    pub open spec fn counts(self) -> (int, int, int, int, int, int, int, int, int, int) {
        (
            self.mature_passages as int,
            self.young_passages as int,
            self.learning_passages as int,
            self.unseen_passages as int,
            self.suspended_passages as int,
            self.mature_verses as int,
            self.young_verses as int,
            self.learning_verses as int,
            self.unseen_verses as int,
            self.suspended_verses as int,
        )
    }

    /// Aggregate counters never exceed what the collected books can
    /// contribute.
    pub open spec fn wf(self) -> bool {
        counts_within(self.counts(), self.book_stats@.len() as int * 1_000_000_000)
    }

    /// A fresh, empty aggregate with all counters zero.
    pub fn new(label: String) -> (r: AggregateStats)
        ensures
            r.label == label,
            r.counts() == zero_counts(),
            r.book_stats@.len() == 0,
            r.wf(),
    {
        AggregateStats {
            label,
            mature_passages: 0,
            young_passages: 0,
            learning_passages: 0,
            unseen_passages: 0,
            suspended_passages: 0,
            mature_verses: 0,
            young_verses: 0,
            learning_verses: 0,
            unseen_verses: 0,
            suspended_verses: 0,
            book_stats: Vec::new(),
        }
    }

    /// Folds one book's counters into the aggregate and records the
    /// book.
    pub fn add_book(&mut self, stats: BookStats)
        requires
            old(self).wf(),
            stats.bounded(),
            old(self).book_stats@.len() <= 100_000,
        ensures
            final(self).wf(),
            final(self).label == old(self).label,
            final(self).book_stats@ == old(self).book_stats@.push(stats),
            final(self).counts().0 == old(self).counts().0 + stats.counts().0,
            final(self).counts().1 == old(self).counts().1 + stats.counts().1,
            final(self).counts().2 == old(self).counts().2 + stats.counts().2,
            final(self).counts().3 == old(self).counts().3 + stats.counts().3,
            final(self).counts().4 == old(self).counts().4 + stats.counts().4,
            final(self).counts().5 == old(self).counts().5 + stats.counts().5,
            final(self).counts().6 == old(self).counts().6 + stats.counts().6,
            final(self).counts().7 == old(self).counts().7 + stats.counts().7,
            final(self).counts().8 == old(self).counts().8 + stats.counts().8,
            final(self).counts().9 == old(self).counts().9 + stats.counts().9,
    {
        self.mature_passages = self.mature_passages + stats.mature_passages;
        self.young_passages = self.young_passages + stats.young_passages;
        self.learning_passages = self.learning_passages + stats.learning_passages;
        self.unseen_passages = self.unseen_passages + stats.unseen_passages;
        self.suspended_passages = self.suspended_passages + stats.suspended_passages;
        self.mature_verses = self.mature_verses + stats.mature_verses;
        self.young_verses = self.young_verses + stats.young_verses;
        self.learning_verses = self.learning_verses + stats.learning_verses;
        self.unseen_verses = self.unseen_verses + stats.unseen_verses;
        self.suspended_verses = self.suspended_verses + stats.suspended_verses;
        self.book_stats.push(stats);
    }

    /// Total passages across all five categories.
    pub fn total_passages(&self) -> (r: i64)
        requires
            self.wf(),
            self.book_stats@.len() <= 100_000,
        ensures
            r == self.mature_passages + self.young_passages + self.learning_passages
                + self.unseen_passages + self.suspended_passages,
    {
        self.mature_passages + self.young_passages + self.learning_passages
            + self.unseen_passages + self.suspended_passages
    }

    /// Total verses across all five categories.
    pub fn total_verses(&self) -> (r: i64)
        requires
            self.wf(),
            self.book_stats@.len() <= 100_000,
        ensures
            r == self.mature_verses + self.young_verses + self.learning_verses
                + self.unseen_verses + self.suspended_verses,
    {
        self.mature_verses + self.young_verses + self.learning_verses + self.unseen_verses
            + self.suspended_verses
    }
}

/// Bible-wide statistics, split into the two testaments.
pub struct BibleStats {
    pub old_testament: AggregateStats,
    pub new_testament: AggregateStats,
}

/// Both testaments' aggregates are well formed and small enough to sum.
pub open spec fn bible_wf(s: BibleStats) -> bool {
    &&& s.old_testament.wf()
    &&& s.new_testament.wf()
    &&& s.old_testament.book_stats@.len() <= 100_000
    &&& s.new_testament.book_stats@.len() <= 100_000
}

impl BibleStats {
    /// Empty statistics with the two testament labels.
    pub fn new() -> (r: BibleStats)
        ensures
            r.old_testament.label@ == "Old Testament"@,
            r.new_testament.label@ == "New Testament"@,
            r.old_testament.counts() == zero_counts(),
            r.new_testament.counts() == zero_counts(),
            r.old_testament.book_stats@.len() == 0,
            r.new_testament.book_stats@.len() == 0,
            bible_wf(r),
    {
        BibleStats {
            old_testament: AggregateStats::new(String::from_str("Old Testament")),
            new_testament: AggregateStats::new(String::from_str("New Testament")),
        }
    }

    pub fn total_mature_passages(&self) -> (r: i64)
        requires
            bible_wf(*self),
        ensures
            r == self.old_testament.mature_passages + self.new_testament.mature_passages,
    {
        self.old_testament.mature_passages + self.new_testament.mature_passages
    }

    pub fn total_young_passages(&self) -> (r: i64)
        requires
            bible_wf(*self),
        ensures
            r == self.old_testament.young_passages + self.new_testament.young_passages,
    {
        self.old_testament.young_passages + self.new_testament.young_passages
    }

    pub fn total_learning_passages(&self) -> (r: i64)
        requires
            bible_wf(*self),
        ensures
            r == self.old_testament.learning_passages + self.new_testament.learning_passages,
    {
        self.old_testament.learning_passages + self.new_testament.learning_passages
    }

    pub fn total_unseen_passages(&self) -> (r: i64)
        requires
            bible_wf(*self),
        ensures
            r == self.old_testament.unseen_passages + self.new_testament.unseen_passages,
    {
        self.old_testament.unseen_passages + self.new_testament.unseen_passages
    }

    pub fn total_suspended_passages(&self) -> (r: i64)
        requires
            bible_wf(*self),
        ensures
            r == self.old_testament.suspended_passages + self.new_testament.suspended_passages,
    {
        self.old_testament.suspended_passages + self.new_testament.suspended_passages
    }

    /// Grand total of passages over both testaments and all categories.
    pub fn total_passages(&self) -> (r: i64)
        requires
            bible_wf(*self),
        ensures
            r == self.old_testament.mature_passages + self.old_testament.young_passages
                + self.old_testament.learning_passages + self.old_testament.unseen_passages
                + self.old_testament.suspended_passages + self.new_testament.mature_passages
                + self.new_testament.young_passages + self.new_testament.learning_passages
                + self.new_testament.unseen_passages + self.new_testament.suspended_passages,
    {
        self.old_testament.total_passages() + self.new_testament.total_passages()
    }

    pub fn total_mature_verses(&self) -> (r: i64)
        requires
            bible_wf(*self),
        ensures
            r == self.old_testament.mature_verses + self.new_testament.mature_verses,
    {
        self.old_testament.mature_verses + self.new_testament.mature_verses
    }

    pub fn total_young_verses(&self) -> (r: i64)
        requires
            bible_wf(*self),
        ensures
            r == self.old_testament.young_verses + self.new_testament.young_verses,
    {
        self.old_testament.young_verses + self.new_testament.young_verses
    }

    pub fn total_learning_verses(&self) -> (r: i64)
        requires
            bible_wf(*self),
        ensures
            r == self.old_testament.learning_verses + self.new_testament.learning_verses,
    {
        self.old_testament.learning_verses + self.new_testament.learning_verses
    }

    pub fn total_unseen_verses(&self) -> (r: i64)
        requires
            bible_wf(*self),
        ensures
            r == self.old_testament.unseen_verses + self.new_testament.unseen_verses,
    {
        self.old_testament.unseen_verses + self.new_testament.unseen_verses
    }

    pub fn total_suspended_verses(&self) -> (r: i64)
        requires
            bible_wf(*self),
        ensures
            r == self.old_testament.suspended_verses + self.new_testament.suspended_verses,
    {
        self.old_testament.suspended_verses + self.new_testament.suspended_verses
    }

    /// Grand total of verses over both testaments and all categories.
    pub fn total_verses(&self) -> (r: i64)
        requires
            bible_wf(*self),
        ensures
            r == self.old_testament.mature_verses + self.old_testament.young_verses
                + self.old_testament.learning_verses + self.old_testament.unseen_verses
                + self.old_testament.suspended_verses + self.new_testament.mature_verses
                + self.new_testament.young_verses + self.new_testament.learning_verses
                + self.new_testament.unseen_verses + self.new_testament.suspended_verses,
    {
        self.old_testament.total_verses() + self.new_testament.total_verses()
    }
}

/// Service health descriptor.
pub struct HealthCheck {
    pub status: String,
    pub service: String,
}

impl HealthCheck {
    pub fn new() -> (r: HealthCheck)
        ensures
            r.status@ == "ok"@,
            r.service@ == "anki-bible-stats"@,
    {
        HealthCheck { status: String::from_str("ok"), service: String::from_str("anki-bible-stats") }
    }
}

/// A plain error payload for presentation layers.
pub struct ErrorResponse {
    pub error: String,
}

impl ErrorResponse {
    pub fn new(error: String) -> (r: ErrorResponse)
        ensures
            r.error == error,
    {
        ErrorResponse { error }
    }
}

/// The counters recorded for `name` in `books`, as an owned record (all
/// zeros where the book is absent).
fn find_book(books: &Vec<BookStats>, name: &String) -> (r: BookStats)
    requires
        forall|k: int| 0 <= k < books@.len() ==> (#[trigger] books@[k]).bounded(),
    ensures
        r.book@ == name@,
        r.counts() == spec_find_book(books@, name@),
        r.bounded(),
{
    let mut i: usize = 0;
    while i < books.len()
        invariant
            i <= books@.len(),
            forall|k: int| 0 <= k < books@.len() ==> (#[trigger] books@[k]).bounded(),
            forall|k: int| 0 <= k < i ==> (#[trigger] books@[k]).book@ != name@,
        decreases books@.len() - i,
    {
        if books[i].book == *name {
            proof {
                lemma_find_book_match(books@, name@, i as int);
            }
            let b = &books[i];
            return BookStats {
                book: name.clone(),
                mature_passages: b.mature_passages,
                young_passages: b.young_passages,
                learning_passages: b.learning_passages,
                unseen_passages: b.unseen_passages,
                suspended_passages: b.suspended_passages,
                mature_verses: b.mature_verses,
                young_verses: b.young_verses,
                learning_verses: b.learning_verses,
                unseen_verses: b.unseen_verses,
                suspended_verses: b.suspended_verses,
            };
        }
        i = i + 1;
    }
    proof {
        lemma_find_book_absent(books@, name@);
    }
    BookStats {
        book: name.clone(),
        mature_passages: 0,
        young_passages: 0,
        learning_passages: 0,
        unseen_passages: 0,
        suspended_passages: 0,
        mature_verses: 0,
        young_verses: 0,
        learning_verses: 0,
        unseen_verses: 0,
        suspended_verses: 0,
    }
}

/// Assembles Bible-wide statistics from per-book query results: every
/// book of each testament list appears exactly once, zero-filled where
/// the query returned nothing for it, and the aggregate counters are the
/// componentwise sums over the list.
pub fn get_bible_stats(
    books: &Vec<BookStats>,
    old_testament_books: &Vec<String>,
    new_testament_books: &Vec<String>,
) -> (r: BibleStats)
    requires
        forall|k: int| 0 <= k < books@.len() ==> (#[trigger] books@[k]).bounded(),
        old_testament_books@.len() <= 100_000,
        new_testament_books@.len() <= 100_000,
    ensures
        bible_wf(r),
        r.old_testament.label@ == "Old Testament"@,
        r.new_testament.label@ == "New Testament"@,
        r.old_testament.counts() == spec_books_sum(books@, old_testament_books@),
        r.new_testament.counts() == spec_books_sum(books@, new_testament_books@),
        r.old_testament.book_stats@.len() == old_testament_books@.len(),
        r.new_testament.book_stats@.len() == new_testament_books@.len(),
        forall|j: int|
            0 <= j < old_testament_books@.len() ==> (#[trigger] r.old_testament.book_stats@[j]).book@
                == old_testament_books@[j]@ && r.old_testament.book_stats@[j].counts()
                == spec_find_book(books@, old_testament_books@[j]@),
        forall|j: int|
            0 <= j < new_testament_books@.len() ==> (#[trigger] r.new_testament.book_stats@[j]).book@
                == new_testament_books@[j]@ && r.new_testament.book_stats@[j].counts()
                == spec_find_book(books@, new_testament_books@[j]@),
{
    let mut stats = BibleStats::new();
    let mut j: usize = 0;
    while j < old_testament_books.len()
        invariant
            j <= old_testament_books@.len(),
            old_testament_books@.len() <= 100_000,
            forall|k: int| 0 <= k < books@.len() ==> (#[trigger] books@[k]).bounded(),
            stats.old_testament.wf(),
            stats.old_testament.label@ == "Old Testament"@,
            stats.new_testament.label@ == "New Testament"@,
            stats.new_testament.counts() == zero_counts(),
            stats.new_testament.book_stats@.len() == 0,
            stats.new_testament.wf(),
            stats.old_testament.book_stats@.len() == j,
            stats.old_testament.counts() == spec_books_sum(
                books@,
                old_testament_books@.take(j as int),
            ),
            forall|k: int|
                0 <= k < j ==> (#[trigger] stats.old_testament.book_stats@[k]).book@
                    == old_testament_books@[k]@ && stats.old_testament.book_stats@[k].counts()
                    == spec_find_book(books@, old_testament_books@[k]@),
        decreases old_testament_books@.len() - j,
    {
        let b = find_book(books, &old_testament_books[j]);
        stats.old_testament.add_book(b);
        proof {
            let names = old_testament_books@;
            assert(names.take(j + 1).drop_last() =~= names.take(j as int));
            assert(names.take(j + 1).last() == names[j as int]);
        }
        j = j + 1;
    }
    proof {
        assert(old_testament_books@.take(old_testament_books@.len() as int)
            =~= old_testament_books@);
    }
    let mut j: usize = 0;
    while j < new_testament_books.len()
        invariant
            j <= new_testament_books@.len(),
            new_testament_books@.len() <= 100_000,
            forall|k: int| 0 <= k < books@.len() ==> (#[trigger] books@[k]).bounded(),
            stats.new_testament.wf(),
            stats.old_testament.label@ == "Old Testament"@,
            stats.new_testament.label@ == "New Testament"@,
            stats.old_testament.wf(),
            stats.old_testament.book_stats@.len() <= 100_000,
            stats.old_testament.counts() == spec_books_sum(books@, old_testament_books@),
            stats.old_testament.book_stats@.len() == old_testament_books@.len(),
            forall|k: int|
                0 <= k < old_testament_books@.len() ==> (#[trigger] stats.old_testament.book_stats@[k]).book@
                    == old_testament_books@[k]@ && stats.old_testament.book_stats@[k].counts()
                    == spec_find_book(books@, old_testament_books@[k]@),
            stats.new_testament.book_stats@.len() == j,
            stats.new_testament.counts() == spec_books_sum(
                books@,
                new_testament_books@.take(j as int),
            ),
            forall|k: int|
                0 <= k < j ==> (#[trigger] stats.new_testament.book_stats@[k]).book@
                    == new_testament_books@[k]@ && stats.new_testament.book_stats@[k].counts()
                    == spec_find_book(books@, new_testament_books@[k]@),
        decreases new_testament_books@.len() - j,
    {
        let b = find_book(books, &new_testament_books[j]);
        stats.new_testament.add_book(b);
        proof {
            let names = new_testament_books@;
            assert(names.take(j + 1).drop_last() =~= names.take(j as int));
            assert(names.take(j + 1).last() == names[j as int]);
        }
        j = j + 1;
    }
    proof {
        assert(new_testament_books@.take(new_testament_books@.len() as int)
            =~= new_testament_books@);
    }
    stats
}

} // verus!
