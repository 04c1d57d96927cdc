use vstd::prelude::*;
use vstd::string::StringExecFns;

verus! {

/// Lowest year the calendar arithmetic supports.
pub const MIN_YEAR: u32 = 1;

/// Highest year the calendar arithmetic supports.
pub const MAX_YEAR: u32 = 9999;

/// A civil date in the proleptic Gregorian calendar.
///
/// This is the canonical bucket identifier of the engine: a day bucket is
/// named by its date, a week bucket by the date of its starting Sunday.
/// The `YYYY-MM-DD` key string shown to callers is produced by
/// [`Date::key_string`].
#[derive(Clone, Copy, Debug, PartialEq, Eq, Structural)]
pub struct Date {
    pub year: u32,
    pub month: u32,
    pub day: u32,
}

pub open spec fn is_leap_year(y: int) -> bool {
    (y % 4 == 0 && y % 100 != 0) || y % 400 == 0
}

pub open spec fn days_in_year(y: int) -> int {
    if is_leap_year(y) {
        366
    } else {
        365
    }
}

pub open spec fn days_in_month(y: int, m: int) -> int {
    if m == 2 {
        if is_leap_year(y) {
            29
        } else {
            28
        }
    } else if m == 4 || m == 6 || m == 9 || m == 11 {
        30
    } else {
        31
    }
}

/// Days in all years strictly before year `y`, counted from year `MIN_YEAR`.
pub open spec fn days_before_year(y: int) -> int
    decreases y,
{
    if y <= 1 {
        0
    } else {
        days_before_year(y - 1) + days_in_year(y - 1)
    }
}

/// Days in all months of year `y` strictly before month `m`.
pub open spec fn days_before_month(y: int, m: int) -> int
    decreases m,
{
    if m <= 1 {
        0
    } else {
        days_before_month(y, m - 1) + days_in_month(y, m - 1)
    }
}

/// Rank of a date on the time line: 0001-01-01 has index 0, and each
/// following day adds one.  Chronological order of dates is exactly the
/// order of their day indices.
pub open spec fn day_index(d: Date) -> int {
    days_before_year(d.year as int) + days_before_month(d.year as int, d.month as int) + (d.day
        - 1)
}

/// `a` lies strictly before `b` on the time line.
pub open spec fn date_lt(a: Date, b: Date) -> bool {
    day_index(a) < day_index(b)
}

impl Date {
    pub open spec fn valid(self) -> bool {
        &&& MIN_YEAR <= self.year <= MAX_YEAR
        &&& 1 <= self.month <= 12
        &&& 1 <= self.day <= days_in_month(self.year as int, self.month as int)
    }
}

/// The calendar day immediately before `d`.
pub open spec fn prev_date(d: Date) -> Date {
    if d.day > 1 {
        Date { year: d.year, month: d.month, day: (d.day - 1) as u32 }
    } else if d.month > 1 {
        Date {
            year: d.year,
            month: (d.month - 1) as u32,
            day: days_in_month(d.year as int, d.month as int - 1) as u32,
        }
    } else {
        Date { year: (d.year - 1) as u32, month: 12, day: 31 }
    }
}

/// The calendar day immediately after `d`.
pub open spec fn next_date(d: Date) -> Date {
    if d.day < days_in_month(d.year as int, d.month as int) {
        Date { year: d.year, month: d.month, day: (d.day + 1) as u32 }
    } else if d.month < 12 {
        Date { year: d.year, month: (d.month + 1) as u32, day: 1 }
    } else {
        Date { year: (d.year + 1) as u32, month: 1, day: 1 }
    }
}

/// The date `n` days before `d`.
pub open spec fn minus_days(d: Date, n: nat) -> Date
    decreases n,
{
    if n == 0 {
        d
    } else {
        prev_date(minus_days(d, (n - 1) as nat))
    }
}

/// The date `n` days after `d`.
pub open spec fn plus_days(d: Date, n: nat) -> Date
    decreases n,
{
    if n == 0 {
        d
    } else {
        next_date(plus_days(d, (n - 1) as nat))
    }
}

/// Sunday-based day of week: 0 is Sunday, 6 is Saturday.
pub open spec fn spec_weekday(d: Date) -> int {
    (day_index(d) + 1) % 7
}

pub proof fn lemma_months_sum(y: int)
    ensures
        days_before_month(y, 12) + days_in_month(y, 12) == days_in_year(y),
{
    reveal_with_fuel(days_before_month, 13);
}

pub proof fn lemma_days_before_year_bounds(y: int)
    requires
        1 <= y,
    ensures
        365 * (y - 1) <= days_before_year(y) <= 366 * (y - 1),
    decreases y,
{
    if y > 1 {
        lemma_days_before_year_bounds(y - 1);
    }
}

pub proof fn lemma_days_before_month_bounds(y: int, m: int)
    requires
        1 <= m <= 13,
    ensures
        28 * (m - 1) <= days_before_month(y, m) <= 31 * (m - 1),
    decreases m,
{
    if m > 1 {
        lemma_days_before_month_bounds(y, m - 1);
    }
}

pub proof fn lemma_days_before_year_mono(a: int, b: int)
    requires
        1 <= a <= b,
    ensures
        days_before_year(a) + 365 * (b - a) <= days_before_year(b),
    decreases b,
{
    if a < b {
        lemma_days_before_year_mono(a, b - 1);
    }
}

pub proof fn lemma_days_before_month_mono(y: int, a: int, b: int)
    requires
        1 <= a <= b,
    ensures
        days_before_month(y, a) <= days_before_month(y, b),
    decreases b,
{
    if a < b {
        lemma_days_before_month_mono(y, a, b - 1);
    }
}

/// A valid date's day index lies inside its year's stretch of the time
/// line.
pub proof fn lemma_day_index_in_year(d: Date)
    requires
        d.valid(),
    ensures
        days_before_year(d.year as int) <= day_index(d),
        day_index(d) < days_before_year(d.year as int + 1),
{
    lemma_days_before_month_bounds(d.year as int, d.month as int);
    lemma_days_before_month_mono(d.year as int, d.month as int + 1, 13);
    lemma_months_sum(d.year as int);
    assert(days_before_month(d.year as int, 13) == days_in_year(d.year as int));
    assert(days_before_year(d.year as int + 1) == days_before_year(d.year as int) + days_in_year(
        d.year as int,
    ));
}

/// Bounds on a date's day index translate into bounds on its year.
pub proof fn lemma_year_within(d: Date, y0: int, y1: int)
    requires
        d.valid(),
        1 <= y0 <= y1,
        y1 <= 9998,
        days_before_year(y0) <= day_index(d),
        day_index(d) < days_before_year(y1 + 1),
    ensures
        y0 <= d.year <= y1,
{
    lemma_day_index_in_year(d);
    if (d.year as int) < y0 {
        lemma_days_before_year_mono(d.year as int + 1, y0);
    }
    if (d.year as int) > y1 {
        lemma_days_before_year_mono(y1 + 1, d.year as int);
    }
}

pub proof fn lemma_day_index_bounds(d: Date)
    requires
        d.valid(),
    ensures
        0 <= day_index(d) < 3_660_000,
{
    lemma_days_before_year_bounds(d.year as int);
    lemma_days_before_month_bounds(d.year as int, d.month as int);
}

pub proof fn lemma_prev_date(d: Date)
    requires
        d.valid(),
        day_index(d) > 0,
    ensures
        prev_date(d).valid(),
        day_index(prev_date(d)) == day_index(d) - 1,
{
    if d.day > 1 {
    } else if d.month > 1 {
    } else {
        assert(d.year > 1) by {
            if d.year == 1 {
                assert(day_index(d) == 0);
            }
        }
        lemma_months_sum(d.year as int - 1);
    }
}

pub proof fn lemma_next_date(d: Date)
    requires
        d.valid(),
        !(d.year == MAX_YEAR && d.month == 12 && d.day == 31),
    ensures
        next_date(d).valid(),
        day_index(next_date(d)) == day_index(d) + 1,
{
    if d.day < days_in_month(d.year as int, d.month as int) {
    } else if d.month < 12 {
    } else {
        lemma_months_sum(d.year as int);
    }
}

pub proof fn lemma_minus_days(d: Date, n: nat)
    requires
        d.valid(),
        n <= day_index(d),
    ensures
        minus_days(d, n).valid(),
        day_index(minus_days(d, n)) == day_index(d) - n,
    decreases n,
{
    if n > 0 {
        lemma_minus_days(d, (n - 1) as nat);
        lemma_prev_date(minus_days(d, (n - 1) as nat));
    }
}

pub proof fn lemma_plus_days(d: Date, n: nat)
    requires
        d.valid(),
        d.year <= 9998,
        n <= 365,
    ensures
        plus_days(d, n).valid(),
        day_index(plus_days(d, n)) == day_index(d) + n,
        plus_days(d, n).year <= d.year + 1,
    decreases n,
{
    if n > 0 {
        lemma_plus_days(d, (n - 1) as nat);
        let p = plus_days(d, (n - 1) as nat);
        lemma_day_index_in_year(d);
        lemma_day_index_in_year(p);
        lemma_months_sum(p.year as int);
        assert(days_before_month(p.year as int, 13) == days_in_year(p.year as int));
        // p is not the last day of its year unless its year is still d.year,
        // because d's index is below d.year+1's stretch and n is at most 365.
        if p.year == d.year + 1 && p.month == 12 && p.day == 31 {
            assert(day_index(p) == days_before_year(p.year as int) + days_in_year(p.year as int)
                - 1);
            assert(false);
        }
        lemma_next_date(p);
    }
}

fn month_len(y: u32, m: u32) -> (r: u32)
    ensures
        r == days_in_month(y as int, m as int),
{
    if m == 2 {
        if (y % 4 == 0 && y % 100 != 0) || y % 400 == 0 {
            29
        } else {
            28
        }
    } else if m == 4 || m == 6 || m == 9 || m == 11 {
        30
    } else {
        31
    }
}

fn year_len(y: u32) -> (r: u32)
    ensures
        r == days_in_year(y as int),
{
    if (y % 4 == 0 && y % 100 != 0) || y % 400 == 0 {
        366
    } else {
        365
    }
}

fn digit_str(n: u32) -> (r: &'static str)
    requires
        n < 10,
    ensures
        r@ =~= seq![digit_char(n as int)],
{
    proof {
        reveal_strlit("0");
        reveal_strlit("1");
        reveal_strlit("2");
        reveal_strlit("3");
        reveal_strlit("4");
        reveal_strlit("5");
        reveal_strlit("6");
        reveal_strlit("7");
        reveal_strlit("8");
        reveal_strlit("9");
    }
    if n == 0 {
        "0"
    } else if n == 1 {
        "1"
    } else if n == 2 {
        "2"
    } else if n == 3 {
        "3"
    } else if n == 4 {
        "4"
    } else if n == 5 {
        "5"
    } else if n == 6 {
        "6"
    } else if n == 7 {
        "7"
    } else if n == 8 {
        "8"
    } else {
        "9"
    }
}

pub open spec fn digit_char(n: int) -> char {
    if n == 0 {
        '0'
    } else if n == 1 {
        '1'
    } else if n == 2 {
        '2'
    } else if n == 3 {
        '3'
    } else if n == 4 {
        '4'
    } else if n == 5 {
        '5'
    } else if n == 6 {
        '6'
    } else if n == 7 {
        '7'
    } else if n == 8 {
        '8'
    } else {
        '9'
    }
}

/// The `YYYY-MM-DD` key string of a date, as a character sequence.
pub open spec fn date_key_chars(d: Date) -> Seq<char> {
    seq![
        digit_char(d.year as int / 1000 % 10),
        digit_char(d.year as int / 100 % 10),
        digit_char(d.year as int / 10 % 10),
        digit_char(d.year as int % 10),
        '-',
        digit_char(d.month as int / 10),
        digit_char(d.month as int % 10),
        '-',
        digit_char(d.day as int / 10),
        digit_char(d.day as int % 10),
    ]
}

impl Date {
    /// The day immediately before this one.
    pub fn pred(&self) -> (r: Date)
        requires
            self.valid(),
            day_index(*self) > 0,
        ensures
            r == prev_date(*self),
            r.valid(),
            day_index(r) == day_index(*self) - 1,
    {
        proof {
            lemma_prev_date(*self);
        }
        if self.day > 1 {
            Date { year: self.year, month: self.month, day: self.day - 1 }
        } else if self.month > 1 {
            Date { year: self.year, month: self.month - 1, day: month_len(self.year, self.month - 1) }
        } else {
            Date { year: self.year - 1, month: 12, day: 31 }
        }
    }

    /// The day immediately after this one.
    pub fn succ(&self) -> (r: Date)
        requires
            self.valid(),
            !(self.year == MAX_YEAR && self.month == 12 && self.day == 31),
        ensures
            r == next_date(*self),
            r.valid(),
            day_index(r) == day_index(*self) + 1,
    {
        proof {
            lemma_next_date(*self);
        }
        if self.day < month_len(self.year, self.month) {
            Date { year: self.year, month: self.month, day: self.day + 1 }
        } else if self.month < 12 {
            Date { year: self.year, month: self.month + 1, day: 1 }
        } else {
            Date { year: self.year + 1, month: 1, day: 1 }
        }
    }

    /// The date `n` days before this one.
    pub fn back(&self, n: u32) -> (r: Date)
        requires
            self.valid(),
            n <= day_index(*self),
        ensures
            r == minus_days(*self, n as nat),
            r.valid(),
            day_index(r) == day_index(*self) - n,
    {
        proof {
            lemma_minus_days(*self, n as nat);
        }
        let mut r = *self;
        let mut i: u32 = 0;
        while i < n
            invariant
                i <= n,
                self.valid(),
                n <= day_index(*self),
                r == minus_days(*self, i as nat),
                r.valid(),
                day_index(r) == day_index(*self) - i,
            decreases n - i,
        {
            proof {
                lemma_minus_days(*self, (i + 1) as nat);
            }
            r = r.pred();
            i = i + 1;
        }
        r
    }

    /// The date `n` days after this one.
    pub fn fwd(&self, n: u32) -> (r: Date)
        requires
            self.valid(),
            self.year <= 9998,
            n <= 365,
        ensures
            r == plus_days(*self, n as nat),
            r.valid(),
            day_index(r) == day_index(*self) + n,
    {
        proof {
            lemma_plus_days(*self, n as nat);
        }
        let mut r = *self;
        let mut i: u32 = 0;
        while i < n
            invariant
                i <= n,
                n <= 365,
                self.valid(),
                self.year <= 9998,
                r == plus_days(*self, i as nat),
                r.valid(),
                r.year <= self.year + 1,
                day_index(r) == day_index(*self) + i,
            decreases n - i,
        {
            proof {
                lemma_plus_days(*self, (i + 1) as nat);
            }
            r = r.succ();
            i = i + 1;
        }
        r
    }

    /// The rank of this date on the time line, starting at 0 for
    /// 0001-01-01.
    pub fn index(&self) -> (r: u32)
        requires
            self.valid(),
        ensures
            r == day_index(*self),
    {
        proof {
            lemma_day_index_bounds(*self);
        }
        let mut y: u32 = 1;
        let mut acc: u32 = 0;
        while y < self.year
            invariant
                1 <= y <= self.year,
                self.valid(),
                acc == days_before_year(y as int),
                acc <= 366 * (y - 1),
            decreases self.year - y,
        {
            acc = acc + year_len(y);
            y = y + 1;
        }
        let mut m: u32 = 1;
        while m < self.month
            invariant
                1 <= m <= self.month,
                self.valid(),
                acc == days_before_year(self.year as int) + days_before_month(
                    self.year as int,
                    m as int,
                ),
                acc <= 366 * (self.year - 1) + 31 * (m - 1),
            decreases self.month - m,
        {
            acc = acc + month_len(self.year, m);
            m = m + 1;
        }
        acc + (self.day - 1)
    }

    /// Sunday-based day of week: 0 is Sunday, 6 is Saturday.
    pub fn weekday(&self) -> (r: u32)
        requires
            self.valid(),
        ensures
            r == spec_weekday(*self),
            r < 7,
    {
        proof {
            lemma_day_index_bounds(*self);
        }
        let idx = self.index();
        (idx + 1) % 7
    }

    /// Formats this date as its canonical `YYYY-MM-DD` bucket key.
    pub fn key_string(&self) -> (r: String)
        requires
            self.year <= 9999,
            self.month <= 99,
            self.day <= 99,
        ensures
            r@ == date_key_chars(*self),
    {
        proof {
            reveal_strlit("-");
        }
        let mut s = String::new();
        s.append(digit_str(self.year / 1000 % 10));
        s.append(digit_str(self.year / 100 % 10));
        s.append(digit_str(self.year / 10 % 10));
        s.append(digit_str(self.year % 10));
        s.append("-");
        s.append(digit_str(self.month / 10));
        s.append(digit_str(self.month % 10));
        s.append("-");
        s.append(digit_str(self.day / 10));
        s.append(digit_str(self.day % 10));
        proof {
            assert(s@ =~= date_key_chars(*self));
        }
        s
    }
}

} // verus!
