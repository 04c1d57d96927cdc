use vstd::prelude::*;

use crate::date::Date;

verus! {

/// Largest magnitude a single sparse metric value may have.  Keeping the
/// per-bucket values inside this bound keeps every running sum the engine
/// forms far away from machine overflow.
pub const VALUE_LIMIT: i64 = 1_000_000_000_000;

/// The value a key list of entries associates with `d`: the value of the
/// first entry for `d`, or 0 where no entry mentions `d` (an empty bucket).
pub open spec fn spec_lookup(s: Seq<(Date, i64)>, d: Date) -> int
    decreases s.len(),
{
    if s.len() == 0 {
        0
    } else if s[0].0 == d {
        s[0].1 as int
    } else {
        spec_lookup(s.drop_first(), d)
    }
}

/// All entry values lie within `VALUE_LIMIT`.
pub open spec fn bounded_entries(s: Seq<(Date, i64)>) -> bool {
    forall|i: int| 0 <= i < s.len() ==> -VALUE_LIMIT <= (#[trigger] s[i]).1 <= VALUE_LIMIT
}

pub proof fn lemma_lookup_bounded(s: Seq<(Date, i64)>, d: Date)
    requires
        bounded_entries(s),
    ensures
        -VALUE_LIMIT <= spec_lookup(s, d) <= VALUE_LIMIT,
    decreases s.len(),
{
    if s.len() > 0 && s[0].0 != d {
        assert(bounded_entries(s.drop_first())) by {
            assert(forall|i: int|
                0 <= i < s.drop_first().len() ==> s.drop_first()[i] == s[i + 1]);
        }
        lemma_lookup_bounded(s.drop_first(), d);
    }
}

pub proof fn lemma_lookup_first_match(s: Seq<(Date, i64)>, d: Date, j: int)
    requires
        0 <= j < s.len(),
        s[j].0 == d,
        forall|k: int| 0 <= k < j ==> (#[trigger] s[k]).0 != d,
    ensures
        spec_lookup(s, d) == s[j].1 as int,
    decreases j,
{
    if j > 0 {
        lemma_lookup_first_match(s.drop_first(), d, j - 1);
    }
}

pub proof fn lemma_lookup_no_match(s: Seq<(Date, i64)>, d: Date)
    requires
        forall|k: int| 0 <= k < s.len() ==> (#[trigger] s[k]).0 != d,
    ensures
        spec_lookup(s, d) == 0,
    decreases s.len(),
{
    if s.len() > 0 {
        lemma_lookup_no_match(s.drop_first(), d);
    }
}

pub proof fn lemma_lookup_update(s: Seq<(Date, i64)>, d: Date, j: int, v: i64, x: Date)
    requires
        0 <= j < s.len(),
        s[j].0 == d,
        forall|k: int| 0 <= k < j ==> (#[trigger] s[k]).0 != d,
    ensures
        spec_lookup(s.update(j, (d, v)), d) == v as int,
        x != d ==> spec_lookup(s.update(j, (d, v)), x) == spec_lookup(s, x),
    decreases j,
{
    let t = s.update(j, (d, v));
    if j == 0 {
        if x != d {
            assert(t.drop_first() =~= s.drop_first());
        }
    } else {
        assert(t.drop_first() =~= s.drop_first().update(j - 1, (d, v)));
        lemma_lookup_update(s.drop_first(), d, j - 1, v, x);
    }
}

pub proof fn lemma_lookup_push(s: Seq<(Date, i64)>, d: Date, v: i64, x: Date)
    requires
        forall|k: int| 0 <= k < s.len() ==> (#[trigger] s[k]).0 != d,
    ensures
        spec_lookup(s.push((d, v)), d) == v as int,
        x != d ==> spec_lookup(s.push((d, v)), x) == spec_lookup(s, x),
    decreases s.len(),
{
    let t = s.push((d, v));
    if s.len() == 0 {
        assert(spec_lookup(t, d) == v as int);
        if x != d {
            assert(t.drop_first() =~= Seq::<(Date, i64)>::empty());
            assert(spec_lookup(Seq::<(Date, i64)>::empty(), x) == 0);
        }
    } else {
        assert(t.drop_first() =~= s.drop_first().push((d, v)));
        lemma_lookup_push(s.drop_first(), d, v, x);
        if x != d && s[0].0 != x {
            assert(spec_lookup(t, x) == spec_lookup(t.drop_first(), x));
        }
    }
}

/// A sparse per-bucket aggregate: entries only for buckets that saw
/// activity, looked up by bucket date with a zero default.  This is the
/// shape a data-source query hands the dense-series builder.
pub struct SparseSeries {
    entries: Vec<(Date, i64)>,
}

impl View for SparseSeries {
    type V = Seq<(Date, i64)>;

    closed spec fn view(&self) -> Seq<(Date, i64)> {
        self.entries@
    }
}

impl SparseSeries {
    /// An empty aggregate: every bucket reads 0.
    pub fn new() -> (r: SparseSeries)
        ensures
            r@.len() == 0,
            bounded_entries(r@),
    {
        SparseSeries { entries: Vec::new() }
    }

    pub fn len(&self) -> (r: usize)
        ensures
            r == self@.len(),
    {
        self.entries.len()
    }

    /// The metric recorded for bucket `d`, 0 where the bucket is absent.
    pub fn get(&self, d: &Date) -> (r: i64)
        ensures
            r == spec_lookup(self@, *d),
    {
        let mut i: usize = 0;
        while i < self.entries.len()
            invariant
                i <= self.entries@.len(),
                forall|k: int| 0 <= k < i ==> (#[trigger] self.entries@[k]).0 != *d,
            decreases self.entries@.len() - i,
        {
            if self.entries[i].0 == *d {
                proof {
                    lemma_lookup_first_match(self@, *d, i as int);
                }
                return self.entries[i].1;
            }
            i = i + 1;
        }
        proof {
            lemma_lookup_no_match(self@, *d);
        }
        0
    }

    /// Whether every recorded value lies within the engine's metric
    /// bound, as the dense-series builders ask.
    pub fn within_limit(&self) -> (r: bool)
        ensures
            r == bounded_entries(self@),
    {
        let mut i: usize = 0;
        while i < self.entries.len()
            invariant
                i <= self.entries@.len(),
                forall|k: int|
                    0 <= k < i ==> -VALUE_LIMIT <= (#[trigger] self.entries@[k]).1 <= VALUE_LIMIT,
            decreases self.entries@.len() - i,
        {
            let v = self.entries[i].1;
            if v < -VALUE_LIMIT || v > VALUE_LIMIT {
                return false;
            }
            i = i + 1;
        }
        true
    }

    /// Adds `v` to the metric recorded for bucket `d` (starting from the
    /// zero default when the bucket is absent).
    pub fn add_to(&mut self, d: Date, v: i64)
        requires
            i64::MIN <= spec_lookup(old(self)@, d) + v <= i64::MAX,
        ensures
            spec_lookup(final(self)@, d) == spec_lookup(old(self)@, d) + v,
            forall|x: Date| x != d ==> spec_lookup(final(self)@, x) == spec_lookup(old(self)@, x),
            bounded_entries(old(self)@) && -VALUE_LIMIT <= spec_lookup(old(self)@, d) + v
                <= VALUE_LIMIT ==> bounded_entries(final(self)@),
    {
        let ghost s0 = self.entries@;
        let mut i: usize = 0;
        while i < self.entries.len()
            invariant
                self.entries@ == s0,
                old(self)@ == s0,
                i <= s0.len(),
                i64::MIN <= spec_lookup(s0, d) + v <= i64::MAX,
                forall|k: int| 0 <= k < i ==> (#[trigger] s0[k]).0 != d,
            decreases s0.len() - i,
        {
            if self.entries[i].0 == d {
                proof {
                    lemma_lookup_first_match(s0, d, i as int);
                }
                let cur = self.entries[i].1;
                self.entries.set(i, (d, cur + v));
                proof {
                    assert forall|x: Date| x != d implies spec_lookup(self.entries@, x)
                        == spec_lookup(s0, x) by {
                        lemma_lookup_update(s0, d, i as int, (cur + v) as i64, x);
                    }
                    lemma_lookup_update(s0, d, i as int, (cur + v) as i64, d);
                }
                return ;
            }
            i = i + 1;
        }
        proof {
            lemma_lookup_no_match(s0, d);
        }
        self.entries.push((d, v));
        proof {
            assert forall|x: Date| x != d implies spec_lookup(self.entries@, x) == spec_lookup(
                s0,
                x,
            ) by {
                lemma_lookup_push(s0, d, v, x);
            }
            lemma_lookup_push(s0, d, v, d);
        }
    }
}

} // verus!
