use vstd::prelude::*;
use vstd::string::StringExecFns;

use crate::date::Date;
use crate::dense::{MinutesRecord, build_time_series};
use crate::period::{WindowKind, last_12_weeks, spec_bucket_dates};
use crate::rollover::{spec_week_start_of_ms, week_start_date};
use crate::sparse::{SparseSeries, spec_lookup};
use crate::tz::{MS_MAX, MS_MIN, parse_iso8601_timestamp, rfc3339_ms};

verus! {

/// A timeline item as the location export hands it over: whether it is
/// a visit, the resolved place name (absent where the item has none),
/// and its start and end stamps as RFC 3339 strings.
pub struct VisitItem {
    pub is_visit: bool,
    pub place_name: Option<String>,
    pub start_date: String,
    pub end_date: String,
}

/// The item counts toward the named place's time: it is a visit there,
/// and both of its stamps parse to instants the engine accepts.
/// Items with malformed or out-of-range stamps are excluded from
/// aggregation rather than failing the whole call.
pub open spec fn counts_for(it: VisitItem, place: Seq<char>) -> bool {
    &&& it.is_visit
    &&& it.place_name is Some
    &&& it.place_name->Some_0@ == place
    &&& rfc3339_ms(it.start_date@) is Some
    &&& rfc3339_ms(it.end_date@) is Some
    &&& MS_MIN <= rfc3339_ms(it.start_date@)->Some_0 <= MS_MAX
    &&& MS_MIN <= rfc3339_ms(it.end_date@)->Some_0 <= MS_MAX
}

/// The instant the item started.
pub open spec fn item_start_ms(it: VisitItem) -> int {
    rfc3339_ms(it.start_date@)->Some_0 as int
}

/// How long the item lasted, in milliseconds.
pub open spec fn item_duration_ms(it: VisitItem) -> int {
    rfc3339_ms(it.end_date@)->Some_0 - rfc3339_ms(it.start_date@)->Some_0
}

/// The week bucket the item's start falls into.
pub open spec fn item_week(it: VisitItem) -> Date {
    spec_week_start_of_ms(item_start_ms(it))
}

/// Total time spent at `place` during the week starting on `week`,
/// summed over every item that counts.
pub open spec fn spec_place_week_ms(items: Seq<VisitItem>, place: Seq<char>, week: Date) -> int
    decreases items.len(),
{
    if items.len() == 0 {
        0
    } else {
        spec_place_week_ms(items.drop_last(), place, week) + if counts_for(items.last(), place)
            && item_week(items.last()) == week {
            item_duration_ms(items.last())
        } else {
            0
        }
    }
}

/// Church attendance for the trailing 12 weeks: one record per week of
/// the canonical weekly window, carrying the total time of the visits
/// to "Martin Luther Church" whose start falls in that week, and zero
/// for weeks without a visit.
pub fn get_last_12_weeks_stats(items: &Vec<VisitItem>, now_ms: i64) -> (r: Vec<MinutesRecord>)
    requires
        MS_MIN <= now_ms <= MS_MAX,
        items@.len() <= 1_000_000,
    ensures
        r@.len() == 12,
        forall|i: int|
            0 <= i < 12 ==> (#[trigger] r@[i]).date == spec_bucket_dates(
                WindowKind::Weekly,
                12,
                now_ms as int,
            )[i],
        forall|i: int|
            0 <= i < 12 ==> (#[trigger] r@[i]).time_ms == spec_place_week_ms(
                items@,
                "Martin Luther Church"@,
                r@[i].date,
            ),
{
    let period = last_12_weeks(now_ms);
    let church = String::from_str("Martin Luther Church");
    let mut weekly = SparseSeries::new();
    let mut i: usize = 0;
    while i < items.len()
        invariant
            i <= items@.len(),
            items@.len() <= 1_000_000,
            church@ == "Martin Luther Church"@,
            forall|d: Date| #[trigger]
                spec_lookup(weekly@, d) == spec_place_week_ms(
                    items@.take(i as int),
                    "Martin Luther Church"@,
                    d,
                ),
            forall|d: Date| #[trigger]
                spec_lookup(weekly@, d) <= (i as int) * 4_000_000_000_000 && spec_lookup(
                    weekly@,
                    d,
                ) >= -(i as int) * 4_000_000_000_000,
        decreases items@.len() - i,
    {
        let ghost prefix = items@.take(i as int);
        let ghost prefix1 = items@.take(i as int + 1);
        proof {
            assert(prefix1.drop_last() =~= prefix);
            assert(prefix1.last() == items@[i as int]);
        }
        let it = &items[i];
        if it.is_visit {
            match &it.place_name {
                Option::None => {},
                Option::Some(name) => {
                    if *name == church {
                        match parse_iso8601_timestamp(it.start_date.as_str()) {
                            Option::None => {},
                            Option::Some(start) => {
                                match parse_iso8601_timestamp(it.end_date.as_str()) {
                                    Option::None => {},
                                    Option::Some(end) => {
                                        if MS_MIN <= start && start <= MS_MAX && MS_MIN <= end
                                            && end <= MS_MAX {
                                            let wk = week_start_date(start);
                                            let ghost w0 = weekly@;
                                            weekly.add_to(wk, end - start);
                                            proof {
                                                assert forall|d: Date| #[trigger] spec_lookup(
                                                    weekly@,
                                                    d,
                                                ) == spec_place_week_ms(
                                                    prefix1,
                                                    "Martin Luther Church"@,
                                                    d,
                                                ) by {
                                                    if d != wk {
                                                        assert(spec_lookup(weekly@, d)
                                                            == spec_lookup(w0, d));
                                                    }
                                                }
                                            }
                                        }
                                    },
                                }
                            },
                        }
                    }
                },
            }
        }
        i = i + 1;
    }
    proof {
        assert(items@.take(items@.len() as int) =~= items@);
    }
    build_time_series(&period, &weekly)
}

/// Total time spent at one place.
pub struct PlaceStats {
    pub place_name: String,
    pub time_ms: i64,
}

/// The cutoff instant of the trailing six-month window: 182 days before
/// `now`.
pub open spec fn six_months_cutoff(now: int) -> int {
    now - 15_724_800_000
}

/// The item counts toward a place ranking: it is a visit with a resolved
/// place other than "Home", both stamps parse to instants the engine
/// accepts, and it started at or after the cutoff.
pub open spec fn qualifies_place(it: VisitItem, cutoff: int) -> bool {
    &&& it.is_visit
    &&& it.place_name is Some
    &&& it.place_name->Some_0@ != "Home"@
    &&& rfc3339_ms(it.start_date@) is Some
    &&& rfc3339_ms(it.end_date@) is Some
    &&& MS_MIN <= rfc3339_ms(it.start_date@)->Some_0 <= MS_MAX
    &&& MS_MIN <= rfc3339_ms(it.end_date@)->Some_0 <= MS_MAX
    &&& item_start_ms(it) >= cutoff
}

/// Total time spent at `place` since the cutoff, summed over every item
/// that counts toward the ranking.
pub open spec fn spec_place_total_ms(items: Seq<VisitItem>, cutoff: int, place: Seq<char>) -> int
    decreases items.len(),
{
    if items.len() == 0 {
        0
    } else {
        spec_place_total_ms(items.drop_last(), cutoff, place) + if qualifies_place(
            items.last(),
            cutoff,
        ) && items.last().place_name->Some_0@ == place {
            item_duration_ms(items.last())
        } else {
            0
        }
    }
}

/// The index of the place named `name`, or the length where absent.
fn find_place_index(out: &Vec<PlaceStats>, name: &String) -> (r: usize)
    ensures
        r <= out@.len(),
        r < out@.len() ==> out@[r as int].place_name@ == name@,
        forall|m: int| 0 <= m < r ==> (#[trigger] out@[m]).place_name@ != name@,
        r == out@.len() ==> forall|m: int| 0 <= m < out@.len() ==> (#[trigger] out@[m]).place_name@
            != name@,
{
    let mut k: usize = 0;
    while k < out.len()
        invariant
            k <= out@.len(),
            forall|m: int| 0 <= m < k ==> (#[trigger] out@[m]).place_name@ != name@,
        decreases out@.len() - k,
    {
        if out[k].place_name == *name {
            return k;
        }
        k = k + 1;
    }
    k
}

/// Accumulates, per place, the total time of the items that count
/// toward the ranking: each place that occurs appears exactly once,
/// with exactly the time its items contribute.
pub fn place_totals(items: &Vec<VisitItem>, cutoff_ms: i64) -> (out: Vec<PlaceStats>)
    requires
        items@.len() <= 1_000_000,
    ensures
        forall|a: int, b: int|
            0 <= a < b < out@.len() ==> (#[trigger] out@[a]).place_name@ != (
            #[trigger] out@[b]).place_name@,
        forall|k: int|
            0 <= k < out@.len() ==> (#[trigger] out@[k]).time_ms == spec_place_total_ms(
                items@,
                cutoff_ms as int,
                out@[k].place_name@,
            ),
        forall|j: int|
            0 <= j < items@.len() && qualifies_place(#[trigger] items@[j], cutoff_ms as int)
                ==> exists|k: int|
                0 <= k < out@.len() && (#[trigger] out@[k]).place_name@
                    == items@[j].place_name->Some_0@,
{
    let home = String::from_str("Home");
    let mut out: Vec<PlaceStats> = Vec::new();
    let mut i: usize = 0;
    while i < items.len()
        invariant
            i <= items@.len(),
            items@.len() <= 1_000_000,
            home@ == "Home"@,
            forall|a: int, b: int|
                0 <= a < b < out@.len() ==> (#[trigger] out@[a]).place_name@ != (
                #[trigger] out@[b]).place_name@,
            forall|k: int|
                0 <= k < out@.len() ==> (#[trigger] out@[k]).time_ms == spec_place_total_ms(
                    items@.take(i as int),
                    cutoff_ms as int,
                    out@[k].place_name@,
                ),
            forall|k: int|
                0 <= k < out@.len() ==> -(i as int) * 4_000_000_000_000 <= (
                #[trigger] out@[k]).time_ms <= (i as int) * 4_000_000_000_000,
            forall|j: int|
                0 <= j < i && qualifies_place(#[trigger] items@[j], cutoff_ms as int)
                    ==> exists|k: int|
                    0 <= k < out@.len() && (#[trigger] out@[k]).place_name@
                        == items@[j].place_name->Some_0@,
        decreases items@.len() - i,
    {
        let ghost prefix = items@.take(i as int);
        let ghost prefix1 = items@.take(i as int + 1);
        proof {
            assert(prefix1.drop_last() =~= prefix);
            assert(prefix1.last() == items@[i as int]);
        }
        let it = &items[i];
        let mut added = false;
        if it.is_visit {
            match &it.place_name {
                Option::None => {},
                Option::Some(name) => {
                    if !(*name == home) {
                        match parse_iso8601_timestamp(it.start_date.as_str()) {
                            Option::None => {},
                            Option::Some(start) => {
                                match parse_iso8601_timestamp(it.end_date.as_str()) {
                                    Option::None => {},
                                    Option::Some(end) => {
                                        if MS_MIN <= start && start <= MS_MAX && MS_MIN <= end
                                            && end <= MS_MAX && start >= cutoff_ms {
                                            let dur = end - start;
                                            let idx = find_place_index(&out, name);
                                            let ghost out0 = out@;
                                            if idx < out.len() {
                                                let cur = out[idx].time_ms;
                                                out.set(
                                                    idx,
                                                    PlaceStats {
                                                        place_name: name.clone(),
                                                        time_ms: cur + dur,
                                                    },
                                                );
                                                proof {
                                                    assert forall|j: int|
                                                        0 <= j < i + 1 && qualifies_place(
                                                            #[trigger] items@[j],
                                                            cutoff_ms as int,
                                                        ) implies exists|k: int|
                                                        0 <= k < out@.len() && (
                                                        #[trigger] out@[k]).place_name@
                                                            == items@[j].place_name->Some_0@ by {
                                                        if j < i {
                                                            let k0 = choose|k: int|
                                                                0 <= k < out0.len() && (
                                                                #[trigger] out0[k]).place_name@
                                                                    == items@[j].place_name->Some_0@;
                                                            assert(out@[k0].place_name@
                                                                == out0[k0].place_name@);
                                                        } else {
                                                            assert(out@[idx as int].place_name@
                                                                == name@);
                                                        }
                                                    }
                                                }
                                            } else {
                                                out.push(
                                                    PlaceStats {
                                                        place_name: name.clone(),
                                                        time_ms: dur,
                                                    },
                                                );
                                                proof {
                                                    lemma_place_total_absent(
                                                        prefix,
                                                        cutoff_ms as int,
                                                        name@,
                                                    );
                                                    assert forall|j: int|
                                                        0 <= j < i + 1 && qualifies_place(
                                                            #[trigger] items@[j],
                                                            cutoff_ms as int,
                                                        ) implies exists|k: int|
                                                        0 <= k < out@.len() && (
                                                        #[trigger] out@[k]).place_name@
                                                            == items@[j].place_name->Some_0@ by {
                                                        if j < i {
                                                            let k0 = choose|k: int|
                                                                0 <= k < out0.len() && (
                                                                #[trigger] out0[k]).place_name@
                                                                    == items@[j].place_name->Some_0@;
                                                            assert(out@[k0].place_name@
                                                                == out0[k0].place_name@);
                                                        } else {
                                                            assert(out@[out@.len()
                                                                - 1].place_name@ == name@);
                                                        }
                                                    }
                                                }
                                            }
                                            added = true;
                                        }
                                    },
                                }
                            },
                        }
                    }
                },
            }
        }
        proof {
            if !added {
                assert(!qualifies_place(items@[i as int], cutoff_ms as int));
            }
        }
        i = i + 1;
    }
    proof {
        assert(items@.take(items@.len() as int) =~= items@);
    }
    out
}

proof fn lemma_place_total_absent(items: Seq<VisitItem>, cutoff: int, place: Seq<char>)
    requires
        forall|j: int|
            0 <= j < items.len() ==> !(qualifies_place(#[trigger] items[j], cutoff)
                && items[j].place_name->Some_0@ == place),
    ensures
        spec_place_total_ms(items, cutoff, place) == 0,
    decreases items.len(),
{
    if items.len() > 0 {
        lemma_place_total_absent(items.drop_last(), cutoff, place);
    }
}

/// The index of a record with the largest total.
fn max_index(v: &Vec<PlaceStats>) -> (r: usize)
    requires
        v@.len() > 0,
    ensures
        r < v@.len(),
        forall|j: int| 0 <= j < v@.len() ==> (#[trigger] v@[j]).time_ms <= v@[r as int].time_ms,
{
    let mut best: usize = 0;
    let mut k: usize = 1;
    while k < v.len()
        invariant
            best < k <= v@.len(),
            forall|j: int| 0 <= j < k ==> (#[trigger] v@[j]).time_ms <= v@[best as int].time_ms,
        decreases v@.len() - k,
    {
        if v[k].time_ms > v[best].time_ms {
            best = k;
        }
        k = k + 1;
    }
    best
}

/// The places with the most time since the six-month cutoff, best
/// first, at most `limit` of them, excluding "Home".  Each returned
/// record carries exactly the place's total over the items that count.
pub fn get_top_places_last_6_months(items: &Vec<VisitItem>, now_ms: i64, limit: usize) -> (r: Vec<
    PlaceStats,
>)
    requires
        MS_MIN <= now_ms <= MS_MAX,
        items@.len() <= 1_000_000,
    ensures
        r@.len() <= limit,
        forall|a: int, b: int| 0 <= a < b < r@.len() ==> (#[trigger] r@[a]).time_ms >= (
        #[trigger] r@[b]).time_ms,
        forall|a: int, b: int|
            0 <= a < b < r@.len() ==> (#[trigger] r@[a]).place_name@ != (
            #[trigger] r@[b]).place_name@,
        forall|k: int|
            0 <= k < r@.len() ==> (#[trigger] r@[k]).time_ms == spec_place_total_ms(
                items@,
                six_months_cutoff(now_ms as int),
                r@[k].place_name@,
            ),
        forall|j: int|
            0 <= j < items@.len() && qualifies_place(
                #[trigger] items@[j],
                six_months_cutoff(now_ms as int),
            ) && r@.len() < limit ==> exists|k: int|
                0 <= k < r@.len() && (#[trigger] r@[k]).place_name@
                    == items@[j].place_name->Some_0@,
        forall|j: int|
            0 <= j < items@.len() && qualifies_place(
                #[trigger] items@[j],
                six_months_cutoff(now_ms as int),
            ) && r@.len() > 0 && !(exists|k: int|
                0 <= k < r@.len() && (#[trigger] r@[k]).place_name@
                    == items@[j].place_name->Some_0@) ==> spec_place_total_ms(
                items@,
                six_months_cutoff(now_ms as int),
                items@[j].place_name->Some_0@,
            ) <= r@[r@.len() - 1].time_ms,
{
    let cutoff = now_ms - 15_724_800_000;
    let mut rest = place_totals(items, cutoff);
    let mut r: Vec<PlaceStats> = Vec::new();
    while r.len() < limit && rest.len() > 0
        invariant
            r@.len() <= limit,
            forall|a: int, b: int| 0 <= a < b < r@.len() ==> (#[trigger] r@[a]).time_ms >= (
            #[trigger] r@[b]).time_ms,
            r@.len() > 0 ==> forall|j: int|
                0 <= j < rest@.len() ==> (#[trigger] rest@[j]).time_ms <= r@[r@.len()
                    - 1].time_ms,
            forall|k: int|
                0 <= k < r@.len() ==> (#[trigger] r@[k]).time_ms == spec_place_total_ms(
                    items@,
                    cutoff as int,
                    r@[k].place_name@,
                ),
            forall|k: int|
                0 <= k < rest@.len() ==> (#[trigger] rest@[k]).time_ms == spec_place_total_ms(
                    items@,
                    cutoff as int,
                    rest@[k].place_name@,
                ),
            forall|a: int, b: int|
                0 <= a < b < r@.len() ==> (#[trigger] r@[a]).place_name@ != (
                #[trigger] r@[b]).place_name@,
            forall|a: int, b: int|
                0 <= a < b < rest@.len() ==> (#[trigger] rest@[a]).place_name@ != (
                #[trigger] rest@[b]).place_name@,
            forall|a: int, b: int|
                0 <= a < r@.len() && 0 <= b < rest@.len() ==> (#[trigger] r@[a]).place_name@ != (
                #[trigger] rest@[b]).place_name@,
            forall|j: int|
                0 <= j < items@.len() && qualifies_place(#[trigger] items@[j], cutoff as int)
                    ==> (exists|k: int|
                    0 <= k < r@.len() && (#[trigger] r@[k]).place_name@
                        == items@[j].place_name->Some_0@) || (exists|k: int|
                    0 <= k < rest@.len() && (#[trigger] rest@[k]).place_name@
                        == items@[j].place_name->Some_0@),
        decreases rest@.len(),
    {
        let m = max_index(&rest);
        let ghost rest0 = rest@;
        let ghost r0 = r@;
        let x = rest.remove(m);
        r.push(x);
        proof {
            assert(rest@ =~= rest0.subrange(0, m as int).add(
                rest0.subrange(m as int + 1, rest0.len() as int),
            ));
            assert(forall|k: int| 0 <= k < m ==> rest@[k] == rest0[k]);
            assert(forall|k: int|
                m <= k < rest@.len() ==> rest@[k] == rest0[k + 1]);
            assert forall|j: int|
                0 <= j < items@.len() && qualifies_place(#[trigger] items@[j], cutoff as int)
                    implies (exists|k: int|
                    0 <= k < r@.len() && (#[trigger] r@[k]).place_name@
                        == items@[j].place_name->Some_0@) || (exists|k: int|
                    0 <= k < rest@.len() && (#[trigger] rest@[k]).place_name@
                        == items@[j].place_name->Some_0@) by {
                let nm = items@[j].place_name->Some_0@;
                if exists|k: int| 0 <= k < r0.len() && (#[trigger] r0[k]).place_name@ == nm {
                    let k0 = choose|k: int|
                        0 <= k < r0.len() && (#[trigger] r0[k]).place_name@ == nm;
                    assert(r@[k0].place_name@ == nm);
                } else {
                    let k0 = choose|k: int|
                        0 <= k < rest0.len() && (#[trigger] rest0[k]).place_name@ == nm;
                    if k0 == m {
                        assert(r@[r@.len() - 1].place_name@ == nm);
                    } else if k0 < m {
                        assert(rest@[k0].place_name@ == nm);
                    } else {
                        assert(rest@[k0 - 1].place_name@ == nm);
                    }
                }
            }
        }
    }
    proof {
        let cutoff_i = six_months_cutoff(now_ms as int);
        assert forall|j: int|
            0 <= j < items@.len() && qualifies_place(#[trigger] items@[j], cutoff_i) && r@.len()
                > 0 && !(exists|k: int|
                0 <= k < r@.len() && (#[trigger] r@[k]).place_name@
                    == items@[j].place_name->Some_0@) implies spec_place_total_ms(
            items@,
            cutoff_i,
            items@[j].place_name->Some_0@,
        ) <= r@[r@.len() - 1].time_ms by {
            let nm = items@[j].place_name->Some_0@;
            let k0 = choose|k: int|
                0 <= k < rest@.len() && (#[trigger] rest@[k]).place_name@ == nm;
            assert(rest@[k0].time_ms == spec_place_total_ms(items@, cutoff_i, nm));
        }
    }
    r
}

} // verus!
