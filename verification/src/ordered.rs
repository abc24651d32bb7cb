//! Sorting with duplicates removed, the normal form EventKit rule lists are
//! compared in: integers in increasing order, weekdays in (weekday, week)
//! order.

use crate::models::EventRecurrenceWeekdayReport;
use vstd::prelude::*;

verus! {

/// Every element is smaller than the next ones.
pub open spec fn strictly_increasing(s: Seq<i32>) -> bool {
    forall|i: int, j: int| 0 <= i < j < s.len() ==> s[i] < s[j]
}

/// `s` and `t` hold the same values (with any repetition).
pub open spec fn same_values<T>(s: Seq<T>, t: Seq<T>) -> bool {
    forall|x: T| s.contains(x) <==> t.contains(x)
}

/// `s` is `t` sorted with duplicates removed.
pub open spec fn sorted_unique_of(s: Seq<i32>, t: Seq<i32>) -> bool {
    strictly_increasing(s) && same_values(s, t)
}

/// The order of weekday entries: by weekday, then by week number.
pub open spec fn weekday_before(a: EventRecurrenceWeekdayReport, b: EventRecurrenceWeekdayReport) -> bool {
    a.weekday < b.weekday || (a.weekday == b.weekday && a.week_number < b.week_number)
}

/// Every weekday entry comes before the next ones.
pub open spec fn weekdays_increasing(s: Seq<EventRecurrenceWeekdayReport>) -> bool {
    forall|i: int, j: int| 0 <= i < j < s.len() ==> weekday_before(s[i], s[j])
}

/// `s` is `t` sorted with duplicates removed.
pub open spec fn sorted_unique_weekdays_of(
    s: Seq<EventRecurrenceWeekdayReport>,
    t: Seq<EventRecurrenceWeekdayReport>,
) -> bool {
    weekdays_increasing(s) && same_values(s, t)
}

/// Inserts `x` into a strictly increasing vector unless it is present.
fn insert_sorted(v: &mut Vec<i32>, x: i32)
    requires
        strictly_increasing(old(v)@),
    ensures
        strictly_increasing(final(v)@),
        forall|y: i32| final(v)@.contains(y) <==> (old(v)@.contains(y) || y == x),
{
    let mut p: usize = 0;
    while p < v.len() && v[p] < x
        invariant
            p <= v@.len(),
            forall|k: int| 0 <= k < p ==> v@[k] < x,
            v@ == old(v)@,
        decreases v.len() - p,
    {
        p = p + 1;
    }
    if p < v.len() && v[p] == x {
        assert(v@.contains(x));
        assert(forall|y: i32| v@.contains(y) <==> (old(v)@.contains(y) || y == x));
        return;
    }
    let ghost before = v@;
    assert(before == old(v)@);
    v.insert(p, x);
    proof {
        assert forall|y: i32| v@.contains(y) <==> (old(v)@.contains(y) || y == x) by {
            if v@.contains(y) {
                let k = choose|k: int| 0 <= k < v@.len() && v@[k] == y;
                if k < p {
                    assert(before[k] == y);
                } else if k > p {
                    assert(before[k - 1] == y);
                }
            }
            if before.contains(y) {
                let k = choose|k: int| 0 <= k < before.len() && before[k] == y;
                if k < p {
                    assert(v@[k] == y);
                } else {
                    assert(v@[k + 1] == y);
                }
            }
            if y == x {
                assert(v@[p as int] == x);
            }
        }
    }
}

/// The values of `v` in increasing order, each once (`sort_unstable` then
/// `dedup`).
pub fn sorted_unique(v: &Vec<i32>) -> (r: Vec<i32>)
    ensures
        sorted_unique_of(r@, v@),
{
    let mut out: Vec<i32> = Vec::new();
    let mut i: usize = 0;
    while i < v.len()
        invariant
            i <= v@.len(),
            strictly_increasing(out@),
            forall|y: i32| out@.contains(y) <==> v@.take(i as int).contains(y),
        decreases v.len() - i,
    {
        let ghost prev = out@;
        insert_sorted(&mut out, v[i]);
        proof {
            assert forall|y: i32| v@.take(i + 1).contains(y) <==> (v@.take(i as int).contains(y) || y
                == v@[i as int]) by {
                if v@.take(i + 1).contains(y) {
                    let k = choose|k: int| 0 <= k < i + 1 && #[trigger] v@.take(i + 1)[k] == y;
                    if k < i {
                        assert(v@.take(i as int)[k] == y);
                    }
                }
                if v@.take(i as int).contains(y) {
                    let k = choose|k: int| 0 <= k < i && #[trigger] v@.take(i as int)[k] == y;
                    assert(v@.take(i + 1)[k] == y);
                }
                if y == v@[i as int] {
                    assert(v@.take(i + 1)[i as int] == y);
                }
            }
        }
        assert(forall|y: i32| out@.contains(y) <==> v@.take(i + 1).contains(y));
        i = i + 1;
    }
    assert(v@.take(v.len() as int) =~= v@);
    out
}

/// Whether `a` precedes `b` in weekday order.
fn weekday_lt(a: EventRecurrenceWeekdayReport, b: EventRecurrenceWeekdayReport) -> (r: bool)
    ensures
        r == weekday_before(a, b),
{
    a.weekday < b.weekday || (a.weekday == b.weekday && a.week_number < b.week_number)
}

/// Inserts a weekday entry into an ordered vector unless it is present.
fn insert_weekday(v: &mut Vec<EventRecurrenceWeekdayReport>, x: EventRecurrenceWeekdayReport)
    requires
        weekdays_increasing(old(v)@),
    ensures
        weekdays_increasing(final(v)@),
        forall|y: EventRecurrenceWeekdayReport| final(v)@.contains(y) <==> (old(v)@.contains(y) || y
            == x),
{
    let mut p: usize = 0;
    while p < v.len() && weekday_lt(v[p], x)
        invariant
            p <= v@.len(),
            forall|k: int| 0 <= k < p ==> weekday_before(v@[k], x),
            v@ == old(v)@,
        decreases v.len() - p,
    {
        p = p + 1;
    }
    if p < v.len() && v[p].weekday == x.weekday && v[p].week_number == x.week_number {
        assert(v@[p as int] == x);
        assert(v@.contains(x));
        assert(forall|y: EventRecurrenceWeekdayReport| v@.contains(y) <==> (old(v)@.contains(y) || y == x));
        return;
    }
    let ghost before = v@;
    assert(before == old(v)@);
    proof {
        if p < before.len() {
            assert(!weekday_before(before[p as int], x));
            assert(weekday_before(x, before[p as int]));
        }
    }
    v.insert(p, x);
    proof {
        assert forall|i: int, j: int| 0 <= i < j < v@.len() implies weekday_before(
            v@[i],
            v@[j],
        ) by {
            if j < p {
                assert(v@[i] == before[i] && v@[j] == before[j]);
            } else if j == p {
                assert(v@[i] == before[i]);
            } else if i < p {
                assert(v@[i] == before[i] && v@[j] == before[j - 1]);
                assert(weekday_before(before[i], x));
                assert(weekday_before(x, before[p as int]));
                if j - 1 > p {
                    assert(weekday_before(before[p as int], before[j - 1]));
                }
            } else if i == p {
                assert(v@[j] == before[j - 1]);
                if j - 1 > p {
                    assert(weekday_before(before[p as int], before[j - 1]));
                }
            } else {
                assert(v@[i] == before[i - 1] && v@[j] == before[j - 1]);
            }
        }
        assert forall|y: EventRecurrenceWeekdayReport| v@.contains(y) <==> (old(v)@.contains(y) || y
            == x) by {
            if v@.contains(y) {
                let k = choose|k: int| 0 <= k < v@.len() && v@[k] == y;
                if k < p {
                    assert(before[k] == y);
                } else if k > p {
                    assert(before[k - 1] == y);
                }
            }
            if before.contains(y) {
                let k = choose|k: int| 0 <= k < before.len() && before[k] == y;
                if k < p {
                    assert(v@[k] == y);
                } else {
                    assert(v@[k + 1] == y);
                }
            }
            if y == x {
                assert(v@[p as int] == x);
            }
        }
    }
}

/// The weekday entries of `v` in (weekday, week) order, each once.
pub fn sorted_unique_weekdays(v: &Vec<EventRecurrenceWeekdayReport>) -> (r: Vec<
    EventRecurrenceWeekdayReport,
>)
    ensures
        sorted_unique_weekdays_of(r@, v@),
{
    let mut out: Vec<EventRecurrenceWeekdayReport> = Vec::new();
    let mut i: usize = 0;
    while i < v.len()
        invariant
            i <= v@.len(),
            weekdays_increasing(out@),
            forall|y: EventRecurrenceWeekdayReport| out@.contains(y) <==> v@.take(
                i as int,
            ).contains(y),
        decreases v.len() - i,
    {
        let ghost prev = out@;
        insert_weekday(&mut out, v[i]);
        proof {
            assert forall|y: EventRecurrenceWeekdayReport| v@.take(i + 1).contains(y) <==> (v@.take(
                i as int,
            ).contains(y) || y == v@[i as int]) by {
                if v@.take(i + 1).contains(y) {
                    let k = choose|k: int| 0 <= k < i + 1 && #[trigger] v@.take(i + 1)[k] == y;
                    if k < i {
                        assert(v@.take(i as int)[k] == y);
                    }
                }
                if v@.take(i as int).contains(y) {
                    let k = choose|k: int| 0 <= k < i && #[trigger] v@.take(i as int)[k] == y;
                    assert(v@.take(i + 1)[k] == y);
                }
                if y == v@[i as int] {
                    assert(v@.take(i + 1)[i as int] == y);
                }
            }
        }
        assert(forall|y: EventRecurrenceWeekdayReport| out@.contains(y) <==> v@.take(i + 1).contains(y));
        i = i + 1;
    }
    assert(v@.take(v.len() as int) =~= v@);
    out
}

/// A strictly increasing list is the only sorted, duplicate-free form of its
/// values: two such lists with the same values are equal.
pub proof fn sorted_unique_is_unique(s: Seq<i32>, t: Seq<i32>)
    requires
        strictly_increasing(s),
        strictly_increasing(t),
        same_values(s, t),
    ensures
        s == t,
    decreases s.len() + t.len(),
{
    if s.len() == 0 {
        if t.len() > 0 {
            assert(t.contains(t[0]));
        }
        assert(s =~= t);
    } else if t.len() == 0 {
        assert(s.contains(s[0]));
    } else {
        assert(s.contains(s[0]));
        assert(t.contains(t[0]));
        let i = choose|i: int| 0 <= i < t.len() && t[i] == s[0];
        let j = choose|j: int| 0 <= j < s.len() && s[j] == t[0];
        if i > 0 {
            assert(t[0] < t[i]);
            if j > 0 {
                assert(s[0] < s[j]);
            }
        }
        assert(s[0] == t[0]);
        let s1 = s.drop_first();
        let t1 = t.drop_first();
        assert forall|x: i32| s1.contains(x) <==> t1.contains(x) by {
            if s1.contains(x) {
                let k = choose|k: int| 0 <= k < s1.len() && s1[k] == x;
                assert(s[k + 1] == x);
                assert(s.contains(x));
                let m = choose|m: int| 0 <= m < t.len() && t[m] == x;
                if m == 0 {
                    assert(s[0] < s[k + 1]);
                }
                assert(t1[m - 1] == x);
            }
            if t1.contains(x) {
                let k = choose|k: int| 0 <= k < t1.len() && t1[k] == x;
                assert(t[k + 1] == x);
                assert(t.contains(x));
                let m = choose|m: int| 0 <= m < s.len() && s[m] == x;
                if m == 0 {
                    assert(t[0] < t[k + 1]);
                }
                assert(s1[m - 1] == x);
            }
        }
        sorted_unique_is_unique(s1, t1);
        assert(s =~= seq![s[0]] + s1);
        assert(t =~= seq![t[0]] + t1);
    }
}

/// The weekday form of `sorted_unique_is_unique`: two ordered, duplicate-free
/// weekday lists with the same entries are equal.
pub proof fn sorted_unique_weekdays_is_unique(
    s: Seq<EventRecurrenceWeekdayReport>,
    t: Seq<EventRecurrenceWeekdayReport>,
)
    requires
        weekdays_increasing(s),
        weekdays_increasing(t),
        same_values(s, t),
    ensures
        s == t,
    decreases s.len() + t.len(),
{
    if s.len() == 0 {
        if t.len() > 0 {
            assert(t.contains(t[0]));
        }
        assert(s =~= t);
    } else if t.len() == 0 {
        assert(s.contains(s[0]));
    } else {
        assert(s.contains(s[0]));
        assert(t.contains(t[0]));
        let i = choose|i: int| 0 <= i < t.len() && t[i] == s[0];
        let j = choose|j: int| 0 <= j < s.len() && s[j] == t[0];
        if i > 0 {
            assert(weekday_before(t[0], t[i]));
            if j > 0 {
                assert(weekday_before(s[0], s[j]));
            }
        }
        assert(s[0] == t[0]);
        let s1 = s.drop_first();
        let t1 = t.drop_first();
        assert forall|x: EventRecurrenceWeekdayReport| s1.contains(x) <==> t1.contains(x) by {
            if s1.contains(x) {
                let k = choose|k: int| 0 <= k < s1.len() && s1[k] == x;
                assert(s[k + 1] == x);
                assert(s.contains(x));
                let m = choose|m: int| 0 <= m < t.len() && t[m] == x;
                if m == 0 {
                    assert(weekday_before(s[0], s[k + 1]));
                }
                assert(t1[m - 1] == x);
            }
            if t1.contains(x) {
                let k = choose|k: int| 0 <= k < t1.len() && t1[k] == x;
                assert(t[k + 1] == x);
                assert(t.contains(x));
                let m = choose|m: int| 0 <= m < s.len() && s[m] == x;
                if m == 0 {
                    assert(weekday_before(t[0], t[k + 1]));
                }
                assert(s1[m - 1] == x);
            }
        }
        sorted_unique_weekdays_is_unique(s1, t1);
        assert(s =~= seq![s[0]] + s1);
        assert(t =~= seq![t[0]] + t1);
    }
}

/// Element-wise equality of two integer lists.
pub fn ints_equal(a: &Vec<i32>, b: &Vec<i32>) -> (r: bool)
    ensures
        r == (a@ == b@),
{
    if a.len() != b.len() {
        return false;
    }
    let mut i: usize = 0;
    while i < a.len()
        invariant
            a@.len() == b@.len(),
            i <= a@.len(),
            forall|k: int| 0 <= k < i ==> a@[k] == b@[k],
        decreases a.len() - i,
    {
        if a[i] != b[i] {
            return false;
        }
        i = i + 1;
    }
    assert(a@ =~= b@);
    true
}

/// Element-wise equality of two weekday lists.
pub fn weekdays_equal(a: &Vec<EventRecurrenceWeekdayReport>, b: &Vec<EventRecurrenceWeekdayReport>) -> (r:
    bool)
    ensures
        r == (a@ == b@),
{
    if a.len() != b.len() {
        return false;
    }
    let mut i: usize = 0;
    while i < a.len()
        invariant
            a@.len() == b@.len(),
            i <= a@.len(),
            forall|k: int| 0 <= k < i ==> a@[k] == b@[k],
        decreases a.len() - i,
    {
        if a[i].weekday != b[i].weekday || a[i].week_number != b[i].week_number {
            return false;
        }
        i = i + 1;
    }
    assert(a@ =~= b@);
    true
}

} // verus!
