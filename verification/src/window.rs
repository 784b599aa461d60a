//! Sequences of price points: time order, the slots still ahead, counting
//! and searching by price.

use vstd::prelude::*;
use crate::order::has_key;
use crate::order::insert_by;
use crate::order::lemma_insert_by_position;
use crate::order::lemma_sort_by_key;
use crate::order::ordered_by;
use crate::order::sort_by_key;
use crate::tibber::PricePoint;

verus! {

/// Key of the time order: the second a slot starts.
pub open spec fn by_start() -> spec_fn(PricePoint) -> int {
    |p: PricePoint| p.starts_at.secs as int
}

/// Key of the price order: the value itself.
pub open spec fn by_value() -> spec_fn(i64) -> int {
    |x: i64| x as int
}

/// No slot starts before an earlier one in the sequence.
pub open spec fn chronological(s: Seq<PricePoint>) -> bool {
    ordered_by(s, by_start())
}

/// The slots in time order; slots that start in the same second keep their
/// order.
pub open spec fn in_time_order(s: Seq<PricePoint>) -> Seq<PricePoint> {
    sort_by_key(s, by_start())
}

/// The test "starts at `now` or later".
pub open spec fn not_before(now: int) -> spec_fn(PricePoint) -> bool {
    |p: PricePoint| p.starts_at.secs >= now
}

/// The slots of `s` that start at `now` or later, in the order of `s`.
pub open spec fn ahead(s: Seq<PricePoint>, now: int) -> Seq<PricePoint> {
    s.filter(not_before(now))
}

/// The test "costs at most `threshold`".
pub open spec fn priced_at_most(threshold: int) -> spec_fn(PricePoint) -> bool {
    |p: PricePoint| p.total <= threshold
}

/// How many slots of `s` cost at most `threshold`.
pub open spec fn count_at_most(s: Seq<PricePoint>, threshold: int) -> nat {
    s.filter(priced_at_most(threshold)).len()
}

/// The total prices of the slots, in the order of `s`.
pub open spec fn totals(s: Seq<PricePoint>) -> Seq<i64> {
    s.map_values(|p: PricePoint| p.total)
}

/// The total prices of the slots from lowest to highest.
pub open spec fn ascending_totals(s: Seq<PricePoint>) -> Seq<i64> {
    sort_by_key(totals(s), by_value())
}

/// A test on a slot's total price.
#[derive(Clone, Copy, Debug, PartialEq, Eq, Structural)]
pub enum PriceTest {
    AtMost(i64),
    Above(i64),
    AtLeast(i64),
}

impl PriceTest {
    /// Whether a total price passes the test.
    pub open spec fn admits(self, total: i64) -> bool {
        match self {
            PriceTest::AtMost(limit) => total <= limit,
            PriceTest::Above(limit) => total > limit,
            PriceTest::AtLeast(limit) => total >= limit,
        }
    }

    /// Executable `admits`.
    pub fn check(&self, total: i64) -> (passes: bool)
        ensures
            passes == self.admits(total),
    {
        match self {
            PriceTest::AtMost(limit) => total <= *limit,
            PriceTest::Above(limit) => total > *limit,
            PriceTest::AtLeast(limit) => total >= *limit,
        }
    }
}

/// The index of the first slot at or after `from` that passes `test`, or the
/// length of `s` when none does.
pub open spec fn first_match(s: Seq<PricePoint>, test: PriceTest, from: int) -> int
    decreases s.len() - from,
{
    if from < 0 || from >= s.len() {
        s.len() as int
    } else if test.admits(s[from].total) {
        from
    } else {
        first_match(s, test, from + 1)
    }
}

/// `first_match` returns the least passing index from `from` on.
pub proof fn lemma_first_match(s: Seq<PricePoint>, test: PriceTest, from: int)
    requires
        0 <= from <= s.len(),
    ensures
        from <= first_match(s, test, from) <= s.len(),
        first_match(s, test, from) < s.len() ==> test.admits(
            s[first_match(s, test, from)].total,
        ),
        forall|k: int| from <= k < first_match(s, test, from) ==> !test.admits((#[trigger] s[k]).total),
    decreases s.len() - from,
{
    if from < s.len() && !test.admits(s[from].total) {
        lemma_first_match(s, test, from + 1);
    }
}

/// Dropping the slots before an instant leaves the others in time order.
pub proof fn lemma_ahead_keeps_time_order(s: Seq<PricePoint>, now: int)
    requires
        chronological(s),
    ensures
        chronological(ahead(s, now)),
    decreases s.len(),
{
    let pred = not_before(now);
    let key = by_start();
    if s.len() == 0 {
        s.lemma_filter_len(pred);
    } else {
        let front = s.drop_last();
        let last = s.last();
        assert(s =~= front.push(last));
        assert forall|i: int, j: int| 0 <= i < j < front.len() implies key(front[i]) <= key(
            front[j],
        ) by {
            assert(front[i] == s[i] && front[j] == s[j]);
        }
        lemma_ahead_keeps_time_order(front, now);
        front.lemma_filter_push(last, pred);
        let kept = ahead(front, now);
        assert forall|i: int, j: int| 0 <= i < j < ahead(s, now).len() implies key(
            ahead(s, now)[i],
        ) <= key(ahead(s, now)[j]) by {
            if j < kept.len() {
                assert(key(kept[i]) <= key(kept[j]));
            } else {
                assert(kept.contains(kept[i]));
                front.lemma_filter_contains_rev(pred, kept[i]);
                let m = choose|m: int| 0 <= m < front.len() && front[m] == kept[i];
                assert(key(s[m]) <= key(s[s.len() - 1]));
            }
        }
    }
}

/// Places `p` into a vector without disturbing the order of what is there:
/// behind the last slot that starts no later than `p`.
pub fn insert_in_time_order(v: &mut Vec<PricePoint>, p: PricePoint)
    ensures
        final(v)@ == insert_by(old(v)@, p, by_start()),
{
    let mut pos: usize = v.len();
    while pos > 0 && v[pos - 1].starts_at.secs > p.starts_at.secs
        invariant
            pos <= v.len(),
            v@ == old(v)@,
            forall|k: int| pos <= k < v.len() ==> (#[trigger] v@[k]).starts_at.secs > p.starts_at.secs,
        decreases pos,
    {
        pos = pos - 1;
    }
    proof {
        let key = by_start();
        assert forall|k: int| pos <= k < v@.len() implies key(#[trigger] v@[k]) > key(p) by {}
        lemma_insert_by_position(v@, p, key, pos as int);
    }
    v.insert(pos, p);
}

/// The slots of `a` followed by those of `b`, brought into time order.
pub fn merged_in_time_order(a: &Vec<PricePoint>, b: &Vec<PricePoint>) -> (merged: Vec<PricePoint>)
    ensures
        merged@ == in_time_order(a@ + b@),
        chronological(merged@),
        merged@.len() == a@.len() + b@.len(),
        merged@.to_multiset() == (a@ + b@).to_multiset(),
        forall|t: int| #[trigger]
            merged@.filter(has_key(by_start(), t)) == (a@ + b@).filter(has_key(by_start(), t)),
{
    let mut merged: Vec<PricePoint> = Vec::new();
    let mut i: usize = 0;
    while i < a.len()
        invariant
            i <= a.len(),
            merged@ == in_time_order(a@.take(i as int)),
        decreases a.len() - i,
    {
        proof {
            assert(a@.take(i + 1).drop_last() =~= a@.take(i as int));
        }
        insert_in_time_order(&mut merged, a[i]);
        i = i + 1;
    }
    proof {
        assert(a@.take(i as int) =~= a@ + b@.take(0));
    }
    let mut j: usize = 0;
    while j < b.len()
        invariant
            j <= b.len(),
            merged@ == in_time_order(a@ + b@.take(j as int)),
        decreases b.len() - j,
    {
        proof {
            assert((a@ + b@.take(j + 1)).drop_last() =~= a@ + b@.take(j as int));
        }
        insert_in_time_order(&mut merged, b[j]);
        j = j + 1;
    }
    proof {
        assert(b@.take(j as int) =~= b@);
        lemma_sort_by_key(a@ + b@, by_start());
    }
    merged
}

/// The slots of `v` that start at `now` or later.
pub fn slots_ahead(v: &Vec<PricePoint>, now: i64) -> (kept: Vec<PricePoint>)
    ensures
        kept@ == ahead(v@, now as int),
{
    let mut kept: Vec<PricePoint> = Vec::new();
    let mut i: usize = 0;
    proof {
        assert(v@.take(0).filter(not_before(now as int)) =~= Seq::<PricePoint>::empty()) by {
            reveal(Seq::filter);
        }
    }
    while i < v.len()
        invariant
            i <= v.len(),
            kept@ == ahead(v@.take(i as int), now as int),
        decreases v.len() - i,
    {
        proof {
            assert(v@.take(i + 1) =~= v@.take(i as int).push(v@[i as int]));
            v@.take(i as int).lemma_filter_push(v@[i as int], not_before(now as int));
        }
        if v[i].starts_at.secs >= now {
            kept.push(v[i]);
        }
        i = i + 1;
    }
    proof {
        assert(v@.take(i as int) =~= v@);
    }
    kept
}

/// How many slots of `v` cost at most `threshold`.
pub fn count_slots_below_threshold(v: &Vec<PricePoint>, threshold: i64) -> (count: usize)
    ensures
        count == count_at_most(v@, threshold as int),
        count <= v@.len(),
{
    let mut count: usize = 0;
    let mut i: usize = 0;
    proof {
        assert(v@.take(0).filter(priced_at_most(threshold as int)) =~= Seq::<PricePoint>::empty())
            by {
            reveal(Seq::filter);
        }
    }
    while i < v.len()
        invariant
            i <= v.len(),
            count <= i,
            count == count_at_most(v@.take(i as int), threshold as int),
        decreases v.len() - i,
    {
        proof {
            assert(v@.take(i + 1) =~= v@.take(i as int).push(v@[i as int]));
            v@.take(i as int).lemma_filter_push(v@[i as int], priced_at_most(threshold as int));
        }
        if v[i].total <= threshold {
            count = count + 1;
        }
        i = i + 1;
    }
    proof {
        assert(v@.take(i as int) =~= v@);
    }
    count
}

/// The index of the first slot at or after `from` that passes `test`, or
/// the number of slots when none does.
pub fn find_first(v: &Vec<PricePoint>, test: PriceTest, from: usize) -> (found: usize)
    ensures
        found == first_match(v@, test, from as int),
        found <= v@.len(),
{
    if from >= v.len() {
        return v.len();
    }
    let mut i: usize = from;
    while i < v.len() && !test.check(v[i].total)
        invariant
            from <= i <= v.len(),
            first_match(v@, test, from as int) == first_match(v@, test, i as int),
        decreases v.len() - i,
    {
        i = i + 1;
    }
    i
}

/// The total prices of `v` from lowest to highest.
pub fn sorted_totals(v: &Vec<PricePoint>) -> (sorted: Vec<i64>)
    ensures
        sorted@ == ascending_totals(v@),
        sorted@.len() == v@.len(),
        ordered_by(sorted@, by_value()),
        sorted@.to_multiset() == totals(v@).to_multiset(),
{
    let mut sorted: Vec<i64> = Vec::new();
    let mut i: usize = 0;
    while i < v.len()
        invariant
            i <= v.len(),
            sorted@ == ascending_totals(v@.take(i as int)),
        decreases v.len() - i,
    {
        let x: i64 = v[i].total;
        let mut pos: usize = sorted.len();
        while pos > 0 && sorted[pos - 1] > x
            invariant
                pos <= sorted.len(),
                forall|k: int| pos <= k < sorted.len() ==> #[trigger] sorted@[k] > x,
            decreases pos,
        {
            pos = pos - 1;
        }
        proof {
            let key = by_value();
            assert forall|k: int| pos <= k < sorted@.len() implies key(#[trigger] sorted@[k])
                > key(x) by {}
            lemma_insert_by_position(sorted@, x, key, pos as int);
            assert(totals(v@.take(i + 1)).drop_last() =~= totals(v@.take(i as int)));
            assert(totals(v@.take(i + 1)).last() == x);
        }
        sorted.insert(pos, x);
        i = i + 1;
    }
    proof {
        assert(v@.take(i as int) =~= v@);
        lemma_sort_by_key(totals(v@), by_value());
    }
    sorted
}

} // verus!
