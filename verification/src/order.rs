//! Stable ordering of a sequence by an integer key.
//!
//! `sort_by_key` is the sequence a stable sort produces: its keys never
//! decrease, and the items that share a key stand in the order they came in.
//! `lemma_sort_by_key` proves both, and `lemma_stable_order_is_unique` that
//! the two together leave no other sequence.

use vstd::prelude::*;

verus! {

/// The keys of `s` never decrease from left to right.
pub open spec fn ordered_by<A>(s: Seq<A>, key: spec_fn(A) -> int) -> bool {
    forall|i: int, j: int| 0 <= i < j < s.len() ==> key(s[i]) <= key(s[j])
}

/// The test "has key `k`".
pub open spec fn has_key<A>(key: spec_fn(A) -> int, k: int) -> spec_fn(A) -> bool {
    |a: A| key(a) == k
}

/// `s` with `x` placed behind the last item whose key does not exceed its own.
pub open spec fn insert_by<A>(s: Seq<A>, x: A, key: spec_fn(A) -> int) -> Seq<A>
    decreases s.len(),
{
    if s.len() == 0 || key(s.last()) <= key(x) {
        s.push(x)
    } else {
        insert_by(s.drop_last(), x, key).push(s.last())
    }
}

/// The items of `s` in stable key order.
pub open spec fn sort_by_key<A>(s: Seq<A>, key: spec_fn(A) -> int) -> Seq<A>
    decreases s.len(),
{
    if s.len() == 0 {
        s
    } else {
        insert_by(sort_by_key(s.drop_last(), key), s.last(), key)
    }
}

/// Where `insert_by` puts the new item: at the position whose successors all
/// have a larger key and whose predecessor, if any, has none.
pub proof fn lemma_insert_by_position<A>(s: Seq<A>, x: A, key: spec_fn(A) -> int, pos: int)
    requires
        0 <= pos <= s.len(),
        forall|k: int| pos <= k < s.len() ==> key(#[trigger] s[k]) > key(x),
        pos > 0 ==> key(s[pos - 1]) <= key(x),
    ensures
        insert_by(s, x, key) == s.insert(pos, x),
    decreases s.len(),
{
    if pos == s.len() {
        assert(s.push(x) =~= s.insert(pos, x));
    } else {
        assert(key(s.last()) > key(x));
        let front = s.drop_last();
        lemma_insert_by_position(front, x, key, pos);
        assert(front.insert(pos, x).push(s.last()) =~= s.insert(pos, x));
    }
}

/// What inserting does: one more item, the same items otherwise, keys still
/// in order, and among equal keys the new item comes last.
pub proof fn lemma_insert_by<A>(s: Seq<A>, x: A, key: spec_fn(A) -> int)
    ensures
        insert_by(s, x, key).len() == s.len() + 1,
        insert_by(s, x, key).to_multiset() == s.to_multiset().insert(x),
        forall|i: int|
            0 <= i < insert_by(s, x, key).len() ==> {
                let y = #[trigger] insert_by(s, x, key)[i];
                y == x || s.contains(y)
            },
        ordered_by(s, key) ==> ordered_by(insert_by(s, x, key), key),
        forall|k: int| #[trigger]
            insert_by(s, x, key).filter(has_key(key, k)) == s.push(x).filter(has_key(key, k)),
    decreases s.len(),
{
    broadcast use vstd::seq_lib::group_to_multiset_ensures;

    let r = insert_by(s, x, key);
    if s.len() == 0 || key(s.last()) <= key(x) {
        assert forall|i: int| 0 <= i < r.len() implies ({
            let y = #[trigger] r[i];
            y == x || s.contains(y)
        }) by {
            if i < s.len() {
                assert(s[i] == r[i]);
            }
        }
    } else {
        let front = s.drop_last();
        let last = s.last();
        let inner = insert_by(front, x, key);
        lemma_insert_by(front, x, key);
        assert(s =~= front.push(last));
        assert(r.to_multiset() == s.to_multiset().insert(x)) by {
            assert(r.to_multiset() =~= front.to_multiset().insert(x).insert(last));
            assert(s.to_multiset() =~= front.to_multiset().insert(last));
            assert(front.to_multiset().insert(x).insert(last) =~= front.to_multiset().insert(
                last,
            ).insert(x));
        }
        assert forall|i: int| 0 <= i < r.len() implies ({
            let y = #[trigger] r[i];
            y == x || s.contains(y)
        }) by {
            if i < inner.len() {
                let y = inner[i];
                assert(y == r[i]);
                if y != x {
                    assert(front.contains(y));
                    let j = choose|j: int| 0 <= j < front.len() && front[j] == y;
                    assert(s[j] == y);
                }
            } else {
                assert(r[i] == s[s.len() - 1]);
            }
        }
        if ordered_by(s, key) {
            assert(ordered_by(front, key)) by {
                assert forall|i: int, j: int| 0 <= i < j < front.len() implies key(front[i])
                    <= key(front[j]) by {
                    assert(front[i] == s[i] && front[j] == s[j]);
                }
            }
            assert forall|i: int, j: int| 0 <= i < j < r.len() implies key(r[i]) <= key(
                r[j],
            ) by {
                if j < inner.len() {
                    assert(r[i] == inner[i] && r[j] == inner[j]);
                } else {
                    let y = inner[i];
                    assert(r[i] == y && r[j] == last);
                    if y != x {
                        assert(front.contains(y));
                        let m = choose|m: int| 0 <= m < front.len() && front[m] == y;
                        assert(s[m] == y);
                    }
                }
            }
        }
        assert forall|k: int| #[trigger]
            r.filter(has_key(key, k)) == s.push(x).filter(has_key(key, k)) by {
            let pred = has_key(key, k);
            inner.lemma_filter_push(last, pred);
            front.lemma_filter_push(x, pred);
            front.lemma_filter_push(last, pred);
            s.lemma_filter_push(x, pred);
        }
    }
}

/// What sorting does: the same items, keys in order, and for every key the
/// items that carry it in the order they came in.
pub proof fn lemma_sort_by_key<A>(s: Seq<A>, key: spec_fn(A) -> int)
    ensures
        sort_by_key(s, key).len() == s.len(),
        sort_by_key(s, key).to_multiset() == s.to_multiset(),
        ordered_by(sort_by_key(s, key), key),
        forall|k: int| #[trigger]
            sort_by_key(s, key).filter(has_key(key, k)) == s.filter(has_key(key, k)),
    decreases s.len(),
{
    broadcast use vstd::seq_lib::group_to_multiset_ensures;

    if s.len() > 0 {
        let front = s.drop_last();
        let last = s.last();
        let sorted_front = sort_by_key(front, key);
        lemma_sort_by_key(front, key);
        lemma_insert_by(sorted_front, last, key);
        assert(s =~= front.push(last));
        assert(sort_by_key(s, key).to_multiset() =~= s.to_multiset());
        assert forall|k: int| #[trigger]
            sort_by_key(s, key).filter(has_key(key, k)) == s.filter(has_key(key, k)) by {
            let pred = has_key(key, k);
            sorted_front.lemma_filter_push(last, pred);
            front.lemma_filter_push(last, pred);
        }
    }
}

/// Two sequences in key order that hold, for every key, the same items in
/// the same order are one sequence.
pub proof fn lemma_stable_order_is_unique<A>(r: Seq<A>, q: Seq<A>, key: spec_fn(A) -> int)
    requires
        ordered_by(r, key),
        ordered_by(q, key),
        forall|k: int| #[trigger] r.filter(has_key(key, k)) == q.filter(has_key(key, k)),
    ensures
        r == q,
    decreases r.len(),
{
    if r.len() == 0 {
        if q.len() > 0 {
            let pred = has_key(key, key(q[0]));
            assert(pred(q[0]));
            q.lemma_filter_contains(pred, 0);
            r.lemma_filter_len(pred);
            assert(r.filter(pred) == q.filter(pred));
            assert(q.filter(pred).contains(q[0]));
        }
        assert(r =~= q);
    } else {
        let top = key(r.last());
        let pred = has_key(key, top);
        let r_front = r.drop_last();
        assert(r =~= r_front.push(r.last()));
        r_front.lemma_filter_push(r.last(), pred);
        assert(pred(r.last()));
        assert(r.filter(pred) == q.filter(pred));
        assert(q.filter(pred).last() == r.last());
        // `q` holds an item with the key `top`, and none with a larger one.
        q.lemma_filter_len(pred);
        assert(q.len() > 0);
        let q_front = q.drop_last();
        assert(q =~= q_front.push(q.last()));
        assert(key(q.last()) == top) by {
            q.lemma_filter_contains_rev(pred, r.last());
            assert(q.filter(pred).contains(q.filter(pred).last()));
            let m = choose|m: int| 0 <= m < q.len() && q[m] == r.last();
            assert(key(q[m]) <= key(q[q.len() - 1]) || m == q.len() - 1);
            let above = has_key(key, key(q.last()));
            assert(above(q.last()));
            q.lemma_filter_contains(above, q.len() - 1);
            assert(r.filter(above) == q.filter(above));
            r.lemma_filter_contains_rev(above, q.last());
            let n = choose|n: int| 0 <= n < r.len() && r[n] == q.last();
            assert(key(r[n]) <= key(r[r.len() - 1]) || n == r.len() - 1);
        }
        q_front.lemma_filter_push(q.last(), pred);
        assert(q.last() == r.last());
        assert(ordered_by(r_front, key)) by {
            assert forall|i: int, j: int| 0 <= i < j < r_front.len() implies key(r_front[i])
                <= key(r_front[j]) by {
                assert(r_front[i] == r[i] && r_front[j] == r[j]);
            }
        }
        assert(ordered_by(q_front, key)) by {
            assert forall|i: int, j: int| 0 <= i < j < q_front.len() implies key(q_front[i])
                <= key(q_front[j]) by {
                assert(q_front[i] == q[i] && q_front[j] == q[j]);
            }
        }
        assert forall|k: int| #[trigger]
            r_front.filter(has_key(key, k)) == q_front.filter(has_key(key, k)) by {
            let p = has_key(key, k);
            r_front.lemma_filter_push(r.last(), p);
            q_front.lemma_filter_push(q.last(), p);
            assert(r.filter(p) == q.filter(p));
            if p(r.last()) {
                assert(r_front.filter(p) =~= r.filter(p).drop_last());
                assert(q_front.filter(p) =~= q.filter(p).drop_last());
            }
        }
        lemma_stable_order_is_unique(r_front, q_front, key);
    }
}

/// Sorting neither adds an item nor loses one.
pub proof fn lemma_sort_by_key_contains<A>(s: Seq<A>, key: spec_fn(A) -> int, x: A)
    ensures
        sort_by_key(s, key).contains(x) <==> s.contains(x),
{
    lemma_sort_by_key(s, key);
    s.to_multiset_ensures();
    sort_by_key(s, key).to_multiset_ensures();
    assert(s.contains(x) <==> s.to_multiset().count(x) > 0);
    assert(sort_by_key(s, key).contains(x) <==> sort_by_key(s, key).to_multiset().count(x) > 0);
}

} // verus!
