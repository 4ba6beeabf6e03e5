//! Sorted lists, by any order.
use vstd::prelude::*;

verus! {

/// `x` put into a sorted list, behind those that it does not come before.
pub open spec fn placed<T>(le: spec_fn(T, T) -> bool, list: Seq<T>, x: T) -> Seq<T>
    decreases list.len(),
{
    if list.len() == 0 || le(list.last(), x) {
        list.push(x)
    } else {
        placed(le, list.drop_last(), x).push(list.last())
    }
}

/// A list in order; those that are level keep their order.
pub open spec fn sorted<T>(le: spec_fn(T, T) -> bool, list: Seq<T>) -> Seq<T>
    decreases list.len(),
{
    if list.len() == 0 {
        Seq::empty()
    } else {
        placed(le, sorted(le, list.drop_last()), list.last())
    }
}

/// Where an item is put: behind the last one that it does not come before.
pub proof fn lemma_placed_at<T>(le: spec_fn(T, T) -> bool, list: Seq<T>, x: T, k: int)
    requires
        0 <= k <= list.len(),
        k == 0 || le(list[k - 1], x),
        forall|j: int| k <= j < list.len() ==> !le(#[trigger] list[j], x),
    ensures
        placed(le, list, x) == list.insert(k, x),
    decreases list.len(),
{
    if k == list.len() {
        assert(list.insert(k, x) =~= list.push(x));
    } else {
        assert(!le(list[list.len() - 1], x));
        let d = list.drop_last();
        assert forall|j: int| k <= j < d.len() implies !le(#[trigger] d[j], x) by {
            assert(d[j] == list[j]);
        }
        lemma_placed_at(le, d, x, k);
        assert(d.insert(k, x).push(list.last()) =~= list.insert(k, x));
    }
}

/// An order: any two are ordered, and what comes before stays before.
pub open spec fn is_order<T>(le: spec_fn(T, T) -> bool) -> bool {
    &&& forall|a: T, b: T| #[trigger] le(a, b) || le(b, a)
    &&& forall|a: T, b: T, c: T| #[trigger] le(a, b) && #[trigger] le(b, c) ==> le(a, c)
}

/// A list is in order.
pub open spec fn in_order<T>(le: spec_fn(T, T) -> bool, list: Seq<T>) -> bool {
    forall|i: int, j: int| 0 <= i <= j < list.len() ==> le(#[trigger] list[i], #[trigger] list[j])
}

proof fn lemma_placed<T>(le: spec_fn(T, T) -> bool, list: Seq<T>, x: T)
    requires
        is_order(le),
        in_order(le, list),
    ensures
        in_order(le, placed(le, list, x)),
        placed(le, list, x).to_multiset() == list.to_multiset().insert(x),
        placed(le, list, x).len() == list.len() + 1,
        placed(le, list, x).last() == x || (list.len() > 0 && placed(le, list, x).last()
            == list.last()),
    decreases list.len(),
{
    broadcast use vstd::seq_lib::group_to_multiset_ensures;

    if list.len() == 0 || le(list.last(), x) {
        let p = list.push(x);
        assert forall|i: int, j: int| 0 <= i <= j < p.len() implies le(
            #[trigger] p[i],
            #[trigger] p[j],
        ) by {
            if j < list.len() {
                assert(p[i] == list[i] && p[j] == list[j]);
            } else if i < list.len() {
                assert(le(list[i], list[list.len() - 1]));
            } else {
                assert(le(x, x));
            }
        }
    } else {
        let d = list.drop_last();
        let last = list.last();
        assert forall|i: int, j: int| 0 <= i <= j < d.len() implies le(
            #[trigger] d[i],
            #[trigger] d[j],
        ) by {
            assert(d[i] == list[i] && d[j] == list[j]);
        }
        lemma_placed(le, d, x);
        assert(le(last, x) || le(x, last));
        let q = placed(le, d, x);
        let p = q.push(last);
        assert(le(q.last(), last)) by {
            if d.len() > 0 {
                assert(le(list[list.len() - 2], list[list.len() - 1]));
            }
        }
        assert forall|i: int, j: int| 0 <= i <= j < p.len() implies le(
            #[trigger] p[i],
            #[trigger] p[j],
        ) by {
            if j < q.len() {
                assert(p[i] == q[i] && p[j] == q[j]);
            } else if i < q.len() {
                assert(le(q[i], q[q.len() - 1]));
            } else {
                assert(le(last, last));
            }
        }
        assert(list =~= d.push(last));
        assert(d.to_multiset().insert(x).insert(last) =~= d.to_multiset().insert(last).insert(x));
    }
}

/// Sorting brings a list into order, and neither adds nor drops anything.
pub proof fn sorting_sorts<T>(le: spec_fn(T, T) -> bool, list: Seq<T>)
    requires
        is_order(le),
    ensures
        in_order(le, sorted(le, list)),
        sorted(le, list).to_multiset() == list.to_multiset(),
    decreases list.len(),
{
    broadcast use vstd::seq_lib::group_to_multiset_ensures;

    if list.len() > 0 {
        sorting_sorts(le, list.drop_last());
        lemma_placed(le, sorted(le, list.drop_last()), list.last());
        assert(list =~= list.drop_last().push(list.last()));
    } else {
        assert(list =~= Seq::<T>::empty());
    }
}

/// A list that is in order already stays as it is: what is equal keeps its place.
pub proof fn what_is_sorted_stays<T>(le: spec_fn(T, T) -> bool, list: Seq<T>)
    requires
        in_order(le, list),
    ensures
        sorted(le, list) == list,
    decreases list.len(),
{
    if list.len() > 0 {
        let d = list.drop_last();
        assert forall|i: int, j: int| 0 <= i <= j < d.len() implies le(
            #[trigger] d[i],
            #[trigger] d[j],
        ) by {
            assert(d[i] == list[i] && d[j] == list[j]);
        }
        what_is_sorted_stays(le, d);
        if d.len() > 0 {
            assert(le(list[d.len() - 1], list[list.len() - 1]));
        }
        assert(d.push(list.last()) =~= list);
    } else {
        assert(list =~= Seq::<T>::empty());
    }
}

} // verus!
