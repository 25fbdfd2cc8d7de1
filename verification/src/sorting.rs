//! A stable sort by an integer key.
//!
//! The sort is stated as a function on sequences: each item in turn enters the items
//! sorted so far behind every item whose key is not larger than its own. What comes out
//! holds the same items, in ascending order of their keys, and items with equal keys in
//! the order in which they came.

use vstd::prelude::*;

verus! {

/// An item that is ordered by an integer.
pub trait Keyed {
    /// The integer by which the item is ordered.
    spec fn key(&self) -> int;

    fn sort_key(&self) -> (k: i64)
        ensures
            k == self.key(),
    ;
}

/// Where an item with key `k` enters the sorted sequence `s`: behind the last item whose
/// key is at most `k`.
pub open spec fn insertion_point<T: Keyed>(s: Seq<T>, k: int) -> int
    decreases s.len(),
{
    if s.len() == 0 {
        0
    } else if s.last().key() <= k {
        s.len() as int
    } else {
        insertion_point(s.drop_last(), k)
    }
}

/// The items of `s` in ascending order of their keys, those with equal keys in the order
/// in which `s` holds them.
pub open spec fn stable_sorted<T: Keyed>(s: Seq<T>) -> Seq<T>
    decreases s.len(),
{
    if s.len() == 0 {
        s
    } else {
        let before = stable_sorted(s.drop_last());
        before.insert(insertion_point(before, s.last().key()), s.last())
    }
}

/// Whether the keys of `s` never fall from one item to the next.
pub open spec fn ascending<T: Keyed>(s: Seq<T>) -> bool {
    forall|i: int, j: int| 0 <= i <= j < s.len() ==> (#[trigger] s[i]).key() <= (#[trigger] s[j]).key()
}

/// The items of `s` whose key is `k`, in their order.
pub open spec fn with_key<T: Keyed>(s: Seq<T>, k: int) -> Seq<T> {
    s.filter(|item: T| item.key() == k)
}

/// The insertion point lies within the sequence or at its end. Every item before it in an
/// ascending sequence has a key of at most `k`, every item from it on a larger one.
pub proof fn lemma_insertion_point<T: Keyed>(s: Seq<T>, k: int)
    ensures
        0 <= insertion_point(s, k) <= s.len(),
        forall|i: int| insertion_point(s, k) <= i < s.len() ==> (#[trigger] s[i]).key() > k,
        ascending(s) ==> forall|i: int|
            0 <= i < insertion_point(s, k) ==> (#[trigger] s[i]).key() <= k,
    decreases s.len(),
{
    if s.len() > 0 && s.last().key() > k {
        let rest = s.drop_last();
        lemma_insertion_point(rest, k);
        assert forall|i: int| insertion_point(s, k) <= i < s.len() implies (#[trigger] s[i]).key()
            > k by {
            if i < rest.len() {
                assert(s[i] == rest[i]);
            }
        }
        if ascending(s) {
            assert forall|i: int| 0 <= i < insertion_point(s, k) implies (#[trigger] s[i]).key()
                <= k by {
                assert(s[i] == rest[i]);
            }
        }
    }
}

/// Sorting keeps the number of items, puts their keys in ascending order and neither
/// adds nor loses an item.
pub proof fn lemma_stable_sorted<T: Keyed>(s: Seq<T>)
    ensures
        stable_sorted(s).len() == s.len(),
        ascending(stable_sorted(s)),
        stable_sorted(s).to_multiset() == s.to_multiset(),
    decreases s.len(),
{
    if s.len() > 0 {
        let rest = s.drop_last();
        let x = s.last();
        let before = stable_sorted(rest);
        let p = insertion_point(before, x.key());
        lemma_stable_sorted(rest);
        lemma_insertion_point(before, x.key());
        vstd::seq_lib::to_multiset_insert(before, p, x);
        vstd::seq_lib::to_multiset_build(rest, x);
        assert(s =~= rest.push(x));
    }
}

/// Sorting is stable: the items with any one key come out in the order in which they
/// went in.
pub proof fn lemma_stable_sorted_keeps_order<T: Keyed>(s: Seq<T>, k: int)
    ensures
        with_key(stable_sorted(s), k) == with_key(s, k),
    decreases s.len(),
{
    if s.len() > 0 {
        let rest = s.drop_last();
        let x = s.last();
        let before = stable_sorted(rest);
        let p = insertion_point(before, x.key());
        lemma_stable_sorted_keeps_order(rest, k);
        lemma_insertion_point(before, x.key());
        let front = before.subrange(0, p);
        let back = before.subrange(p, before.len() as int);
        assert(before =~= front + back);
        reveal(Seq::filter);
        assert(front.push(x).drop_last() =~= front);
        if x.key() == k {
            // behind the insertion point every key is larger than `k`
            lemma_filter_none(back, k);
        }
    }
}

/// Among items whose keys all exceed `k`, none has the key `k`.
proof fn lemma_filter_none<T: Keyed>(s: Seq<T>, k: int)
    requires
        forall|i: int| 0 <= i < s.len() ==> (#[trigger] s[i]).key() > k,
    ensures
        with_key(s, k).len() == 0,
    decreases s.len(),
{
    reveal(Seq::filter);
    if s.len() > 0 {
        let rest = s.drop_last();
        lemma_filter_none(rest, k);
    }
}

/// Sorts a copy of `items` by key; items with equal keys keep their order.
pub fn stable_sort<T: Keyed + Copy>(items: &[T]) -> (r: Vec<T>)
    ensures
        r@ == stable_sorted(items@),
{
    let mut sorted: Vec<T> = Vec::new();
    let mut i: usize = 0;
    while i < items.len()
        invariant
            i <= items.len(),
            sorted@ == stable_sorted(items@.take(i as int)),
        decreases items.len() - i,
    {
        let item = items[i];
        let k = item.sort_key();
        let mut p: usize = sorted.len();
        assert(sorted@.take(p as int) =~= sorted@);
        while p > 0 && sorted[p - 1].sort_key() > k
            invariant
                p <= sorted.len(),
                k == item.key(),
                insertion_point(sorted@, k as int) == insertion_point(
                    sorted@.take(p as int),
                    k as int,
                ),
            decreases p,
        {
            assert(sorted@.take(p as int).drop_last() =~= sorted@.take(p - 1));
            p = p - 1;
        }
        sorted.insert(p, item);
        proof {
            assert(items@.take(i + 1).drop_last() =~= items@.take(i as int));
        }
        i = i + 1;
    }
    assert(items@.take(items.len() as int) =~= items@);
    sorted
}

} // verus!
