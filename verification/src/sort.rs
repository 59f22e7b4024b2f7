//! Stable sorting of a vector by an integer key.

use vstd::prelude::*;

verus! {

/// Items that are ordered by an integer key.
pub trait Keyed {
    /// The key by which the item is ordered.
    spec fn key(&self) -> int;

    /// Decides whether the key of `self` is smaller than that of `other`.
    fn key_lt(&self, other: &Self) -> (smaller: bool)
        ensures
            smaller == (self.key() < other.key()),
    ;
}

/// Whether the keys of `s` never descend.
pub open spec fn is_sorted<T: Keyed>(s: Seq<T>) -> bool {
    forall|i: int, j: int| 0 <= i <= j < s.len() ==> s[i].key() <= s[j].key()
}

/// `s` with `x` put in front of its first item whose key is not smaller
/// than the key of `x`, or at the end if there is none.
pub open spec fn insert_before_not_smaller<T: Keyed>(s: Seq<T>, x: T) -> Seq<T>
    decreases s.len(),
{
    if s.len() == 0 || !(s[0].key() < x.key()) {
        seq![x] + s
    } else {
        seq![s[0]] + insert_before_not_smaller(s.skip(1), x)
    }
}

/// The items of `s` in ascending order of their keys, items with equal keys
/// in the order in which they stand in `s`.
pub open spec fn stable_sort<T: Keyed>(s: Seq<T>) -> Seq<T>
    decreases s.len(),
{
    if s.len() == 0 {
        s
    } else {
        insert_before_not_smaller(stable_sort(s.skip(1)), s[0])
    }
}

/// The number of items at the front of `s` whose key is smaller than that of `x`.
pub open spec fn smaller_prefix_len<T: Keyed>(s: Seq<T>, x: T) -> nat
    decreases s.len(),
{
    if s.len() == 0 || !(s[0].key() < x.key()) {
        0
    } else {
        1 + smaller_prefix_len(s.skip(1), x)
    }
}

proof fn lemma_insert_is_insert_at<T: Keyed>(s: Seq<T>, x: T)
    ensures
        smaller_prefix_len(s, x) <= s.len(),
        insert_before_not_smaller(s, x) == s.insert(smaller_prefix_len(s, x) as int, x),
        forall|i: int| 0 <= i < smaller_prefix_len(s, x) ==> (#[trigger] s[i]).key() < x.key(),
        smaller_prefix_len(s, x) < s.len() ==> !(s[smaller_prefix_len(s, x) as int].key()
            < x.key()),
    decreases s.len(),
{
    if s.len() == 0 || !(s[0].key() < x.key()) {
        assert(seq![x] + s =~= s.insert(0, x));
    } else {
        lemma_insert_is_insert_at(s.skip(1), x);
        let k = smaller_prefix_len(s.skip(1), x) as int;
        assert(seq![s[0]] + s.skip(1).insert(k, x) =~= s.insert(k + 1, x));
        assert forall|i: int| 0 <= i < k + 1 implies (#[trigger] s[i]).key() < x.key() by {
            if i > 0 {
                assert(s[i] == s.skip(1)[i - 1]);
            }
        }
        if k + 1 < s.len() {
            assert(s[k + 1] == s.skip(1)[k]);
        }
    }
}

/// Inserting into a sorted sequence leaves it sorted, and adds the item and
/// nothing else.
pub proof fn lemma_insert_keeps_sorted<T: Keyed>(s: Seq<T>, x: T)
    requires
        is_sorted(s),
    ensures
        is_sorted(insert_before_not_smaller(s, x)),
        insert_before_not_smaller(s, x).to_multiset() == s.to_multiset().insert(x),
        insert_before_not_smaller(s, x).len() == s.len() + 1,
{
    lemma_insert_is_insert_at(s, x);
    let k = smaller_prefix_len(s, x) as int;
    let r = s.insert(k, x);
    assert forall|i: int, j: int| 0 <= i <= j < r.len() implies r[i].key() <= r[j].key() by {
        if k < s.len() {
            assert(!(s[k].key() < x.key()));
        }
        if i < k && j > k {
            assert(s[i].key() <= s[j - 1].key());
        } else if i == k && j > k {
            assert(s[k].key() <= s[j - 1].key());
        } else if i > k {
            assert(s[i - 1].key() <= s[j - 1].key());
        }
    }
    vstd::seq_lib::to_multiset_insert(s, k, x);
}

/// What a stable sort returns is sorted and holds the same items as often as
/// its argument.
pub proof fn lemma_stable_sort_sorts<T: Keyed>(s: Seq<T>)
    ensures
        is_sorted(stable_sort(s)),
        stable_sort(s).to_multiset() == s.to_multiset(),
        stable_sort(s).len() == s.len(),
    decreases s.len(),
{
    if s.len() == 0 {
    } else {
        lemma_stable_sort_sorts(s.skip(1));
        lemma_insert_keeps_sorted(stable_sort(s.skip(1)), s[0]);
        assert(s =~= s.skip(1).insert(0, s[0]));
        vstd::seq_lib::to_multiset_insert(s.skip(1), 0, s[0]);
        assert(s.to_multiset() =~= s.skip(1).to_multiset().insert(s[0]));
    }
}

/// The test whether an item has the key `k`.
pub open spec fn has_key<T: Keyed>(k: int) -> spec_fn(T) -> bool {
    |item: T| item.key() == k
}

/// The items of `s` whose key is `k`, in their order.
pub open spec fn with_key<T: Keyed>(s: Seq<T>, k: int) -> Seq<T> {
    s.filter(has_key(k))
}

proof fn lemma_with_key_of_one<T: Keyed>(x: T, k: int)
    ensures
        with_key(seq![x], k) == if x.key() == k {
            seq![x]
        } else {
            Seq::<T>::empty()
        },
{
    let pred = has_key::<T>(k);
    assert(seq![x] =~= Seq::<T>::empty().push(x));
    Seq::<T>::empty().lemma_filter_push(x, pred);
    assert(Seq::<T>::empty().filter(pred) =~= Seq::<T>::empty()) by {
        reveal(Seq::filter);
    }
    assert(Seq::<T>::empty().push(x) =~= seq![x]);
    assert(Seq::<T>::empty().filter(pred).push(x) =~= seq![x]);
}

proof fn lemma_with_key_of_smaller<T: Keyed>(s: Seq<T>, k: int)
    requires
        forall|i: int| 0 <= i < s.len() ==> (#[trigger] s[i]).key() < k,
    ensures
        with_key(s, k) == Seq::<T>::empty(),
{
    let pred = has_key::<T>(k);
    assert(s.all(|y: T| !pred(y))) by {
        assert forall|i: int| 0 <= i < s.len() implies (|y: T| !pred(y))(#[trigger] s[i]) by {
            assert(s[i].key() < k);
        }
    }
    s.lemma_all_neg_filter_empty(pred);
    assert(s.filter(pred) =~= Seq::<T>::empty());
}

proof fn lemma_insert_with_key<T: Keyed>(s: Seq<T>, x: T, k: int)
    ensures
        with_key(insert_before_not_smaller(s, x), k) == if x.key() == k {
            seq![x] + with_key(s, k)
        } else {
            with_key(s, k)
        },
{
    let pred = has_key::<T>(k);
    lemma_insert_is_insert_at(s, x);
    let p = smaller_prefix_len(s, x) as int;
    let head = s.take(p);
    let tail = s.skip(p);
    assert(s =~= head + tail);
    assert(s.insert(p, x) =~= (head + seq![x]) + tail);
    Seq::filter_distributes_over_add(head, tail, pred);
    Seq::filter_distributes_over_add(head + seq![x], tail, pred);
    Seq::filter_distributes_over_add(head, seq![x], pred);
    lemma_with_key_of_one(x, k);
    if x.key() == k {
        assert forall|i: int| 0 <= i < head.len() implies (#[trigger] head[i]).key() < k by {
            assert(head[i] == s[i]);
        }
        lemma_with_key_of_smaller(head, k);
        assert(with_key(s, k) =~= with_key(tail, k));
        assert(with_key(s.insert(p, x), k) =~= seq![x] + with_key(tail, k));
    } else {
        assert(with_key(s.insert(p, x), k) =~= with_key(head, k) + with_key(tail, k));
    }
}

/// A stable sort keeps items with the same key in the order in which they
/// stand in its argument: of any one key, it returns the items that its
/// argument holds, in the same order.
pub proof fn lemma_stable_sort_is_stable<T: Keyed>(s: Seq<T>, k: int)
    ensures
        with_key(stable_sort(s), k) == with_key(s, k),
    decreases s.len(),
{
    let pred = has_key::<T>(k);
    if s.len() == 0 {
    } else {
        let rest = s.skip(1);
        lemma_stable_sort_is_stable(rest, k);
        lemma_insert_with_key(stable_sort(rest), s[0], k);
        assert(s =~= seq![s[0]] + rest);
        Seq::filter_distributes_over_add(seq![s[0]], rest, pred);
        lemma_with_key_of_one(s[0], k);
        if s[0].key() == k {
            assert(with_key(s, k) =~= seq![s[0]] + with_key(rest, k));
        } else {
            assert(with_key(s, k) =~= with_key(rest, k));
        }
    }
}

/// A sorted sequence is left as it is.
pub proof fn lemma_stable_sort_keeps_sorted<T: Keyed>(s: Seq<T>)
    requires
        is_sorted(s),
    ensures
        stable_sort(s) == s,
    decreases s.len(),
{
    if s.len() > 0 {
        let rest = s.skip(1);
        assert forall|i: int, j: int| 0 <= i <= j < rest.len() implies rest[i].key()
            <= rest[j].key() by {
            assert(s[i + 1].key() <= s[j + 1].key());
        }
        lemma_stable_sort_keeps_sorted(rest);
        if rest.len() > 0 {
            assert(s[0].key() <= s[1].key());
            assert(rest[0] == s[1]);
        }
        assert(seq![s[0]] + rest =~= s);
    }
}

/// Sorts `items` by key, ascending, keeping items with equal keys in the
/// order in which they came.
pub fn sort_by_key<T: Keyed>(items: Vec<T>) -> (sorted: Vec<T>)
    ensures
        sorted@ == stable_sort(items@),
        is_sorted(sorted@),
        sorted@.to_multiset() == items@.to_multiset(),
        sorted@.len() == items@.len(),
{
    let ghost given = items@;
    let mut rest = items;
    let mut sorted: Vec<T> = Vec::new();
    assert(given.skip(given.len() as int) =~= Seq::<T>::empty());
    while rest.len() > 0
        invariant
            rest@ == given.take(rest@.len() as int),
            rest@.len() <= given.len(),
            sorted@ == stable_sort(given.skip(rest@.len() as int)),
        decreases rest.len(),
    {
        let ghost n = rest@.len() as int;
        let item = rest.pop().unwrap();
        assert(item == given[n - 1]);
        assert(rest@ =~= given.take(n - 1));
        assert(given.skip(n - 1).skip(1) =~= given.skip(n));
        let mut at: usize = 0;
        proof {
            lemma_insert_is_insert_at(sorted@, item);
        }
        while at < sorted.len() && sorted[at].key_lt(&item)
            invariant
                at <= sorted.len(),
                at <= smaller_prefix_len(sorted@, item),
                smaller_prefix_len(sorted@, item) <= sorted@.len(),
                forall|i: int|
                    0 <= i < smaller_prefix_len(sorted@, item) ==> (#[trigger] sorted@[i]).key()
                        < item.key(),
                smaller_prefix_len(sorted@, item) < sorted@.len() ==> !(sorted@[smaller_prefix_len(
                    sorted@,
                    item,
                ) as int].key() < item.key()),
            decreases sorted.len() - at,
        {
            at += 1;
        }
        assert(at == smaller_prefix_len(sorted@, item));
        sorted.insert(at, item);
    }
    assert(given.skip(0) =~= given);
    proof {
        lemma_stable_sort_sorts(given);
    }
    sorted
}

} // verus!
