//! Stable sorting: what it is, stated by insertion for any order relation,
//! and a merge sort that does it.

use vstd::prelude::*;

verus! {

/// `x` placed into `s` behind the last element that comes before or equals it.
pub open spec fn insert_sorted<T>(le: spec_fn(T, T) -> bool, s: Seq<T>, x: T) -> Seq<T>
    decreases s.len(),
{
    if s.len() == 0 {
        seq![x]
    } else if le(s.last(), x) {
        s.push(x)
    } else {
        insert_sorted(le, s.drop_last(), x).push(s.last())
    }
}

/// The stable sort of `s`: its elements in order, ties in the order they came.
pub open spec fn stable_sort<T>(le: spec_fn(T, T) -> bool, s: Seq<T>) -> Seq<T>
    decreases s.len(),
{
    if s.len() == 0 {
        s
    } else {
        insert_sorted(le, stable_sort(le, s.drop_last()), s.last())
    }
}

/// Every element comes before or equals every later one.
pub open spec fn ordered<T>(le: spec_fn(T, T) -> bool, s: Seq<T>) -> bool {
    forall|i: int, j: int| 0 <= i < j < s.len() ==> #[trigger] le(s[i], s[j])
}

/// `le` compares any two values and is transitive.
pub open spec fn total_preorder<T>(le: spec_fn(T, T) -> bool) -> bool {
    &&& forall|a: T, b: T| #[trigger] le(a, b) || #[trigger] le(b, a)
    &&& forall|a: T, b: T, c: T| #[trigger] le(a, b) && #[trigger] le(b, c) ==> le(a, c)
}

/// Inserting keeps the length plus one and every element of `s`.
pub proof fn lemma_insert_sorted_contents<T>(le: spec_fn(T, T) -> bool, s: Seq<T>, x: T)
    ensures
        insert_sorted(le, s, x).len() == s.len() + 1,
        insert_sorted(le, s, x).to_multiset() == s.to_multiset().insert(x),
    decreases s.len(),
{
    broadcast use vstd::seq_lib::group_to_multiset_ensures;

    if s.len() > 0 && !le(s.last(), x) {
        lemma_insert_sorted_contents(le, s.drop_last(), x);
        assert(s =~= s.drop_last().push(s.last()));
    }
}

/// A value that every element of `s` and `x` come before also bounds the
/// sequence with `x` inserted.
pub proof fn lemma_insert_sorted_bounded<T>(le: spec_fn(T, T) -> bool, s: Seq<T>, x: T, y: T)
    requires
        forall|i: int| 0 <= i < s.len() ==> #[trigger] le(s[i], y),
        le(x, y),
    ensures
        forall|i: int|
            0 <= i < insert_sorted(le, s, x).len() ==> #[trigger] le(insert_sorted(le, s, x)[i], y),
    decreases s.len(),
{
    if s.len() > 0 && !le(s.last(), x) {
        let rest = s.drop_last();
        assert(forall|i: int| 0 <= i < rest.len() ==> #[trigger] le(rest[i], y));
        lemma_insert_sorted_bounded(le, rest, x, y);
        lemma_insert_sorted_contents(le, rest, x);
    }
}

/// Inserting into an ordered sequence leaves it ordered.
pub proof fn lemma_insert_sorted_ordered<T>(le: spec_fn(T, T) -> bool, s: Seq<T>, x: T)
    requires
        total_preorder(le),
        ordered(le, s),
    ensures
        ordered(le, insert_sorted(le, s, x)),
    decreases s.len(),
{
    let r = insert_sorted(le, s, x);
    if s.len() > 0 && le(s.last(), x) {
        assert forall|i: int, j: int| 0 <= i < j < r.len() implies #[trigger] le(r[i], r[j]) by {
            if j == s.len() && i < s.len() - 1 {
                assert(le(s[i], s.last()));
            }
        }
    } else if s.len() > 0 {
        let rest = s.drop_last();
        lemma_insert_sorted_contents(le, rest, x);
        lemma_insert_sorted_ordered(le, rest, x);
        assert(forall|i: int| 0 <= i < rest.len() ==> #[trigger] le(rest[i], s.last()));
        lemma_insert_sorted_bounded(le, rest, x, s.last());
    }
}

/// The stable sort holds exactly the elements it was given.
pub proof fn lemma_stable_sort_permutes<T>(le: spec_fn(T, T) -> bool, s: Seq<T>)
    ensures
        stable_sort(le, s).len() == s.len(),
        stable_sort(le, s).to_multiset() == s.to_multiset(),
    decreases s.len(),
{
    broadcast use vstd::seq_lib::group_to_multiset_ensures;

    if s.len() > 0 {
        lemma_stable_sort_permutes(le, s.drop_last());
        lemma_insert_sorted_contents(le, stable_sort(le, s.drop_last()), s.last());
        assert(s =~= s.drop_last().push(s.last()));
    }
}

/// Under a total, transitive relation the stable sort is ordered.
pub proof fn lemma_stable_sort_ordered<T>(le: spec_fn(T, T) -> bool, s: Seq<T>)
    requires
        total_preorder(le),
    ensures
        ordered(le, stable_sort(le, s)),
    decreases s.len(),
{
    if s.len() > 0 {
        lemma_stable_sort_ordered(le, s.drop_last());
        lemma_insert_sorted_ordered(le, stable_sort(le, s.drop_last()), s.last());
    }
}

/// Insertion scans from the back: once the elements behind position `k` are
/// known to come strictly after `x`, they stay where they are.
pub proof fn lemma_insert_sorted_split<T>(le: spec_fn(T, T) -> bool, s: Seq<T>, x: T, k: int)
    requires
        0 <= k <= s.len(),
        forall|i: int| k <= i < s.len() ==> !#[trigger] le(s[i], x),
    ensures
        insert_sorted(le, s, x) == insert_sorted(le, s.take(k), x) + s.skip(k),
    decreases s.len() - k,
{
    if k == s.len() {
        assert(s.take(k) =~= s);
    } else {
        lemma_insert_sorted_split(le, s.drop_last(), x, k);
        assert(s.drop_last().take(k) =~= s.take(k));
    }
}

/// No two different elements of `s` come before or equal each other both ways.
pub open spec fn distinct_ranks<T>(le: spec_fn(T, T) -> bool, s: Seq<T>) -> bool {
    forall|i: int, j: int|
        0 <= i < s.len() && 0 <= j < s.len() && #[trigger] le(s[i], s[j]) && le(s[j], s[i])
            ==> s[i] == s[j]
}

/// Two ordered sequences that hold the same elements, none of them twice
/// in rank, are the same sequence.
pub proof fn lemma_ordered_unique<T>(le: spec_fn(T, T) -> bool, a: Seq<T>, b: Seq<T>)
    requires
        ordered(le, a),
        ordered(le, b),
        a.to_multiset() == b.to_multiset(),
        distinct_ranks(le, a),
        forall|x: T| #[trigger] le(x, x),
    ensures
        a == b,
    decreases a.len(),
{
    broadcast use vstd::seq_lib::group_to_multiset_ensures;

    assert(a.len() == b.len()) by {
        assert(b.to_multiset().len() == b.len());
    }
    if a.len() > 0 {
        // The last elements are both greatest, so they rank the same and are one.
        let x = a.last();
        let y = b.last();
        assert(b.to_multiset().count(x) > 0);
        assert(le(x, y));
        assert(a.to_multiset().count(y) > 0);
        assert(le(y, x));
        assert(a =~= a.drop_last().push(x));
        assert(b =~= b.drop_last().push(y));
        assert(a.drop_last().to_multiset() =~= a.to_multiset().remove(x));
        assert(b.drop_last().to_multiset() =~= b.to_multiset().remove(y));
        assert(distinct_ranks(le, a.drop_last()));
        assert(ordered(le, a.drop_last()));
        assert(ordered(le, b.drop_last()));
        lemma_ordered_unique(le, a.drop_last(), b.drop_last());
    }
}

/// The elements of a sequence rank the same way after sorting.
pub proof fn lemma_stable_sort_keeps_distinct<T>(le: spec_fn(T, T) -> bool, s: Seq<T>)
    requires
        distinct_ranks(le, s),
    ensures
        distinct_ranks(le, stable_sort(le, s)),
{
    broadcast use vstd::seq_lib::group_to_multiset_ensures;

    lemma_stable_sort_permutes(le, s);
    let r = stable_sort(le, s);
    assert forall|i: int, j: int|
        0 <= i < r.len() && 0 <= j < r.len() && #[trigger] le(r[i], r[j]) && le(
            r[j],
            r[i],
        ) implies r[i] == r[j] by {
        assert(s.to_multiset().count(r[i]) > 0);
        assert(s.to_multiset().count(r[j]) > 0);
    }
}

/// Sorting does not depend on the order the elements came in, where no
/// two of them rank the same: two sequences that hold the same elements
/// sort to the same sequence.
pub proof fn lemma_stable_sort_unique<T>(le: spec_fn(T, T) -> bool, a: Seq<T>, b: Seq<T>)
    requires
        total_preorder(le),
        a.to_multiset() == b.to_multiset(),
        distinct_ranks(le, a),
    ensures
        stable_sort(le, a) == stable_sort(le, b),
{
    lemma_stable_sort_ordered(le, a);
    lemma_stable_sort_ordered(le, b);
    lemma_stable_sort_permutes(le, a);
    lemma_stable_sort_permutes(le, b);
    lemma_stable_sort_keeps_distinct(le, a);
    assert(forall|x: T| #[trigger] le(x, x));
    lemma_ordered_unique(le, stable_sort(le, a), stable_sort(le, b));
}

/// Two sequences merged from their ends: the later of the two last
/// elements comes last, and of two that rank the same, that of `b`.
pub open spec fn merged<T>(le: spec_fn(T, T) -> bool, a: Seq<T>, b: Seq<T>) -> Seq<T>
    decreases a.len() + b.len(),
{
    if b.len() == 0 {
        a
    } else if a.len() == 0 {
        b
    } else if le(a.last(), b.last()) {
        merged(le, a, b.drop_last()).push(b.last())
    } else {
        merged(le, a.drop_last(), b).push(a.last())
    }
}

/// Inserting into a merge is merging with the insertion into the second.
pub proof fn lemma_insert_into_merged<T>(le: spec_fn(T, T) -> bool, a: Seq<T>, b: Seq<T>, y: T)
    requires
        total_preorder(le),
    ensures
        insert_sorted(le, merged(le, a, b), y) == merged(le, a, insert_sorted(le, b, y)),
    decreases a.len() + b.len(),
{
    let whole = merged(le, a, b);
    let with_y = insert_sorted(le, b, y);
    lemma_insert_sorted_contents(le, b, y);
    if b.len() == 0 {
        if a.len() > 0 && le(a.last(), y) {
            assert(merged(le, a, with_y.drop_last()) == a);
        } else if a.len() > 0 {
            lemma_insert_into_merged(le, a.drop_last(), b, y);
        }
    } else if a.len() > 0 {
        let x = a.last();
        let z = b.last();
        if le(x, z) {
            assert(whole.drop_last() =~= merged(le, a, b.drop_last()));
            if le(z, y) {
                assert(with_y.drop_last() =~= b);
            } else {
                assert(with_y.drop_last() =~= insert_sorted(le, b.drop_last(), y));
                lemma_insert_into_merged(le, a, b.drop_last(), y);
            }
        } else {
            assert(whole.drop_last() =~= merged(le, a.drop_last(), b));
            if le(x, y) {
                // `z` comes before `x`, and `x` before `y`.
                assert(le(z, x) && le(x, y) ==> le(z, y));
                assert(with_y.drop_last() =~= b);
            } else {
                lemma_insert_into_merged(le, a.drop_last(), b, y);
            }
        }
    }
}

/// Sorting two sequences in a row is merging what each sorts to.
pub proof fn lemma_stable_sort_of_parts<T>(le: spec_fn(T, T) -> bool, a: Seq<T>, b: Seq<T>)
    requires
        total_preorder(le),
    ensures
        stable_sort(le, a + b) == merged(le, stable_sort(le, a), stable_sort(le, b)),
    decreases b.len(),
{
    if b.len() > 0 {
        assert((a + b).drop_last() =~= a + b.drop_last());
        lemma_stable_sort_of_parts(le, a, b.drop_last());
        lemma_insert_into_merged(
            le,
            stable_sort(le, a),
            stable_sort(le, b.drop_last()),
            b.last(),
        );
    }
}

/// Values that can be put in order.
pub trait Ranked: Sized {
    /// `a` comes before or equals `b`.
    spec fn comes_before(a: Self, b: Self) -> bool;

    /// Whether this value comes before or equals `other`.
    fn before_or_equal(&self, other: &Self) -> (r: bool)
        ensures
            r == Self::comes_before(*self, *other),
    ;

    /// The order compares any two values and is transitive.
    proof fn lemma_order()
        ensures
            total_preorder(|a: Self, b: Self| Self::comes_before(a, b)),
    ;
}

/// The order of a [`Ranked`] type as a relation.
pub open spec fn rank<T: Ranked>() -> spec_fn(T, T) -> bool {
    |a: T, b: T| T::comes_before(a, b)
}

/// Merges two sorted vectors into one.
fn merge<T: Ranked>(a: Vec<T>, b: Vec<T>) -> (r: Vec<T>)
    ensures
        r@ == merged(rank::<T>(), a@, b@),
{
    let ghost le = rank::<T>();
    let ghost whole = merged(le, a@, b@);
    let mut a = a;
    let mut b = b;
    let mut tail: Vec<T> = Vec::new();
    while a.len() > 0 && b.len() > 0
        invariant
            le == rank::<T>(),
            whole == merged(le, a@, b@) + tail@.reverse(),
        decreases a@.len() + b@.len(),
    {
        let from_b = a[a.len() - 1].before_or_equal(&b[b.len() - 1]);
        let moved = if from_b {
            b.pop()
        } else {
            a.pop()
        };
        match moved {
            Some(x) => {
                tail.push(x);
            },
            None => {},
        }
    }
    let mut out = if b.len() == 0 {
        a
    } else {
        b
    };
    let ghost head = out@;
    let ghost reversed = tail@.reverse();
    let ghost n = tail@.len() as int;
    while tail.len() > 0
        invariant
            n == reversed.len(),
            tail@.len() <= n,
            tail@.reverse() == reversed.skip(n - tail@.len()),
            out@ == head + reversed.take(n - tail@.len()),
        decreases tail@.len(),
    {
        let ghost before = tail@;
        let ghost done = n - tail@.len();
        match tail.pop() {
            Some(x) => {
                proof {
                    assert(before.reverse()[0] == x);
                    assert(reversed.skip(done).skip(1) =~= reversed.skip(done + 1));
                }
                out.push(x);
            },
            None => {},
        }
    }
    out
}

/// Sorts a vector; values that equal each other keep the order they had.
pub fn sort_stable<T: Ranked>(v: Vec<T>) -> (r: Vec<T>)
    ensures
        r@ == stable_sort(rank::<T>(), v@),
    decreases v@.len(),
{
    let ghost le = rank::<T>();
    let ghost all = v@;
    if v.len() <= 1 {
        proof {
            if all.len() == 1 {
                assert(stable_sort(le, all.drop_last()) =~= Seq::<T>::empty());
            }
        }
        return v;
    }
    let mut front = v;
    let back = front.split_off(front.len() / 2);
    proof {
        assert(all =~= front@ + back@);
        T::lemma_order();
        lemma_stable_sort_of_parts(le, front@, back@);
    }
    let sorted_front = sort_stable(front);
    let sorted_back = sort_stable(back);
    merge(sorted_front, sorted_back)
}

} // verus!
