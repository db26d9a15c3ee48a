//! The records of an archive in the order of the index, and the keys of
//! the seeds among them.

use vstd::prelude::*;
use vstd::string::*;
use crate::model::ResponseMetadata;
use crate::order::{
    lemma_stable_sort_ordered, lemma_stable_sort_permutes, ordered, rank, sort_stable, stable_sort,
    total_preorder, Ranked,
};
use crate::text::{
    lemma_bytes_le_antisym, lemma_bytes_le_total, lemma_bytes_le_trans, text_before_or_equal,
    text_le, utf8,
};

verus! {


/// One record of the archive: the key it is stored under, what the
/// response said about itself, and its body (or what the body is read by).
#[derive(Debug)]
pub struct ArchiveEntry<B> {
    pub key: String,
    pub body: B,
    pub meta: ResponseMetadata,
}

/// Records are ordered by key, and records of one key by time.
pub open spec fn record_le(a: (Seq<char>, int), b: (Seq<char>, int)) -> bool {
    if a.0 == b.0 {
        a.1 <= b.1
    } else {
        text_le(a.0, b.0)
    }
}

impl<B> ArchiveEntry<B> {
    /// What a record is ordered by: its key and the time of its fetch.
    pub open spec fn place(self) -> (Seq<char>, int) {
        (self.key@, self.meta.fetched_at@)
    }
}

impl<B> Ranked for ArchiveEntry<B> {
    open spec fn comes_before(a: Self, b: Self) -> bool {
        record_le(a.place(), b.place())
    }

    fn before_or_equal(&self, other: &Self) -> (r: bool) {
        if self.key == other.key {
            self.meta.fetched_at.not_after(&other.meta.fetched_at)
        } else {
            text_before_or_equal(self.key.as_str(), other.key.as_str())
        }
    }

    proof fn lemma_order() {
        lemma_record_le_total_preorder();
        let places = |a: (Seq<char>, int), b: (Seq<char>, int)| record_le(a, b);
        let le = |a: Self, b: Self| Self::comes_before(a, b);
        assert forall|a: Self, b: Self| #[trigger] le(a, b) || #[trigger] le(b, a) by {
            assert(places(a.place(), b.place()) || places(b.place(), a.place()));
        }
        assert forall|a: Self, b: Self, c: Self| #[trigger] le(a, b) && #[trigger] le(
            b,
            c,
        ) implies le(a, c) by {
            assert(places(a.place(), b.place()) && places(b.place(), c.place()) ==> places(
                a.place(),
                c.place(),
            ));
        }
    }
}

impl Ranked for String {
    open spec fn comes_before(a: Self, b: Self) -> bool {
        text_le(a@, b@)
    }

    fn before_or_equal(&self, other: &Self) -> (r: bool) {
        text_before_or_equal(self.as_str(), other.as_str())
    }

    proof fn lemma_order() {
        let le = |a: Self, b: Self| Self::comes_before(a, b);
        assert forall|a: Self, b: Self| #[trigger] le(a, b) || #[trigger] le(b, a) by {
            lemma_bytes_le_total(utf8(a@), utf8(b@));
        }
        assert forall|a: Self, b: Self, c: Self| #[trigger] le(a, b) && #[trigger] le(
            b,
            c,
        ) implies le(a, c) by {
            lemma_bytes_le_trans(utf8(a@), utf8(b@), utf8(c@));
        }
    }
}

/// Two texts that come before or equal each other are one text.
pub proof fn lemma_text_le_antisym(a: Seq<char>, b: Seq<char>)
    requires
        text_le(a, b),
        text_le(b, a),
    ensures
        a == b,
{
    lemma_bytes_le_antisym(utf8(a), utf8(b));
    vstd::utf8::encode_utf8_decode_utf8(a);
    vstd::utf8::encode_utf8_decode_utf8(b);
}

/// The order of records compares any two and is transitive.
pub proof fn lemma_record_le_total_preorder()
    ensures
        total_preorder(|a: (Seq<char>, int), b: (Seq<char>, int)| record_le(a, b)),
{
    let le = |a: (Seq<char>, int), b: (Seq<char>, int)| record_le(a, b);
    assert forall|a: (Seq<char>, int), b: (Seq<char>, int)| #[trigger] le(a, b) || #[trigger] le(
        b,
        a,
    ) by {
        lemma_bytes_le_total(utf8(a.0), utf8(b.0));
    }
    assert forall|a: (Seq<char>, int), b: (Seq<char>, int), c: (Seq<char>, int)| #[trigger]
        le(a, b) && #[trigger] le(b, c) implies le(a, c) by {
        if a.0 == b.0 {
        } else if b.0 == c.0 {
        } else {
            lemma_bytes_le_trans(utf8(a.0), utf8(b.0), utf8(c.0));
            if a.0 == c.0 {
                lemma_text_le_antisym(a.0, b.0);
            }
        }
    }
}

/// The order of archive entries compares any two and is transitive.
pub proof fn lemma_entry_order<B>()
    ensures
        total_preorder(rank::<ArchiveEntry<B>>()),
{
    ArchiveEntry::<B>::lemma_order();
}

/// The order of strings compares any two and is transitive.
pub proof fn lemma_string_order()
    ensures
        total_preorder(rank::<String>()),
{
    String::lemma_order();
}

/// Puts the records of an archive in the order of the index: by key, and
/// records of one key by the time of their fetch. The result holds the
/// same records, each as often as before.
pub fn sort_records<B>(records: Vec<ArchiveEntry<B>>) -> (r: Vec<ArchiveEntry<B>>)
    ensures
        r@ == stable_sort(rank::<ArchiveEntry<B>>(), records@),
        ordered(rank::<ArchiveEntry<B>>(), r@),
        r@.to_multiset() == records@.to_multiset(),
{
    proof {
        lemma_entry_order::<B>();
        lemma_stable_sort_ordered(rank::<ArchiveEntry<B>>(), records@);
        lemma_stable_sort_permutes(rank::<ArchiveEntry<B>>(), records@);
    }
    sort_stable(records)
}

/// The texts of a list of strings.
pub open spec fn texts(keys: Seq<String>) -> Seq<Seq<char>> {
    Seq::new(keys.len(), |i: int| keys[i]@)
}

/// Every text comes before every later one, and none stands twice.
pub open spec fn strictly_ordered(s: Seq<Seq<char>>) -> bool {
    forall|i: int, j: int| 0 <= i < j < s.len() ==> text_le(#[trigger] s[i], #[trigger] s[j]) && s[i] != s[j]
}

/// Sorting leaves the texts of a list of keys what they were.
proof fn lemma_sorted_texts(keys: Seq<String>)
    ensures
        texts(stable_sort(rank::<String>(), keys)).to_set() == texts(keys).to_set(),
{
    broadcast use vstd::seq_lib::group_to_multiset_ensures;

    lemma_stable_sort_permutes(rank::<String>(), keys);
    let sorted = stable_sort(rank::<String>(), keys);
    assert forall|k: Seq<char>| texts(sorted).to_set().contains(k) == texts(keys).to_set().contains(
        k,
    ) by {
        if texts(sorted).contains(k) {
            let i = choose|i: int| 0 <= i < sorted.len() && texts(sorted)[i] == k;
            assert(sorted.to_multiset().count(sorted[i]) > 0);
            let j = choose|j: int| 0 <= j < keys.len() && keys[j] == sorted[i];
            assert(texts(keys)[j] == k);
        }
        if texts(keys).contains(k) {
            let i = choose|i: int| 0 <= i < keys.len() && texts(keys)[i] == k;
            assert(keys.to_multiset().count(keys[i]) > 0);
            let j = choose|j: int| 0 <= j < sorted.len() && sorted[j] == keys[i];
            assert(texts(sorted)[j] == k);
        }
    }
    assert(texts(sorted).to_set() =~= texts(keys).to_set());
}

/// Puts keys in order and drops what stands twice: the result holds every
/// key once, each before every later one.
pub fn sorted_keys(keys: Vec<String>) -> (r: Vec<String>)
    ensures
        strictly_ordered(texts(r@)),
        texts(r@).to_set() == texts(keys@).to_set(),
{
    proof {
        lemma_string_order();
        lemma_stable_sort_ordered(rank::<String>(), keys@);
        lemma_sorted_texts(keys@);
    }
    let sorted = sort_stable(keys);
    let ghost all = sorted@;
    let mut out: Vec<String> = Vec::new();
    for key in it: sorted.into_iter()
        invariant
            it.seq() == all,
            ordered(rank::<String>(), all),
            strictly_ordered(texts(out@)),
            it.index() > 0 ==> out@.len() > 0 && out@.last()@ == all[it.index() - 1]@,
            forall|k: int|
                0 <= k < out@.len() ==> texts(all.take(it.index() as int)).contains(
                    #[trigger] texts(out@)[k],
                ),
            forall|m: int|
                0 <= m < it.index() ==> texts(out@).contains(#[trigger] texts(all)[m]),
    {
        let ghost i = it.index() as int;
        let ghost before = out@;
        let fresh = out.len() == 0 || out[out.len() - 1] != key;
        if fresh {
            out.push(key);
        }
        proof {
            let after = out@;
            assert(all.take(i + 1) =~= all.take(i).push(all[i]));
            assert forall|k: int| 0 <= k < after.len() implies texts(all.take(i + 1)).contains(
                #[trigger] texts(after)[k],
            ) by {
                if k < before.len() {
                    let v = texts(before)[k];
                    assert(texts(all.take(i)).contains(v));
                    let m = choose|m: int| 0 <= m < i && texts(all.take(i))[m] == v;
                    assert(texts(all.take(i + 1))[m] == v);
                } else {
                    assert(texts(all.take(i + 1))[i] == texts(after)[k]);
                }
            }
            assert forall|m: int| 0 <= m < i + 1 implies texts(after).contains(
                #[trigger] texts(all)[m],
            ) by {
                if m < i {
                    let v = texts(all)[m];
                    assert(texts(before).contains(v));
                    let k = choose|k: int| 0 <= k < before.len() && texts(before)[k] == v;
                    assert(texts(after)[k] == v);
                } else {
                    assert(texts(after)[after.len() - 1] == texts(all)[i]);
                }
            }
            if fresh {
                assert forall|a: int, b: int| 0 <= a < b < after.len() implies text_le(
                    #[trigger] texts(after)[a],
                    #[trigger] texts(after)[b],
                ) && texts(after)[a] != texts(after)[b] by {
                    if b == before.len() {
                        let v = texts(before)[a];
                        assert(texts(all.take(i)).contains(v));
                        let m = choose|m: int| 0 <= m < i && texts(all.take(i))[m] == v;
                        assert(rank::<String>()(all[m], all[i]));
                        if v == key@ {
                            assert(rank::<String>()(all[i - 1], all[i]));
                            if a < before.len() - 1 {
                                assert(text_le(texts(before)[a], texts(before)[before.len() - 1]));
                                lemma_text_le_antisym(v, before.last()@);
                            }
                        }
                    } else {
                        assert(texts(before)[a] == texts(after)[a]);
                        assert(texts(before)[b] == texts(after)[b]);
                    }
                }
            }
        }
    }
    proof {
        assert(all.take(all.len() as int) =~= all);
        assert forall|v: Seq<char>| texts(out@).to_set().contains(v) == texts(all).to_set().contains(
            v,
        ) by {
            if texts(out@).contains(v) {
                let k = choose|k: int| 0 <= k < out@.len() && texts(out@)[k] == v;
                assert(texts(all).contains(texts(out@)[k]));
            }
            if texts(all).contains(v) {
                let m = choose|m: int| 0 <= m < all.len() && texts(all)[m] == v;
                assert(texts(out@).contains(texts(all)[m]));
            }
        }
        assert(texts(out@).to_set() =~= texts(all).to_set());
    }
    out
}

/// The keys of the seeds of a crawl, kept in order so that one can be
/// looked up quickly.
#[derive(Debug)]
pub struct EntryPoints {
    keys: Vec<String>,
}

impl View for EntryPoints {
    type V = Set<Seq<char>>;

    closed spec fn view(&self) -> Set<Seq<char>> {
        texts(self.keys@).to_set()
    }
}

impl EntryPoints {
    #[verifier::type_invariant]
    spec fn inv(&self) -> bool {
        ordered(rank::<String>(), self.keys@)
    }

    /// The entry points with the given keys, in any order.
    pub fn new(keys: Vec<String>) -> (r: EntryPoints)
        ensures
            r@ == texts(keys@).to_set(),
    {
        let sorted = sorted_keys(keys);
        proof {
            assert forall|i: int, j: int| 0 <= i < j < sorted@.len() implies #[trigger] rank::<
                String,
            >()(sorted@[i], sorted@[j]) by {
                assert(text_le(texts(sorted@)[i], texts(sorted@)[j]));
            }
        }
        EntryPoints { keys: sorted }
    }

    /// Whether a key is the key of a seed.
    pub fn contains(&self, key: &str) -> (r: bool)
        ensures
            r == self@.contains(key@),
    {
        proof {
            use_type_invariant(self);
            lemma_string_order();
        }
        let mut lo: usize = 0;
        let mut hi: usize = self.keys.len();
        while lo < hi
            invariant
                lo <= hi <= self.keys@.len(),
                ordered(rank::<String>(), self.keys@),
                forall|i: int| 0 <= i < lo ==> (#[trigger] self.keys@[i])@ != key@ && text_le(
                    self.keys@[i]@,
                    key@,
                ),
                forall|i: int| hi <= i < self.keys@.len() ==> (#[trigger] self.keys@[i])@ != key@,
            decreases hi - lo,
        {
            let mid = lo + (hi - lo) / 2;
            let here = self.keys[mid].as_str();
            let not_after = text_before_or_equal(here, key);
            let not_before = text_before_or_equal(key, here);
            if not_after && not_before {
                proof {
                    lemma_text_le_antisym(here@, key@);
                    assert(texts(self.keys@)[mid as int] == key@);
                }
                return true;
            } else if not_after {
                proof {
                    assert forall|i: int| 0 <= i < mid + 1 implies (#[trigger] self.keys@[i])@
                        != key@ && text_le(self.keys@[i]@, key@) by {
                        if i < mid {
                            assert(rank::<String>()(self.keys@[i], self.keys@[mid as int]));
                            lemma_bytes_le_trans(utf8(self.keys@[i]@), utf8(here@), utf8(key@));
                        }
                    }
                }
                lo = mid + 1;
            } else {
                proof {
                    lemma_bytes_le_total(utf8(here@), utf8(key@));
                    assert forall|i: int| mid <= i < self.keys@.len() implies (
                    #[trigger] self.keys@[i])@ != key@ by {
                        if i > mid {
                            assert(rank::<String>()(self.keys@[mid as int], self.keys@[i]));
                        }
                    }
                }
                hi = mid;
            }
        }
        proof {
            assert(!texts(self.keys@).contains(key@)) by {
                if texts(self.keys@).contains(key@) {
                    let i = choose|i: int|
                        0 <= i < self.keys@.len() && texts(self.keys@)[i] == key@;
                }
            }
        }
        false
    }
}

} // verus!
