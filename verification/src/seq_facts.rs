//! The mathematical model the contracts are stated over: sums, the canonical
//! ascending reordering of a sample, middle-element selection, positional
//! halves, and frequency expansion, together with the lemmas that relate them
//! to permutations.

use vstd::prelude::*;
use vstd::relations::sorted_by;
use vstd::relations::total_ordering;
use vstd::seq_lib::group_to_multiset_ensures;
use vstd::seq_lib::lemma_sorted_unique;

verus! {

/// The order the statistics sort samples by: ordinary `<=` on the values.
pub open spec fn value_order() -> spec_fn(i32, i32) -> bool {
    |a: i32, b: i32| a <= b
}

pub proof fn lemma_value_order_total()
    ensures
        total_ordering(value_order()),
{
    assert forall|a: i32| #[trigger] value_order()(a, a) by {}
}

/// The sample is in ascending order.
pub open spec fn ascending(s: Seq<i32>) -> bool {
    forall|i: int, j: int| 0 <= i < j < s.len() ==> s[i] <= s[j]
}

pub proof fn lemma_ascending_is_sorted_by(s: Seq<i32>)
    ensures
        ascending(s) <==> sorted_by(s, value_order()),
{
    if sorted_by(s, value_order()) {
        assert forall|i: int, j: int| 0 <= i < j < s.len() implies s[i] <= s[j] by {
            assert(value_order()(s[i], s[j]));
        }
    }
    if ascending(s) {
        assert forall|i: int, j: int| 0 <= i < j < s.len() implies #[trigger] value_order()(
            s[i],
            s[j],
        ) by {
            assert(s[i] <= s[j]);
        }
    }
}

/// The ascending reordering of a sample. Sorting is canonical: every
/// permutation of the same values has the same `sort_of`.
pub open spec fn sort_of(s: Seq<i32>) -> Seq<i32> {
    s.sort_by(value_order())
}

pub proof fn lemma_sort_of_ensures(s: Seq<i32>)
    ensures
        sort_of(s).to_multiset() == s.to_multiset(),
        ascending(sort_of(s)),
        sort_of(s).len() == s.len(),
{
    broadcast use group_to_multiset_ensures;

    lemma_value_order_total();
    s.lemma_sort_by_ensures(value_order());
    lemma_ascending_is_sorted_by(sort_of(s));
    assert(sort_of(s).to_multiset().len() == sort_of(s).len());
    assert(s.to_multiset().len() == s.len());
}

/// Two ascending sequences over the same values are equal.
pub proof fn lemma_ascending_permutation_unique(t1: Seq<i32>, t2: Seq<i32>)
    requires
        ascending(t1),
        ascending(t2),
        t1.to_multiset() == t2.to_multiset(),
    ensures
        t1 == t2,
{
    lemma_value_order_total();
    lemma_ascending_is_sorted_by(t1);
    lemma_ascending_is_sorted_by(t2);
    lemma_sorted_unique(t1, t2, value_order());
    assert(t1 =~= t2);
}

/// An already ascending sequence is its own canonical reordering.
pub proof fn lemma_sort_of_ascending(t: Seq<i32>)
    requires
        ascending(t),
    ensures
        sort_of(t) == t,
{
    lemma_sort_of_ensures(t);
    lemma_ascending_permutation_unique(sort_of(t), t);
}

/// Sorting only looks at the values, not their arrangement.
pub proof fn lemma_sort_of_permutation(s1: Seq<i32>, s2: Seq<i32>)
    requires
        s1.to_multiset() == s2.to_multiset(),
    ensures
        sort_of(s1) == sort_of(s2),
{
    lemma_sort_of_ensures(s1);
    lemma_sort_of_ensures(s2);
    lemma_ascending_permutation_unique(sort_of(s1), sort_of(s2));
}

/// The sum of all elements, as an unbounded integer.
pub open spec fn seq_sum(s: Seq<i32>) -> int
    decreases s.len(),
{
    if s.len() == 0 {
        0
    } else {
        seq_sum(s.drop_last()) + s.last()
    }
}

pub proof fn lemma_seq_sum_bounds(s: Seq<i32>)
    ensures
        i32::MIN * s.len() <= seq_sum(s) <= i32::MAX * s.len(),
    decreases s.len(),
{
    if s.len() > 0 {
        lemma_seq_sum_bounds(s.drop_last());
    }
}

pub proof fn lemma_seq_sum_take_step(s: Seq<i32>, i: int)
    requires
        0 <= i < s.len(),
    ensures
        seq_sum(s.take(i + 1)) == seq_sum(s.take(i)) + s[i],
{
    assert(s.take(i + 1).drop_last() =~= s.take(i));
    assert(s.take(i + 1).last() == s[i]);
}

pub proof fn lemma_seq_sum_remove(s: Seq<i32>, i: int)
    requires
        0 <= i < s.len(),
    ensures
        seq_sum(s) == s[i] + seq_sum(s.remove(i)),
    decreases s.len(),
{
    if i == s.len() - 1 {
        assert(s.remove(i) =~= s.drop_last());
    } else {
        assert(s.remove(i).drop_last() =~= s.drop_last().remove(i));
        assert(s.remove(i).last() == s.last());
        lemma_seq_sum_remove(s.drop_last(), i);
    }
}

/// The sum of a sample depends only on which values it holds, with their
/// multiplicities, not on their order.
pub proof fn lemma_seq_sum_permutation(s1: Seq<i32>, s2: Seq<i32>)
    requires
        s1.to_multiset() == s2.to_multiset(),
    ensures
        seq_sum(s1) == seq_sum(s2),
    decreases s1.len(),
{
    broadcast use group_to_multiset_ensures;

    if s1.len() == 0 {
        assert(s2.to_multiset().len() == 0);
    } else {
        let a = s1.last();
        let last = s1.len() - 1;
        assert(s1.contains(a));
        assert(s2.to_multiset().count(a) > 0);
        assert(s2.contains(a));
        let j = choose|j: int| 0 <= j < s2.len() && s2[j] == a;
        lemma_seq_sum_remove(s2, j);
        lemma_seq_sum_remove(s1, last);
        assert(s1.remove(last) =~= s1.drop_last());
        assert(s1.remove(last).to_multiset() == s1.to_multiset().remove(a));
        assert(s2.remove(j).to_multiset() == s2.to_multiset().remove(a));
        lemma_seq_sum_permutation(s1.remove(last), s2.remove(j));
    }
}

/// The sum of the positional products `d[i] * w[i]`, as an unbounded integer.
pub open spec fn weighted_sum(d: Seq<i32>, w: Seq<i32>) -> int
    recommends
        d.len() == w.len(),
    decreases d.len(),
{
    if d.len() == 0 || w.len() == 0 {
        0
    } else {
        weighted_sum(d.drop_last(), w.drop_last()) + d.last() * w.last()
    }
}

pub proof fn lemma_weighted_sum_bounds(d: Seq<i32>, w: Seq<i32>)
    ensures
        -(0x4000_0000_0000_0000 * d.len()) <= weighted_sum(d, w) <= 0x4000_0000_0000_0000
            * d.len(),
    decreases d.len(),
{
    if d.len() > 0 && w.len() > 0 {
        lemma_weighted_sum_bounds(d.drop_last(), w.drop_last());
        let x = d.last();
        let y = w.last();
        assert(-0x4000_0000_0000_0000 <= x * y <= 0x4000_0000_0000_0000) by (nonlinear_arith)
            requires
                i32::MIN <= x <= i32::MAX,
                i32::MIN <= y <= i32::MAX,
        ;
    }
}

pub proof fn lemma_weighted_sum_take_step(d: Seq<i32>, w: Seq<i32>, i: int)
    requires
        0 <= i < d.len(),
        0 <= i < w.len(),
    ensures
        weighted_sum(d.take(i + 1), w.take(i + 1)) == weighted_sum(d.take(i), w.take(i)) + d[i]
            * w[i],
{
    assert(d.take(i + 1).drop_last() =~= d.take(i));
    assert(w.take(i + 1).drop_last() =~= w.take(i));
}

/// The sum of the middle element (odd length) or of the two middle elements
/// (even length). Divided by [`middle_count`] this is the median of an
/// ascending sequence.
pub open spec fn middle_sum(t: Seq<i32>) -> int
    recommends
        t.len() > 0,
{
    let n = t.len() as int;
    if n % 2 == 1 {
        t[n / 2] as int
    } else {
        t[n / 2 - 1] + t[n / 2]
    }
}

/// How many middle elements [`middle_sum`] adds up: one for an odd length,
/// two for an even one.
pub open spec fn middle_count(t: Seq<i32>) -> int {
    if t.len() % 2 == 1 {
        1
    } else {
        2
    }
}

/// The first half of an ascending sample, by position: its first `len / 2`
/// elements.
pub open spec fn lower_half(t: Seq<i32>) -> Seq<i32> {
    t.take((t.len() as int) / 2)
}

/// The second half of an ascending sample, by position: its last `len / 2`
/// elements. For an odd length the middle element belongs to neither half.
pub open spec fn upper_half(t: Seq<i32>) -> Seq<i32> {
    let n = t.len() as int;
    if n % 2 == 0 {
        t.skip(n / 2)
    } else {
        t.skip(n / 2 + 1)
    }
}

/// `n` copies of the value `v`.
pub open spec fn repeat_value(v: i32, n: nat) -> Seq<i32> {
    Seq::new(n, |i: int| v)
}

/// The working sample for the interquartile range: each `d[i]` repeated
/// `f[i]` times, contiguously, in index order. A negative repetition count
/// contributes nothing (executable code rejects it before expanding).
pub open spec fn expand(d: Seq<i32>, f: Seq<i32>) -> Seq<i32>
    recommends
        d.len() == f.len(),
    decreases d.len(),
{
    if d.len() == 0 || f.len() == 0 {
        Seq::empty()
    } else {
        expand(d.drop_last(), f.drop_last()) + repeat_value(
            d.last(),
            if f.last() >= 0 {
                f.last() as nat
            } else {
                0
            },
        )
    }
}

pub proof fn lemma_expand_take_step(d: Seq<i32>, f: Seq<i32>, i: int)
    requires
        0 <= i < d.len(),
        0 <= i < f.len(),
        f[i] >= 0,
    ensures
        expand(d.take(i + 1), f.take(i + 1)) == expand(d.take(i), f.take(i)) + repeat_value(
            d[i],
            f[i] as nat,
        ),
{
    assert(d.take(i + 1).drop_last() =~= d.take(i));
    assert(f.take(i + 1).drop_last() =~= f.take(i));
}

} // verus!
