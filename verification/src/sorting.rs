//! The executable sort the statistics share. Median and quartiles sort a
//! private copy of the caller's sample; the caller's vector is never touched.

use crate::seq_facts::ascending;
use crate::seq_facts::lemma_ascending_permutation_unique;
use crate::seq_facts::lemma_sort_of_ensures;
use crate::seq_facts::sort_of;
use vstd::prelude::*;
use vstd::seq_lib::group_to_multiset_ensures;

verus! {

/// The position of a minimal element.
fn min_index(v: &Vec<i32>) -> (r: usize)
    requires
        v@.len() > 0,
    ensures
        r < v@.len(),
        forall|k: int| 0 <= k < v@.len() ==> v@[r as int] <= v@[k],
{
    let mut best: usize = 0;
    let mut i: usize = 1;
    while i < v.len()
        invariant
            best < i <= v@.len(),
            forall|k: int| 0 <= k < i ==> v@[best as int] <= v@[k],
        decreases v@.len() - i,
    {
        if v[i] < v[best] {
            best = i;
        }
        i += 1;
    }
    best
}

/// The sample in ascending order, built on a private copy: selection sort,
/// repeatedly moving a minimal remaining element to the end of the output.
pub fn sorted_copy(data: &Vec<i32>) -> (r: Vec<i32>)
    ensures
        r@ == sort_of(data@),
{
    broadcast use group_to_multiset_ensures;
    broadcast use vstd::multiset::group_multiset_axioms;

    let mut rest: Vec<i32> = Vec::new();
    let mut i: usize = 0;
    while i < data.len()
        invariant
            i <= data@.len(),
            rest@ == data@.take(i as int),
        decreases data@.len() - i,
    {
        rest.push(data[i]);
        i += 1;
    }
    assert(rest@ =~= data@);

    let mut out: Vec<i32> = Vec::new();
    while rest.len() > 0
        invariant
            out@.to_multiset().add(rest@.to_multiset()) == data@.to_multiset(),
            ascending(out@),
            forall|p: int, q: int|
                0 <= p < out@.len() && 0 <= q < rest@.len() ==> out@[p] <= rest@[q],
        decreases rest@.len(),
    {
        let ghost out0 = out@;
        let ghost rest0 = rest@;
        let mi = min_index(&rest);
        let m = rest.remove(mi);
        out.push(m);
        proof {
            broadcast use group_to_multiset_ensures;
            broadcast use vstd::multiset::group_multiset_axioms;

            assert(rest@ == rest0.remove(mi as int));
            assert(rest0.remove(mi as int).to_multiset() =~= rest0.to_multiset().remove(
                rest0[mi as int],
            ));
            assert(out@ == out0.push(m));
            assert(out0.push(m).to_multiset() =~= out0.to_multiset().insert(m));
            assert(rest@.to_multiset() == rest0.to_multiset().remove(m));
            assert(out@.to_multiset() == out0.to_multiset().insert(m));
            assert(rest0.contains(m));
            assert(rest0.to_multiset().count(m) > 0);
            assert(out@.to_multiset().add(rest@.to_multiset()) =~= out0.to_multiset().add(
                rest0.to_multiset(),
            ));
            assert forall|p: int, q: int|
                0 <= p < out@.len() && 0 <= q < rest@.len() implies out@[p] <= rest@[q] by {
                if p < out0.len() {
                    if q < mi {
                        assert(rest@[q] == rest0[q]);
                    } else {
                        assert(rest@[q] == rest0[q + 1]);
                    }
                } else {
                    assert(out@[p] == m);
                    if q < mi {
                        assert(rest@[q] == rest0[q]);
                    } else {
                        assert(rest@[q] == rest0[q + 1]);
                    }
                }
            }
        }
    }
    proof {
        broadcast use group_to_multiset_ensures;
        broadcast use vstd::multiset::group_multiset_axioms;

        assert forall|x: i32| rest@.to_multiset().count(x) == 0 by {
            assert(!rest@.contains(x));
        }
        assert(out@.to_multiset() =~= out@.to_multiset().add(rest@.to_multiset()));
        lemma_sort_of_ensures(data@);
        lemma_ascending_permutation_unique(out@, sort_of(data@));
    }
    out
}

} // verus!
