//! General laws of the library, proved from the public contracts alone: they
//! hold of any implementation meeting those contracts, not just of the bodies
//! in this crate.

use crate::day0::day0_results_post;
use crate::day0::mean_post;
use crate::day0::median_post;
use crate::day0::mode_post;
use crate::day0::Day0Report;
use crate::day1::day1_results_post;
use crate::day1::quartiles_post;
use crate::day1::Day1Report;
use crate::error::LogicError;
use crate::error::ProgramError;
use crate::numeric::Ratio;
use crate::seq_facts::lemma_seq_sum_permutation;
use crate::seq_facts::lemma_sort_of_permutation;
use crate::seq_facts::seq_sum;
use vstd::prelude::*;
use vstd::seq_lib::group_to_multiset_ensures;

verus! {

/// The mean of a one-element sample is that element.
pub proof fn lemma_mean_of_singleton(x: i32, r: Result<Ratio, ProgramError>)
    requires
        mean_post(seq![x], r),
    ensures
        r matches Ok(m) && m.num as int == x as int && m.den as int == 1,
{
    let s = seq![x];
    assert(s.drop_last() =~= Seq::<i32>::empty());
    assert(seq_sum(s.drop_last()) == 0);
    assert(seq_sum(s) == seq_sum(s.drop_last()) + s.last());
    assert(s.last() == x);
}

/// The median is a function of its input alone: two calls on the same,
/// unmutated sample return identical results. (The functions take their
/// sample by shared reference, so the caller's data cannot change between
/// the calls.)
pub proof fn lemma_median_deterministic(
    s: Seq<i32>,
    r1: Result<Ratio, ProgramError>,
    r2: Result<Ratio, ProgramError>,
)
    requires
        median_post(s, r1),
        median_post(s, r2),
    ensures
        r1 == r2,
{
    if s.len() > 0 {
        assert(r1->Ok_0 == r2->Ok_0);
    }
}

/// Quartiles are a function of their input alone: two calls on the same,
/// unmutated sample return identical triples.
pub proof fn lemma_quartiles_deterministic(
    s: Seq<i32>,
    r1: Result<(Ratio, Ratio, Ratio), ProgramError>,
    r2: Result<(Ratio, Ratio, Ratio), ProgramError>,
)
    requires
        quartiles_post(s, r1),
        quartiles_post(s, r2),
    ensures
        r1 == r2,
{
    if s.len() >= 2 {
        assert(r1->Ok_0 == r2->Ok_0);
    }
}

/// The mean does not depend on the arrangement of the sample: any two
/// samples holding the same values with the same multiplicities have the
/// same mean.
pub proof fn lemma_mean_permutation_invariant(
    s1: Seq<i32>,
    s2: Seq<i32>,
    r1: Result<Ratio, ProgramError>,
    r2: Result<Ratio, ProgramError>,
)
    requires
        s1.to_multiset() == s2.to_multiset(),
        mean_post(s1, r1),
        mean_post(s2, r2),
    ensures
        r1 == r2,
{
    broadcast use group_to_multiset_ensures;

    assert(s1.len() == s1.to_multiset().len());
    assert(s2.len() == s2.to_multiset().len());
    lemma_seq_sum_permutation(s1, s2);
    if s1.len() > 0 {
        assert(r1->Ok_0 == r2->Ok_0);
    }
}

/// The mode does not depend on the arrangement of the sample.
pub proof fn lemma_mode_permutation_invariant(
    s1: Seq<i32>,
    s2: Seq<i32>,
    r1: Result<i32, ProgramError>,
    r2: Result<i32, ProgramError>,
)
    requires
        s1.to_multiset() == s2.to_multiset(),
        mode_post(s1, r1),
        mode_post(s2, r2),
    ensures
        r1 == r2,
{
    broadcast use group_to_multiset_ensures;

    assert(s1.len() == s1.to_multiset().len());
    assert(s2.len() == s2.to_multiset().len());
    if s1.len() > 0 {
        let m = s1.to_multiset();
        let v1 = r1->Ok_0;
        let v2 = r2->Ok_0;
        assert(m.count(v1) <= m.count(v2));
        assert(m.count(v2) <= m.count(v1));
        assert(v1 <= v2);
        assert(v2 <= v1);
    }
}

/// The median does not depend on the arrangement of the sample: it sorts a
/// private copy, and every arrangement sorts to the same sequence.
pub proof fn lemma_median_permutation_invariant(
    s1: Seq<i32>,
    s2: Seq<i32>,
    r1: Result<Ratio, ProgramError>,
    r2: Result<Ratio, ProgramError>,
)
    requires
        s1.to_multiset() == s2.to_multiset(),
        median_post(s1, r1),
        median_post(s2, r2),
    ensures
        r1 == r2,
{
    broadcast use group_to_multiset_ensures;

    assert(s1.len() == s1.to_multiset().len());
    assert(s2.len() == s2.to_multiset().len());
    lemma_sort_of_permutation(s1, s2);
    if s1.len() > 0 {
        assert(r1->Ok_0 == r2->Ok_0);
    }
}

/// Quartiles do not depend on the arrangement of the sample.
pub proof fn lemma_quartiles_permutation_invariant(
    s1: Seq<i32>,
    s2: Seq<i32>,
    r1: Result<(Ratio, Ratio, Ratio), ProgramError>,
    r2: Result<(Ratio, Ratio, Ratio), ProgramError>,
)
    requires
        s1.to_multiset() == s2.to_multiset(),
        quartiles_post(s1, r1),
        quartiles_post(s2, r2),
    ensures
        r1 == r2,
{
    broadcast use group_to_multiset_ensures;

    assert(s1.len() == s1.to_multiset().len());
    assert(s2.len() == s2.to_multiset().len());
    lemma_sort_of_permutation(s1, s2);
    if s1.len() >= 2 {
        assert(r1->Ok_0 == r2->Ok_0);
    }
}

/// A day-zero run whose secondary sequence does not pair up with the sample
/// fails with a logic error citing both lengths; the contract leaves no room
/// for computing any statistic first.
pub proof fn lemma_day0_length_mismatch(
    n: usize,
    d: Seq<i32>,
    w: Seq<i32>,
    r: Result<Day0Report, ProgramError>,
)
    requires
        d.len() == n,
        w.len() != d.len(),
        day0_results_post(n, d, w, r),
    ensures
        r == Err::<Day0Report, ProgramError>(
            ProgramError::Logic(
                LogicError::SecondaryLengthMismatch {
                    data_len: d.len() as usize,
                    other_len: w.len() as usize,
                },
            ),
        ),
{
}

/// A day-one run whose frequency sequence does not match the declared count
/// fails with a logic error citing both lengths.
pub proof fn lemma_day1_length_mismatch(
    n: usize,
    d: Seq<i32>,
    f: Seq<i32>,
    r: Result<Day1Report, ProgramError>,
)
    requires
        d.len() == n,
        f.len() != n,
        day1_results_post(n, d, f, r),
    ensures
        r == Err::<Day1Report, ProgramError>(
            ProgramError::Logic(
                LogicError::DeclaredLengthMismatch { declared: n, actual: f.len() as usize },
            ),
        ),
{
}

} // verus!
