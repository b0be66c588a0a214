//! Central tendency: mean, weighted mean, median and mode.
//!
//! Results that divide are returned as exact [`Ratio`]s; the caller divides.
//! Every function rejects the inputs on which the statistic is undefined with
//! a [`LogicError`] instead of returning a meaningless value.

use crate::error::LogicError;
use crate::error::ProgramError;
use crate::numeric::Ratio;
use crate::seq_facts::lemma_seq_sum_bounds;
use crate::seq_facts::lemma_seq_sum_take_step;
use crate::seq_facts::lemma_sort_of_ensures;
use crate::seq_facts::lemma_weighted_sum_bounds;
use crate::seq_facts::lemma_weighted_sum_take_step;
use crate::seq_facts::middle_count;
use crate::seq_facts::middle_sum;
use crate::seq_facts::seq_sum;
use crate::seq_facts::sort_of;
use crate::seq_facts::weighted_sum;
use crate::sorting::sorted_copy;
use vstd::prelude::*;
use vstd::seq_lib::group_to_multiset_ensures;

verus! {

/// What [`mean`] returns: the element sum over the length, or a report that
/// the sample was empty.
pub open spec fn mean_post(s: Seq<i32>, r: Result<Ratio, ProgramError>) -> bool {
    if s.len() == 0 {
        r == Err::<Ratio, ProgramError>(ProgramError::Logic(LogicError::EmptyInput))
    } else {
        r matches Ok(m) && m.well_formed() && m.num as int == seq_sum(s) && m.den as int == s.len()
    }
}

/// What [`weighted_mean`] returns: the sum of positional products over the
/// weight total, or which precondition failed.
pub open spec fn weighted_mean_post(d: Seq<i32>, w: Seq<i32>, r: Result<
    Ratio,
    ProgramError,
>) -> bool {
    if d.len() != w.len() {
        r == Err::<Ratio, ProgramError>(
            ProgramError::Logic(
                LogicError::SecondaryLengthMismatch {
                    data_len: d.len() as usize,
                    other_len: w.len() as usize,
                },
            ),
        )
    } else if seq_sum(w) == 0 {
        r == Err::<Ratio, ProgramError>(ProgramError::Logic(LogicError::ZeroWeightSum))
    } else {
        r matches Ok(m) && m.well_formed() && m.num as int == weighted_sum(d, w) && m.den as int == seq_sum(w)
    }
}

/// What [`median`] returns: the middle of the ascending reordering — the
/// middle element for an odd length, the mean of the two middle elements for
/// an even one — or a report that the sample was empty.
pub open spec fn median_post(s: Seq<i32>, r: Result<Ratio, ProgramError>) -> bool {
    if s.len() == 0 {
        r == Err::<Ratio, ProgramError>(ProgramError::Logic(LogicError::EmptyInput))
    } else {
        r matches Ok(m) && m.well_formed() && m.num as int == middle_sum(sort_of(s))
            && m.den as int == middle_count(sort_of(s))
    }
}

/// What [`mode`] returns: a value of the sample whose multiplicity no other
/// value exceeds, the smallest such value on a tie — or a report that the
/// sample was empty.
pub open spec fn mode_post(s: Seq<i32>, r: Result<i32, ProgramError>) -> bool {
    if s.len() == 0 {
        r == Err::<i32, ProgramError>(ProgramError::Logic(LogicError::EmptyInput))
    } else {
        r matches Ok(v) && {
            let m = s.to_multiset();
            &&& m.count(v) > 0
            &&& forall|x: i32| #[trigger] m.count(x) <= m.count(v)
            &&& forall|x: i32| #[trigger] m.count(x) == m.count(v) ==> v <= x
        }
    }
}

/// The element sum, exact in a 128-bit accumulator.
fn sum_values(v: &Vec<i32>) -> (r: i128)
    ensures
        r as int == seq_sum(v@),
{
    let mut acc: i128 = 0;
    let mut i: usize = 0;
    while i < v.len()
        invariant
            i <= v@.len(),
            acc as int == seq_sum(v@.take(i as int)),
        decreases v@.len() - i,
    {
        proof {
            lemma_seq_sum_take_step(v@, i as int);
            lemma_seq_sum_bounds(v@.take(i as int));
        }
        acc = acc + (v[i] as i128);
        i += 1;
    }
    proof {
        assert(v@.take(v@.len() as int) =~= v@);
    }
    acc
}

/// The average of the sample: its element sum over its length.
pub fn mean(data: &Vec<i32>) -> (r: Result<Ratio, ProgramError>)
    ensures
        mean_post(data@, r),
{
    if data.len() == 0 {
        return Err(ProgramError::Logic(LogicError::EmptyInput));
    }
    let num = sum_values(data);
    Ok(Ratio { num, den: data.len() as i128 })
}

/// The weighted average: each element contributes in proportion to the weight
/// at the same position.
pub fn weighted_mean(data: &Vec<i32>, weights: &Vec<i32>) -> (r: Result<Ratio, ProgramError>)
    ensures
        weighted_mean_post(data@, weights@, r),
{
    if data.len() != weights.len() {
        return Err(
            ProgramError::Logic(
                LogicError::SecondaryLengthMismatch {
                    data_len: data.len(),
                    other_len: weights.len(),
                },
            ),
        );
    }
    let den = sum_values(weights);
    if den == 0 {
        return Err(ProgramError::Logic(LogicError::ZeroWeightSum));
    }
    let mut acc: i128 = 0;
    let mut i: usize = 0;
    while i < data.len()
        invariant
            i <= data@.len(),
            data@.len() == weights@.len(),
            acc as int == weighted_sum(data@.take(i as int), weights@.take(i as int)),
        decreases data@.len() - i,
    {
        proof {
            lemma_weighted_sum_take_step(data@, weights@, i as int);
            lemma_weighted_sum_bounds(data@.take(i as int), weights@.take(i as int));
            assert((data@[i as int] as int) * (weights@[i as int] as int)
                <= 0x4000_0000_0000_0000 && (data@[i as int] as int) * (weights@[i as int] as int)
                >= -0x4000_0000_0000_0000) by (nonlinear_arith)
                requires
                    i32::MIN <= data@[i as int] <= i32::MAX,
                    i32::MIN <= weights@[i as int] <= i32::MAX,
            ;
        }
        acc = acc + (data[i] as i128) * (weights[i] as i128);
        i += 1;
    }
    proof {
        assert(data@.take(data@.len() as int) =~= data@);
        assert(weights@.take(weights@.len() as int) =~= weights@);
    }
    Ok(Ratio { num: acc, den })
}

/// The median: sorts a private copy ascending and takes the middle element,
/// or for an even length the mean of the two middle elements.
pub fn median(data: &Vec<i32>) -> (r: Result<Ratio, ProgramError>)
    ensures
        median_post(data@, r),
{
    if data.len() == 0 {
        return Err(ProgramError::Logic(LogicError::EmptyInput));
    }
    let t = sorted_copy(data);
    proof {
        lemma_sort_of_ensures(data@);
    }
    let n = t.len();
    if n % 2 == 1 {
        Ok(Ratio { num: t[n / 2] as i128, den: 1 })
    } else {
        Ok(Ratio { num: (t[n / 2 - 1] as i128) + (t[n / 2] as i128), den: 2 })
    }
}

/// How many times `v` occurs in the sample.
fn count_occurrences(data: &Vec<i32>, v: i32) -> (c: usize)
    ensures
        c as nat == data@.to_multiset().count(v),
{
    let mut c: usize = 0;
    let mut i: usize = 0;
    proof {
        broadcast use group_to_multiset_ensures;

        assert(!data@.take(0).contains(v));
        assert(data@.take(0).to_multiset().count(v) == 0);
    }
    while i < data.len()
        invariant
            i <= data@.len(),
            c <= i,
            c as nat == data@.take(i as int).to_multiset().count(v),
        decreases data@.len() - i,
    {
        proof {
            broadcast use group_to_multiset_ensures;
            broadcast use vstd::multiset::group_multiset_axioms;

            assert(data@.take(i + 1) =~= data@.take(i as int).push(data@[i as int]));
            assert(data@.take(i as int).push(data@[i as int]).to_multiset() =~= data@.take(
                i as int,
            ).to_multiset().insert(data@[i as int]));
        }
        if data[i] == v {
            c += 1;
        }
        i += 1;
    }
    proof {
        assert(data@.take(data@.len() as int) =~= data@);
    }
    c
}

/// The mode: the most frequent value, ties broken toward the smallest value.
pub fn mode(data: &Vec<i32>) -> (r: Result<i32, ProgramError>)
    ensures
        mode_post(data@, r),
{
    if data.len() == 0 {
        return Err(ProgramError::Logic(LogicError::EmptyInput));
    }
    let mut best_v: i32 = data[0];
    let mut best_c: usize = count_occurrences(data, best_v);
    let mut i: usize = 1;
    while i < data.len()
        invariant
            1 <= i <= data@.len(),
            exists|j: int| 0 <= j < i && data@[j] == best_v,
            best_c as nat == data@.to_multiset().count(best_v),
            forall|j: int|
                0 <= j < i ==> #[trigger] data@.to_multiset().count(data@[j]) <= best_c as nat,
            forall|j: int|
                0 <= j < i ==> (#[trigger] data@.to_multiset().count(data@[j]) == best_c as nat
                    ==> best_v <= data@[j]),
        decreases data@.len() - i,
    {
        let c = count_occurrences(data, data[i]);
        if c > best_c || (c == best_c && data[i] < best_v) {
            best_v = data[i];
            best_c = c;
        }
        i += 1;
    }
    proof {
        broadcast use group_to_multiset_ensures;

        let m = data@.to_multiset();
        assert(m.count(best_v) > 0) by {
            let j = choose|j: int| 0 <= j < data@.len() && data@[j] == best_v;
            assert(data@.contains(best_v));
        }
        assert forall|x: i32| #[trigger] m.count(x) <= m.count(best_v) by {
            if m.count(x) > 0 {
                assert(data@.contains(x));
                let j = choose|j: int| 0 <= j < data@.len() && data@[j] == x;
                assert(m.count(data@[j]) <= best_c as nat);
            }
        }
        assert forall|x: i32| #[trigger] m.count(x) == m.count(best_v) implies best_v <= x by {
            assert(m.count(x) > 0);
            assert(data@.contains(x));
            let j = choose|j: int| 0 <= j < data@.len() && data@[j] == x;
            assert(m.count(data@[j]) == best_c as nat);
        }
    }
    Ok(best_v)
}

/// The four day-zero statistics of one validated sample.
#[derive(Clone, Copy, Debug, PartialEq, Eq, Structural)]
pub struct Day0Report {
    pub mean: Ratio,
    pub median: Ratio,
    pub mode: i32,
    pub weighted_mean: Ratio,
}

/// What [`day0_results`] returns: either the first validation failure — the
/// declared count against the sample, then the sample against the weights,
/// then emptiness, then a zero weight total — or all four statistics.
pub open spec fn day0_results_post(
    n: usize,
    d: Seq<i32>,
    w: Seq<i32>,
    r: Result<Day0Report, ProgramError>,
) -> bool {
    if d.len() != n {
        r == Err::<Day0Report, ProgramError>(
            ProgramError::Logic(
                LogicError::DeclaredLengthMismatch { declared: n, actual: d.len() as usize },
            ),
        )
    } else if w.len() != d.len() {
        r == Err::<Day0Report, ProgramError>(
            ProgramError::Logic(
                LogicError::SecondaryLengthMismatch {
                    data_len: d.len() as usize,
                    other_len: w.len() as usize,
                },
            ),
        )
    } else if d.len() == 0 {
        r == Err::<Day0Report, ProgramError>(ProgramError::Logic(LogicError::EmptyInput))
    } else if seq_sum(w) == 0 {
        r == Err::<Day0Report, ProgramError>(ProgramError::Logic(LogicError::ZeroWeightSum))
    } else {
        r matches Ok(rep) && mean_post(d, Ok(rep.mean)) && median_post(d, Ok(rep.median))
            && mode_post(d, Ok(rep.mode)) && weighted_mean_post(d, w, Ok(rep.weighted_mean))
    }
}

/// The day-zero exercise on an already parsed input: validates the declared
/// count and the weight pairing, then computes mean, median, mode and
/// weighted mean. No statistic is computed once a validation has failed.
pub fn day0_results(n: usize, data: &Vec<i32>, weights: &Vec<i32>) -> (r: Result<
    Day0Report,
    ProgramError,
>)
    ensures
        day0_results_post(n, data@, weights@, r),
{
    if data.len() != n {
        return Err(
            ProgramError::Logic(
                LogicError::DeclaredLengthMismatch { declared: n, actual: data.len() },
            ),
        );
    }
    if weights.len() != data.len() {
        return Err(
            ProgramError::Logic(
                LogicError::SecondaryLengthMismatch {
                    data_len: data.len(),
                    other_len: weights.len(),
                },
            ),
        );
    }
    let mean_value = match mean(data) {
        Ok(v) => v,
        Err(e) => return Err(e),
    };
    let median_value = match median(data) {
        Ok(v) => v,
        Err(e) => return Err(e),
    };
    let mode_value = match mode(data) {
        Ok(v) => v,
        Err(e) => return Err(e),
    };
    let weighted = match weighted_mean(data, weights) {
        Ok(v) => v,
        Err(e) => return Err(e),
    };
    Ok(
        Day0Report {
            mean: mean_value,
            median: median_value,
            mode: mode_value,
            weighted_mean: weighted,
        },
    )
}

} // verus!
