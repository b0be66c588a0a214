//! Dispersion: quartiles and the interquartile range.
//!
//! Quartiles partition the ascending reordering by position: the lower half
//! is the first `len / 2` elements, the upper half the last `len / 2`; for an
//! odd length the middle element belongs to neither half. Q1, Q2 and Q3 are
//! the medians of the lower half, the whole sample and the upper half.

use crate::day0::median;
use crate::error::LogicError;
use crate::error::ProgramError;
use crate::numeric::Ratio;
use crate::seq_facts::ascending;
use crate::seq_facts::expand;
use crate::seq_facts::lemma_expand_take_step;
use crate::seq_facts::lemma_sort_of_ascending;
use crate::seq_facts::lemma_sort_of_ensures;
use crate::seq_facts::lower_half;
use crate::seq_facts::middle_count;
use crate::seq_facts::middle_sum;
use crate::seq_facts::repeat_value;
use crate::seq_facts::sort_of;
use crate::seq_facts::upper_half;
use crate::sorting::sorted_copy;
use vstd::prelude::*;

verus! {

/// What [`quartiles`] returns: the medians of the lower half, the whole
/// sample and the upper half of the ascending reordering, or a report that
/// fewer than two elements leave a half empty.
pub open spec fn quartiles_post(s: Seq<i32>, r: Result<
    (Ratio, Ratio, Ratio),
    ProgramError,
>) -> bool {
    if s.len() < 2 {
        r == Err::<(Ratio, Ratio, Ratio), ProgramError>(
            ProgramError::Logic(LogicError::TooFewElements { len: s.len() as usize }),
        )
    } else {
        let t = sort_of(s);
        r matches Ok(q) && {
            &&& q.0.well_formed() && q.1.well_formed() && q.2.well_formed()
            &&& q.0.num as int == middle_sum(lower_half(t))
            &&& q.0.den as int == middle_count(lower_half(t))
            &&& q.1.num as int == middle_sum(t)
            &&& q.1.den as int == middle_count(t)
            &&& q.2.num as int == middle_sum(upper_half(t))
            &&& q.2.den as int == middle_count(upper_half(t))
        }
    }
}

/// What [`interquartile_range`] returns: Q3 minus Q1 of the
/// frequency-expanded sample as an exact cross-multiplied ratio, or the first
/// failed validation — the pairing of the two sequences, then a negative
/// frequency (reported at its first position), then an expansion too short
/// for quartiles.
pub open spec fn iqr_post(d: Seq<i32>, f: Seq<i32>, r: Result<Ratio, ProgramError>) -> bool {
    if d.len() != f.len() {
        r == Err::<Ratio, ProgramError>(
            ProgramError::Logic(
                LogicError::SecondaryLengthMismatch {
                    data_len: d.len() as usize,
                    other_len: f.len() as usize,
                },
            ),
        )
    } else if exists|i: int| 0 <= i < f.len() && f[i] < 0 {
        r matches Err(ProgramError::Logic(LogicError::NegativeFrequency { index })) && f[
            index as int
        ] < 0 && (forall|k: int| 0 <= k < index as int ==> f[k] >= 0)
    } else if expand(d, f).len() < 2 {
        r == Err::<Ratio, ProgramError>(
            ProgramError::Logic(
                LogicError::TooFewElements { len: expand(d, f).len() as usize },
            ),
        )
    } else {
        let t = sort_of(expand(d, f));
        r matches Ok(q) && q.well_formed() && q.num as int == middle_sum(upper_half(t))
            * middle_count(lower_half(t))
            - middle_sum(lower_half(t)) * middle_count(upper_half(t)) && q.den as int
            == middle_count(lower_half(t)) * middle_count(upper_half(t))
    }
}

/// The quartile triple (Q1, Q2, Q3) of the sample.
pub fn quartiles(data: &Vec<i32>) -> (r: Result<(Ratio, Ratio, Ratio), ProgramError>)
    ensures
        quartiles_post(data@, r),
{
    if data.len() < 2 {
        return Err(ProgramError::Logic(LogicError::TooFewElements { len: data.len() }));
    }
    let t = sorted_copy(data);
    proof {
        lemma_sort_of_ensures(data@);
        lemma_sort_of_ascending(t@);
    }
    let q2 = match median(&t) {
        Ok(v) => v,
        Err(e) => return Err(e),
    };
    let half = t.len() / 2;
    let mut lower: Vec<i32> = Vec::new();
    let mut k: usize = 0;
    while k < half
        invariant
            k <= half,
            half == t@.len() / 2,
            lower@ == t@.take(k as int),
        decreases half - k,
    {
        lower.push(t[k]);
        k += 1;
    }
    let start = if t.len() % 2 == 0 {
        half
    } else {
        half + 1
    };
    let mut upper: Vec<i32> = Vec::new();
    k = start;
    while k < t.len()
        invariant
            start <= k <= t@.len(),
            upper@ == t@.subrange(start as int, k as int),
        decreases t@.len() - k,
    {
        upper.push(t[k]);
        k += 1;
    }
    proof {
        assert(lower@ =~= lower_half(t@));
        assert(upper@ =~= upper_half(t@));
        assert(ascending(lower_half(t@)));
        assert(ascending(upper_half(t@)));
        lemma_sort_of_ascending(lower@);
        lemma_sort_of_ascending(upper@);
    }
    let q1 = match median(&lower) {
        Ok(v) => v,
        Err(e) => return Err(e),
    };
    let q3 = match median(&upper) {
        Ok(v) => v,
        Err(e) => return Err(e),
    };
    Ok((q1, q2, q3))
}

/// The interquartile range Q3 - Q1 of the working sample built by repeating
/// each element `data[i]` exactly `frequencies[i]` times, contiguously, in
/// index order.
pub fn interquartile_range(data: &Vec<i32>, frequencies: &Vec<i32>) -> (r: Result<
    Ratio,
    ProgramError,
>)
    ensures
        iqr_post(data@, frequencies@, r),
{
    if data.len() != frequencies.len() {
        return Err(
            ProgramError::Logic(
                LogicError::SecondaryLengthMismatch {
                    data_len: data.len(),
                    other_len: frequencies.len(),
                },
            ),
        );
    }
    let mut i: usize = 0;
    while i < frequencies.len()
        invariant
            i <= frequencies@.len(),
            data@.len() == frequencies@.len(),
            forall|k: int| 0 <= k < i ==> frequencies@[k] >= 0,
        decreases frequencies@.len() - i,
    {
        if frequencies[i] < 0 {
            return Err(ProgramError::Logic(LogicError::NegativeFrequency { index: i }));
        }
        i += 1;
    }
    let mut working: Vec<i32> = Vec::new();
    i = 0;
    while i < data.len()
        invariant
            i <= data@.len(),
            data@.len() == frequencies@.len(),
            forall|k: int| 0 <= k < frequencies@.len() ==> frequencies@[k] >= 0,
            working@ == expand(data@.take(i as int), frequencies@.take(i as int)),
        decreases data@.len() - i,
    {
        let v = data[i];
        let reps = frequencies[i] as usize;
        let ghost before = working@;
        let mut c: usize = 0;
        while c < reps
            invariant
                c <= reps,
                working@ == before + repeat_value(v, c as nat),
            decreases reps - c,
        {
            working.push(v);
            c += 1;
            proof {
                assert(working@ =~= before + repeat_value(v, c as nat));
            }
        }
        proof {
            lemma_expand_take_step(data@, frequencies@, i as int);
        }
        i += 1;
    }
    proof {
        assert(data@.take(data@.len() as int) =~= data@);
        assert(frequencies@.take(frequencies@.len() as int) =~= frequencies@);
    }
    match quartiles(&working) {
        Err(e) => Err(e),
        Ok((q1, _q2, q3)) => {
            proof {
                let t = sort_of(expand(data@, frequencies@));
                lemma_sort_of_ensures(expand(data@, frequencies@));
                assert(middle_count(lower_half(t)) == 1 || middle_count(lower_half(t)) == 2);
                assert(middle_count(upper_half(t)) == 1 || middle_count(upper_half(t)) == 2);
            }
            let num = q3.num * q1.den - q1.num * q3.den;
            let den = q1.den * q3.den;
            Ok(Ratio { num, den })
        },
    }
}

/// The day-one statistics of one validated sample: its quartiles and the
/// interquartile range of its frequency expansion.
#[derive(Clone, Copy, Debug, PartialEq, Eq, Structural)]
pub struct Day1Report {
    pub q1: Ratio,
    pub q2: Ratio,
    pub q3: Ratio,
    pub iqr: Ratio,
}

/// What [`day1_results`] returns: either the first validation failure — the
/// declared count against each sequence, then a sample too short for
/// quartiles, then a negative frequency, then an expansion too short — or the
/// quartile triple of the sample and the interquartile range of its
/// expansion.
pub open spec fn day1_results_post(
    n: usize,
    d: Seq<i32>,
    f: Seq<i32>,
    r: Result<Day1Report, ProgramError>,
) -> bool {
    if d.len() != n {
        r == Err::<Day1Report, ProgramError>(
            ProgramError::Logic(
                LogicError::DeclaredLengthMismatch { declared: n, actual: d.len() as usize },
            ),
        )
    } else if f.len() != n {
        r == Err::<Day1Report, ProgramError>(
            ProgramError::Logic(
                LogicError::DeclaredLengthMismatch { declared: n, actual: f.len() as usize },
            ),
        )
    } else if d.len() < 2 {
        r == Err::<Day1Report, ProgramError>(
            ProgramError::Logic(LogicError::TooFewElements { len: d.len() as usize }),
        )
    } else if exists|i: int| 0 <= i < f.len() && f[i] < 0 {
        r matches Err(ProgramError::Logic(LogicError::NegativeFrequency { index })) && f[
            index as int
        ] < 0 && (forall|k: int| 0 <= k < index as int ==> f[k] >= 0)
    } else if expand(d, f).len() < 2 {
        r == Err::<Day1Report, ProgramError>(
            ProgramError::Logic(
                LogicError::TooFewElements { len: expand(d, f).len() as usize },
            ),
        )
    } else {
        r matches Ok(rep) && quartiles_post(d, Ok((rep.q1, rep.q2, rep.q3))) && iqr_post(
            d,
            f,
            Ok(rep.iqr),
        )
    }
}

/// The day-one exercise on an already parsed input: validates both sequences
/// against the declared count, then computes the quartiles of the sample and
/// the interquartile range of its frequency expansion. No statistic is
/// computed once a validation has failed.
pub fn day1_results(n: usize, data: &Vec<i32>, frequencies: &Vec<i32>) -> (r: Result<
    Day1Report,
    ProgramError,
>)
    ensures
        day1_results_post(n, data@, frequencies@, r),
{
    if data.len() != n {
        return Err(
            ProgramError::Logic(
                LogicError::DeclaredLengthMismatch { declared: n, actual: data.len() },
            ),
        );
    }
    if frequencies.len() != n {
        return Err(
            ProgramError::Logic(
                LogicError::DeclaredLengthMismatch { declared: n, actual: frequencies.len() },
            ),
        );
    }
    let (q1, q2, q3) = match quartiles(data) {
        Ok(v) => v,
        Err(e) => return Err(e),
    };
    let iqr = match interquartile_range(data, frequencies) {
        Ok(v) => v,
        Err(e) => return Err(e),
    };
    Ok(Day1Report { q1, q2, q3, iqr })
}

} // verus!
