use statistics::day0::day0_results;
use statistics::day0::mean;
use statistics::day0::median;
use statistics::day0::mode;
use statistics::day0::weighted_mean;
use statistics::day1::day1_results;
use statistics::day1::interquartile_range;
use statistics::day1::quartiles;
use statistics::error::LogicError;
use statistics::error::ProgramError;
use statistics::numeric::Ratio;

fn as_f32(r: Ratio) -> f32 {
    r.num as f32 / r.den as f32
}

#[test]
fn mean_of_one_two_three_is_two() {
    let r = mean(&vec![1, 2, 3]).unwrap();
    assert_eq!(r, Ratio { num: 6, den: 3 });
    assert_eq!(as_f32(r), 2.0);
}

#[test]
fn mean_of_singleton_is_the_element() {
    let r = mean(&vec![7]).unwrap();
    assert_eq!(r, Ratio { num: 7, den: 1 });
    assert_eq!(as_f32(r), 7.0);
    let r = mean(&vec![-41]).unwrap();
    assert_eq!(as_f32(r), -41.0);
}

#[test]
fn weighted_mean_example() {
    let r = weighted_mean(&vec![1, 2, 4], &vec![10, 5, 1]).unwrap();
    assert_eq!(r, Ratio { num: 24, den: 16 });
    assert_eq!(as_f32(r), 1.5);
}

#[test]
fn median_of_odd_length_is_middle_element() {
    let r = median(&vec![1, 2, 3]).unwrap();
    assert_eq!(r, Ratio { num: 2, den: 1 });
    assert_eq!(as_f32(r), 2.0);
}

#[test]
fn median_of_even_length_averages_the_two_middles() {
    let r = median(&vec![1, 3]).unwrap();
    assert_eq!(r, Ratio { num: 4, den: 2 });
    assert_eq!(as_f32(r), 2.0);
}

#[test]
fn mode_picks_most_frequent_value() {
    assert_eq!(mode(&vec![1, 1, 2, 3]).unwrap(), 1);
}

#[test]
fn mode_breaks_ties_toward_smaller_value() {
    assert_eq!(mode(&vec![1, 2, 2, 3, 3]).unwrap(), 2);
}

#[test]
fn quartiles_canonical_case() {
    let (q1, q2, q3) = quartiles(&vec![3, 7, 8, 5, 12, 14, 21, 13, 18]).unwrap();
    assert_eq!(as_f32(q1), 6.0);
    assert_eq!(as_f32(q2), 12.0);
    assert_eq!(as_f32(q3), 16.0);
    assert_eq!(q1, Ratio { num: 12, den: 2 });
    assert_eq!(q2, Ratio { num: 12, den: 1 });
    assert_eq!(q3, Ratio { num: 32, den: 2 });
}

#[test]
fn interquartile_range_example() {
    let r = interquartile_range(&vec![6, 12, 8, 10, 20, 16], &vec![5, 4, 3, 2, 1, 5]).unwrap();
    assert_eq!(as_f32(r), 9.0);
}

#[test]
fn median_and_quartiles_are_idempotent() {
    let data = vec![9, 4, 6, 6, 2];
    let first = median(&data).unwrap();
    let second = median(&data).unwrap();
    assert_eq!(first, second);
    let data = vec![3, 7, 8, 5, 12, 14, 21, 13, 18];
    let first = quartiles(&data).unwrap();
    let second = quartiles(&data).unwrap();
    assert_eq!(first, second);
}

#[test]
fn statistics_ignore_the_arrangement_of_the_sample() {
    let a = vec![5, 1, 4, 1, 3];
    let b = vec![1, 3, 1, 4, 5];
    assert_eq!(mean(&a).unwrap(), mean(&b).unwrap());
    assert_eq!(mode(&a).unwrap(), mode(&b).unwrap());
    assert_eq!(median(&a).unwrap(), median(&b).unwrap());
    assert_eq!(quartiles(&a).unwrap(), quartiles(&b).unwrap());
}

#[test]
fn empty_sample_is_rejected() {
    let empty: Vec<i32> = Vec::new();
    assert_eq!(
        mean(&empty).unwrap_err(),
        ProgramError::Logic(LogicError::EmptyInput)
    );
    assert_eq!(
        median(&empty).unwrap_err(),
        ProgramError::Logic(LogicError::EmptyInput)
    );
    assert_eq!(
        mode(&empty).unwrap_err(),
        ProgramError::Logic(LogicError::EmptyInput)
    );
}

#[test]
fn weighted_mean_rejects_length_mismatch() {
    assert_eq!(
        weighted_mean(&vec![1, 2, 3, 4, 5], &vec![1, 2, 3, 4]).unwrap_err(),
        ProgramError::Logic(LogicError::SecondaryLengthMismatch {
            data_len: 5,
            other_len: 4
        })
    );
}

#[test]
fn weighted_mean_rejects_zero_weight_total() {
    assert_eq!(
        weighted_mean(&vec![1, 2], &vec![3, -3]).unwrap_err(),
        ProgramError::Logic(LogicError::ZeroWeightSum)
    );
}

#[test]
fn quartiles_reject_samples_shorter_than_two() {
    assert_eq!(
        quartiles(&vec![5]).unwrap_err(),
        ProgramError::Logic(LogicError::TooFewElements { len: 1 })
    );
}

#[test]
fn interquartile_range_rejects_length_mismatch() {
    assert_eq!(
        interquartile_range(&vec![1, 2, 3], &vec![1, 2]).unwrap_err(),
        ProgramError::Logic(LogicError::SecondaryLengthMismatch {
            data_len: 3,
            other_len: 2
        })
    );
}

#[test]
fn interquartile_range_reports_first_negative_frequency() {
    assert_eq!(
        interquartile_range(&vec![1, 2, 3], &vec![2, -1, -4]).unwrap_err(),
        ProgramError::Logic(LogicError::NegativeFrequency { index: 1 })
    );
}

#[test]
fn interquartile_range_rejects_too_short_expansion() {
    assert_eq!(
        interquartile_range(&vec![1, 2], &vec![1, 0]).unwrap_err(),
        ProgramError::Logic(LogicError::TooFewElements { len: 1 })
    );
}

#[test]
fn day0_results_happy_path() {
    let report = day0_results(3, &vec![1, 2, 4], &vec![10, 5, 1]).unwrap();
    assert_eq!(report.mean, Ratio { num: 7, den: 3 });
    assert_eq!(report.median, Ratio { num: 2, den: 1 });
    assert_eq!(report.mode, 1);
    assert_eq!(report.weighted_mean, Ratio { num: 24, den: 16 });
}

#[test]
fn day0_results_rejects_declared_count_mismatch() {
    assert_eq!(
        day0_results(5, &vec![1, 2, 3, 4], &vec![1, 1, 1, 1]).unwrap_err(),
        ProgramError::Logic(LogicError::DeclaredLengthMismatch {
            declared: 5,
            actual: 4
        })
    );
}

#[test]
fn day0_results_rejects_weight_pairing_mismatch() {
    assert_eq!(
        day0_results(4, &vec![1, 2, 3, 4], &vec![1, 1, 1]).unwrap_err(),
        ProgramError::Logic(LogicError::SecondaryLengthMismatch {
            data_len: 4,
            other_len: 3
        })
    );
}

#[test]
fn day1_results_happy_path() {
    let report = day1_results(
        6,
        &vec![6, 12, 8, 10, 20, 16],
        &vec![5, 4, 3, 2, 1, 5],
    )
    .unwrap();
    assert_eq!(as_f32(report.q1), 8.0);
    assert_eq!(as_f32(report.q2), 11.0);
    assert_eq!(as_f32(report.q3), 16.0);
    assert_eq!(as_f32(report.iqr), 9.0);
}

#[test]
fn day1_results_rejects_declared_count_mismatch() {
    assert_eq!(
        day1_results(2, &vec![1, 2], &vec![1, 1, 1]).unwrap_err(),
        ProgramError::Logic(LogicError::DeclaredLengthMismatch {
            declared: 2,
            actual: 3
        })
    );
}
