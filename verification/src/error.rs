//! The error taxonomy shared by the statistics library and its callers.
//!
//! Input reading, token parsing and statistics preconditions all fail through
//! one type, `ProgramError`, so that an exercise run can surface a single
//! error to its caller. The library itself only ever constructs the `Logic`
//! variant; the `Io` and `Parse` variants carry the diagnostic text of
//! failures that happen at the reading edge, outside this crate's functions.

use vstd::prelude::*;

verus! {

/// A precondition of a statistics function that did not hold, carrying the
/// quantities that identify the violation.
#[derive(Clone, Copy, Debug, PartialEq, Eq, Structural)]
pub enum LogicError {
    /// A function that needs at least one element was given none.
    EmptyInput,
    /// Quartiles need at least two elements; `len` is what was given.
    TooFewElements { len: usize },
    /// The declared element count does not match the parsed sequence length.
    DeclaredLengthMismatch { declared: usize, actual: usize },
    /// A secondary sequence (weights or frequencies) does not pair up with
    /// the sample positionally.
    SecondaryLengthMismatch { data_len: usize, other_len: usize },
    /// The weights sum to zero, so the weighted mean is undefined.
    ZeroWeightSum,
    /// A repetition count is negative; `index` is the first such position.
    NegativeFrequency { index: usize },
}

/// Fuses the three failure kinds of an exercise run into one type.
#[derive(Clone, Debug, PartialEq, Eq)]
pub enum ProgramError {
    /// Reading from the input source failed; carries the diagnostic text.
    Io(String),
    /// A token that should have been an integer was malformed.
    Parse(String),
    /// A statistics precondition was violated.
    Logic(LogicError),
}

} // verus!
