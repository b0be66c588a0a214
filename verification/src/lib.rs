//! Descriptive statistics over integer samples: mean, weighted mean, median,
//! mode, quartiles and interquartile range, with exact rational results.

pub mod error;
pub mod numeric;
pub mod seq_facts;
pub mod sorting;
pub mod day0;
pub mod day1;
pub mod laws;
