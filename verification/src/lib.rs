//! Verified string distance metrics with batch evaluation and extremal search.
//!
//! The metric library computes edit distances between strings at the level of
//! Unicode code points. Levenshtein, optimal string alignment and Hamming
//! distances are implemented here and proved against their recursive
//! definitions; the Damerau-Levenshtein distance and an alternate Levenshtein
//! implementation are obtained from outside crates under stated contracts.
//! On top of the metrics sit a batch evaluator over equal-length sequences of
//! string pairs and an extremal search engine that reduces each target's
//! scores against a corpus to their maximum or minimum.

use vstd::prelude::*;

pub mod alternate;
pub mod batch;
pub mod metrics;
pub mod search;
pub mod specs;

verus! {

/// The single failure a metric can report: the two compared strings have
/// different lengths, which only the Hamming distance rejects.
#[derive(Clone, Copy, Debug, PartialEq, Eq, Structural)]
pub enum MetricError {
    LengthMismatch,
}

/// The integer-valued distance metrics, used to pick a metric for the
/// batch evaluator and the extremal search engine.
#[derive(Clone, Copy, Debug, PartialEq, Eq, Structural)]
pub enum Metric {
    Hamming,
    Levenshtein,
    OsaDistance,
    DamerauLevenshtein,
}

/// Whether an extremal search keeps the largest or the smallest score
/// observed against the corpus.
#[derive(Clone, Copy, Debug, PartialEq, Eq, Structural)]
pub enum SearchMode {
    Max,
    Min,
}

} // verus!
