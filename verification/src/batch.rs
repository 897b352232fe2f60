//! The batch evaluator: one metric applied across two equal-length
//! sequences of strings, pairwise by position.

use vstd::prelude::*;

use rayon::iter::{IndexedParallelIterator, IntoParallelRefIterator, ParallelIterator};

use crate::metrics::metric_distance;
use crate::specs::{metric_defined, metric_score};
use crate::{Metric, MetricError};

verus! {

/// Every pair at matching positions lies within the metric's domain.
pub open spec fn batch_defined(m: Metric, left: Seq<String>, right: Seq<String>) -> bool {
    forall|i: int| 0 <= i < left.len() ==> metric_defined(m, left[i]@, right[i]@)
}

/// A metric that never fails is defined on every batch.
pub proof fn lemma_total_batch_defined(m: Metric, left: Seq<String>, right: Seq<String>)
    requires
        m != Metric::Hamming,
    ensures
        batch_defined(m, left, right),
{
}

/// The batch evaluator: the score of each pair, in input order. Fails with
/// `LengthMismatch`, for the whole batch, exactly when the metric is
/// undefined on some pair: only Hamming on a pair of unequal lengths.
pub fn batch_distance(metric: Metric, left: &Vec<String>, right: &Vec<String>) -> (r: Result<
    Vec<usize>,
    MetricError,
>)
    requires
        left@.len() == right@.len(),
    ensures
        r is Ok <==> batch_defined(metric, left@, right@),
        r is Ok ==> r->Ok_0@.len() == left@.len(),
        r is Ok ==> forall|i: int|
            0 <= i < left@.len() ==> r->Ok_0@[i] as nat == metric_score(
                metric,
                left@[i]@,
                right@[i]@,
            ),
        r is Err ==> r->Err_0 == MetricError::LengthMismatch,
{
    let n = left.len();
    let mut out: Vec<usize> = Vec::new();
    for i in 0..n
        invariant
            n == left@.len(),
            left@.len() == right@.len(),
            out@.len() == i,
            forall|k: int| 0 <= k < i ==> metric_defined(metric, left@[k]@, right@[k]@),
            forall|k: int|
                0 <= k < i ==> out@[k] as nat == metric_score(metric, left@[k]@, right@[k]@),
    {
        match metric_distance(metric, left[i].as_str(), right[i].as_str()) {
            Ok(d) => out.push(d),
            Err(e) => {
                return Err(e);
            },
        }
    }
    Ok(out)
}

/// Relies on rayon's parallel iterators: `par_iter`, `zip`, `map` and
/// `collect` form a parallel pairwise map that returns the same elements in
/// the same index order as the sequential evaluation, whatever the worker
/// count; collecting into `Result` yields `Ok` exactly when every element
/// is `Ok`, and one of the `Err` values otherwise. The closure only calls
/// the verified `metric_distance`, whose contract supplies each element's
/// value.
#[verifier::external_body]
fn batch_distance_rayon(metric: Metric, left: &Vec<String>, right: &Vec<String>) -> (r: Result<
    Vec<usize>,
    MetricError,
>)
    requires
        left@.len() == right@.len(),
    ensures
        r is Ok <==> batch_defined(metric, left@, right@),
        r is Ok ==> r->Ok_0@.len() == left@.len(),
        r is Ok ==> forall|i: int|
            0 <= i < left@.len() ==> r->Ok_0@[i] as nat == metric_score(
                metric,
                left@[i]@,
                right@[i]@,
            ),
        r is Err ==> r->Err_0 == MetricError::LengthMismatch,
{
    left.par_iter().zip(right.par_iter()).map(
        |(x, y): (&String, &String)| metric_distance(metric, x.as_str(), y.as_str()),
    ).collect()
}

/// Determinism under parallelism: the batch contract pins every entry, so
/// any two result sequences that satisfy it - however many workers computed
/// them, and in whatever order - are equal.
pub proof fn lemma_batch_deterministic(
    m: Metric,
    left: Seq<String>,
    right: Seq<String>,
    v1: Seq<usize>,
    v2: Seq<usize>,
)
    requires
        v1.len() == left.len(),
        v2.len() == left.len(),
        forall|i: int| 0 <= i < left.len() ==> v1[i] as nat == metric_score(m, left[i]@, right[i]@),
        forall|i: int| 0 <= i < left.len() ==> v2[i] as nat == metric_score(m, left[i]@, right[i]@),
    ensures
        v1 == v2,
{
    assert(v1 =~= v2);
}

/// Levenshtein over two equal-length sequences of strings, pairwise by
/// position, computed across the worker pool. One distance per index, in
/// input order.
pub fn levenshtein_parallel(left: &Vec<String>, right: &Vec<String>) -> (r: Vec<usize>)
    requires
        left@.len() == right@.len(),
    ensures
        r@.len() == left@.len(),
        forall|i: int|
            0 <= i < r@.len() ==> r@[i] as nat == crate::specs::lev_spec(left@[i]@, right@[i]@),
{
    proof {
        lemma_total_batch_defined(Metric::Levenshtein, left@, right@);
    }
    match batch_distance_rayon(Metric::Levenshtein, left, right) {
        Ok(v) => v,
        Err(_) => {
            proof {
                assert(false);
            }
            Vec::new()
        },
    }
}

/// Optimal string alignment over two equal-length sequences of strings,
/// pairwise by position, computed across the worker pool.
pub fn osa_distance_parallel(left: &Vec<String>, right: &Vec<String>) -> (r: Vec<usize>)
    requires
        left@.len() == right@.len(),
    ensures
        r@.len() == left@.len(),
        forall|i: int|
            0 <= i < r@.len() ==> r@[i] as nat == crate::specs::osa_spec(left@[i]@, right@[i]@),
{
    proof {
        lemma_total_batch_defined(Metric::OsaDistance, left@, right@);
    }
    match batch_distance_rayon(Metric::OsaDistance, left, right) {
        Ok(v) => v,
        Err(_) => {
            proof {
                assert(false);
            }
            Vec::new()
        },
    }
}

/// Damerau-Levenshtein over two equal-length sequences of strings, pairwise
/// by position, computed across the worker pool.
pub fn damerau_levenshtein_parallel(left: &Vec<String>, right: &Vec<String>) -> (r: Vec<usize>)
    requires
        left@.len() == right@.len(),
    ensures
        r@.len() == left@.len(),
        forall|i: int|
            0 <= i < r@.len() ==> r@[i] as nat == crate::specs::dl_of(left@[i]@, right@[i]@),
{
    proof {
        lemma_total_batch_defined(Metric::DamerauLevenshtein, left@, right@);
    }
    match batch_distance_rayon(Metric::DamerauLevenshtein, left, right) {
        Ok(v) => v,
        Err(_) => {
            proof {
                assert(false);
            }
            Vec::new()
        },
    }
}

} // verus!
