//! The extremal search engine: for each target string, the chosen metric is
//! computed against every string of a corpus and reduced to the maximum or
//! minimum value observed. An empty corpus yields the explicit default 0 -
//! a deliberate value, not a failure, and one a caller can mistake for a
//! real score of 0.

use vstd::prelude::*;

use rayon::iter::{IntoParallelRefIterator, ParallelIterator};

use crate::metrics::metric_distance;
use crate::specs::{max2, metric_defined, metric_score, min2};
use crate::{Metric, MetricError, SearchMode};

verus! {

/// The largest element of a sequence, or 0 when it is empty.
pub open spec fn max_or_zero(s: Seq<nat>) -> nat
    decreases s.len(),
{
    if s.len() == 0 {
        0
    } else {
        max2(max_or_zero(s.drop_last()), s.last())
    }
}

/// The smallest element of a sequence, or 0 when it is empty.
pub open spec fn min_or_zero(s: Seq<nat>) -> nat
    decreases s.len(),
{
    if s.len() == 0 {
        0
    } else if s.len() == 1 {
        s[0]
    } else {
        min2(min_or_zero(s.drop_last()), s.last())
    }
}

/// The reduction a search mode applies to the scores against the corpus.
pub open spec fn extremal_of(mode: SearchMode, s: Seq<nat>) -> nat {
    match mode {
        SearchMode::Max => max_or_zero(s),
        SearchMode::Min => min_or_zero(s),
    }
}

/// The metric is defined on the target against every corpus entry.
pub open spec fn corpus_defined(m: Metric, t: Seq<char>, corpus: Seq<String>) -> bool {
    forall|j: int| 0 <= j < corpus.len() ==> metric_defined(m, t, corpus[j]@)
}

/// The scores of one target against each corpus entry, in corpus order.
pub open spec fn corpus_scores(m: Metric, t: Seq<char>, corpus: Seq<String>) -> Seq<nat> {
    Seq::new(corpus.len(), |j: int| metric_score(m, t, corpus[j]@))
}

/// A metric that never fails is defined on every corpus.
pub proof fn lemma_total_corpus_defined(m: Metric, t: Seq<char>, corpus: Seq<String>)
    requires
        m != Metric::Hamming,
    ensures
        corpus_defined(m, t, corpus),
{
}

/// One target's scan: the metric against every corpus entry, reduced to the
/// extremum the mode asks for, with 0 for an empty corpus.
pub fn extremal_scan(metric: Metric, target: &str, corpus: &Vec<String>, mode: SearchMode) -> (r:
    Result<usize, MetricError>)
    ensures
        r is Ok <==> corpus_defined(metric, target@, corpus@),
        r is Ok ==> r->Ok_0 as nat == extremal_of(mode, corpus_scores(metric, target@, corpus@)),
        r is Err ==> r->Err_0 == MetricError::LengthMismatch,
{
    let ghost s = corpus_scores(metric, target@, corpus@);
    let n = corpus.len();
    let mut best: usize = 0;
    for j in 0..n
        invariant
            n == corpus@.len(),
            s == corpus_scores(metric, target@, corpus@),
            forall|k: int| 0 <= k < j ==> metric_defined(metric, target@, corpus@[k]@),
            best as nat == extremal_of(mode, s.take(j as int)),
    {
        let d = match metric_distance(metric, target, corpus[j].as_str()) {
            Ok(d) => d,
            Err(e) => {
                return Err(e);
            },
        };
        proof {
            assert(s.take(j as int + 1).drop_last() =~= s.take(j as int));
            assert(s.take(j as int + 1).last() == s[j as int]);
        }
        match mode {
            SearchMode::Max => {
                if d > best {
                    best = d;
                }
            },
            SearchMode::Min => {
                if j == 0 || d < best {
                    best = d;
                }
            },
        }
    }
    proof {
        assert(s.take(n as int) =~= s);
    }
    Ok(best)
}

/// The extremal search engine: one scan per target, in target order. Fails
/// with `LengthMismatch`, for the whole call, exactly when the metric is
/// undefined on some target-corpus pair: only Hamming against an entry of
/// another length.
pub fn extremal_search(
    metric: Metric,
    targets: &Vec<String>,
    corpus: &Vec<String>,
    mode: SearchMode,
) -> (r: Result<Vec<usize>, MetricError>)
    ensures
        r is Ok <==> (forall|i: int|
            0 <= i < targets@.len() ==> corpus_defined(metric, targets@[i]@, corpus@)),
        r is Ok ==> r->Ok_0@.len() == targets@.len(),
        r is Ok ==> forall|i: int|
            0 <= i < targets@.len() ==> r->Ok_0@[i] as nat == extremal_of(
                mode,
                corpus_scores(metric, targets@[i]@, corpus@),
            ),
        r is Err ==> r->Err_0 == MetricError::LengthMismatch,
{
    let n = targets.len();
    let mut out: Vec<usize> = Vec::new();
    for i in 0..n
        invariant
            n == targets@.len(),
            out@.len() == i,
            forall|k: int| 0 <= k < i ==> corpus_defined(metric, targets@[k]@, corpus@),
            forall|k: int|
                0 <= k < i ==> out@[k] as nat == extremal_of(
                    mode,
                    corpus_scores(metric, targets@[k]@, corpus@),
                ),
    {
        match extremal_scan(metric, targets[i].as_str(), corpus, mode) {
            Ok(d) => out.push(d),
            Err(e) => {
                return Err(e);
            },
        }
    }
    Ok(out)
}

/// Relies on rayon's parallel iterators: `par_iter`, `map` and `collect`
/// form a parallel map over the targets that returns the same elements in
/// the same index order as the sequential engine, whatever the worker
/// count; collecting into `Result` yields `Ok` exactly when every element
/// is `Ok`, and one of the `Err` values otherwise. The closure only calls
/// the verified `extremal_scan`, whose contract supplies each element.
#[verifier::external_body]
fn extremal_search_rayon(
    metric: Metric,
    targets: &Vec<String>,
    corpus: &Vec<String>,
    mode: SearchMode,
) -> (r: Result<Vec<usize>, MetricError>)
    ensures
        r is Ok <==> (forall|i: int|
            0 <= i < targets@.len() ==> corpus_defined(metric, targets@[i]@, corpus@)),
        r is Ok ==> r->Ok_0@.len() == targets@.len(),
        r is Ok ==> forall|i: int|
            0 <= i < targets@.len() ==> r->Ok_0@[i] as nat == extremal_of(
                mode,
                corpus_scores(metric, targets@[i]@, corpus@),
            ),
        r is Err ==> r->Err_0 == MetricError::LengthMismatch,
{
    targets.par_iter().map(
        |t: &String| extremal_scan(metric, t.as_str(), corpus, mode),
    ).collect()
}

/// Per-target maximum Levenshtein distance against the corpus, one value
/// per target in input order; 0 for an empty corpus.
pub fn levenshtein_max_similarity(targets: &Vec<String>, source_strings: &Vec<String>) -> (r:
    Vec<usize>)
    ensures
        r@.len() == targets@.len(),
        forall|i: int|
            0 <= i < r@.len() ==> r@[i] as nat == max_or_zero(
                corpus_scores(Metric::Levenshtein, targets@[i]@, source_strings@),
            ),
{
    proof {
        assert forall|i: int| 0 <= i < targets@.len() implies corpus_defined(
            Metric::Levenshtein,
            targets@[i]@,
            source_strings@,
        ) by {
            lemma_total_corpus_defined(Metric::Levenshtein, targets@[i]@, source_strings@);
        }
    }
    match extremal_search_rayon(Metric::Levenshtein, targets, source_strings, SearchMode::Max) {
        Ok(v) => v,
        Err(_) => {
            proof {
                assert(false);
            }
            Vec::new()
        },
    }
}

/// Per-target minimum Levenshtein distance against the corpus, one value
/// per target in input order; 0 for an empty corpus.
pub fn levenshtein_min_similarity(targets: &Vec<String>, source_strings: &Vec<String>) -> (r:
    Vec<usize>)
    ensures
        r@.len() == targets@.len(),
        forall|i: int|
            0 <= i < r@.len() ==> r@[i] as nat == min_or_zero(
                corpus_scores(Metric::Levenshtein, targets@[i]@, source_strings@),
            ),
{
    proof {
        assert forall|i: int| 0 <= i < targets@.len() implies corpus_defined(
            Metric::Levenshtein,
            targets@[i]@,
            source_strings@,
        ) by {
            lemma_total_corpus_defined(Metric::Levenshtein, targets@[i]@, source_strings@);
        }
    }
    match extremal_search_rayon(Metric::Levenshtein, targets, source_strings, SearchMode::Min) {
        Ok(v) => v,
        Err(_) => {
            proof {
                assert(false);
            }
            Vec::new()
        },
    }
}

/// Per-target maximum optimal string alignment distance against the corpus,
/// one value per target in input order; 0 for an empty corpus.
pub fn osa_distance_max_similarity(targets: &Vec<String>, source_strings: &Vec<String>) -> (r:
    Vec<usize>)
    ensures
        r@.len() == targets@.len(),
        forall|i: int|
            0 <= i < r@.len() ==> r@[i] as nat == max_or_zero(
                corpus_scores(Metric::OsaDistance, targets@[i]@, source_strings@),
            ),
{
    proof {
        assert forall|i: int| 0 <= i < targets@.len() implies corpus_defined(
            Metric::OsaDistance,
            targets@[i]@,
            source_strings@,
        ) by {
            lemma_total_corpus_defined(Metric::OsaDistance, targets@[i]@, source_strings@);
        }
    }
    match extremal_search_rayon(Metric::OsaDistance, targets, source_strings, SearchMode::Max) {
        Ok(v) => v,
        Err(_) => {
            proof {
                assert(false);
            }
            Vec::new()
        },
    }
}

/// Per-target minimum optimal string alignment distance against the corpus,
/// one value per target in input order; 0 for an empty corpus.
pub fn osa_distance_min_similarity(targets: &Vec<String>, source_strings: &Vec<String>) -> (r:
    Vec<usize>)
    ensures
        r@.len() == targets@.len(),
        forall|i: int|
            0 <= i < r@.len() ==> r@[i] as nat == min_or_zero(
                corpus_scores(Metric::OsaDistance, targets@[i]@, source_strings@),
            ),
{
    proof {
        assert forall|i: int| 0 <= i < targets@.len() implies corpus_defined(
            Metric::OsaDistance,
            targets@[i]@,
            source_strings@,
        ) by {
            lemma_total_corpus_defined(Metric::OsaDistance, targets@[i]@, source_strings@);
        }
    }
    match extremal_search_rayon(Metric::OsaDistance, targets, source_strings, SearchMode::Min) {
        Ok(v) => v,
        Err(_) => {
            proof {
                assert(false);
            }
            Vec::new()
        },
    }
}

/// Per-target maximum Damerau-Levenshtein distance against the corpus, one
/// value per target in input order; 0 for an empty corpus.
pub fn damerau_levenshtein_max_similarity(
    targets: &Vec<String>,
    source_strings: &Vec<String>,
) -> (r: Vec<usize>)
    ensures
        r@.len() == targets@.len(),
        forall|i: int|
            0 <= i < r@.len() ==> r@[i] as nat == max_or_zero(
                corpus_scores(Metric::DamerauLevenshtein, targets@[i]@, source_strings@),
            ),
{
    proof {
        assert forall|i: int| 0 <= i < targets@.len() implies corpus_defined(
            Metric::DamerauLevenshtein,
            targets@[i]@,
            source_strings@,
        ) by {
            lemma_total_corpus_defined(Metric::DamerauLevenshtein, targets@[i]@, source_strings@);
        }
    }
    match extremal_search_rayon(
        Metric::DamerauLevenshtein,
        targets,
        source_strings,
        SearchMode::Max,
    ) {
        Ok(v) => v,
        Err(_) => {
            proof {
                assert(false);
            }
            Vec::new()
        },
    }
}

/// Per-target minimum Damerau-Levenshtein distance against the corpus, one
/// value per target in input order; 0 for an empty corpus.
pub fn damerau_levenshtein_min_similarity(
    targets: &Vec<String>,
    source_strings: &Vec<String>,
) -> (r: Vec<usize>)
    ensures
        r@.len() == targets@.len(),
        forall|i: int|
            0 <= i < r@.len() ==> r@[i] as nat == min_or_zero(
                corpus_scores(Metric::DamerauLevenshtein, targets@[i]@, source_strings@),
            ),
{
    proof {
        assert forall|i: int| 0 <= i < targets@.len() implies corpus_defined(
            Metric::DamerauLevenshtein,
            targets@[i]@,
            source_strings@,
        ) by {
            lemma_total_corpus_defined(Metric::DamerauLevenshtein, targets@[i]@, source_strings@);
        }
    }
    match extremal_search_rayon(
        Metric::DamerauLevenshtein,
        targets,
        source_strings,
        SearchMode::Min,
    ) {
        Ok(v) => v,
        Err(_) => {
            proof {
                assert(false);
            }
            Vec::new()
        },
    }
}

/// Determinism under parallelism: the search contract pins every entry, so
/// any two result sequences that satisfy it - however many workers computed
/// them, and in whatever order - are equal.
pub proof fn lemma_search_deterministic(
    m: Metric,
    targets: Seq<String>,
    corpus: Seq<String>,
    mode: SearchMode,
    v1: Seq<usize>,
    v2: Seq<usize>,
)
    requires
        v1.len() == targets.len(),
        v2.len() == targets.len(),
        forall|i: int|
            0 <= i < targets.len() ==> v1[i] as nat == extremal_of(
                mode,
                corpus_scores(m, targets[i]@, corpus),
            ),
        forall|i: int|
            0 <= i < targets.len() ==> v2[i] as nat == extremal_of(
                mode,
                corpus_scores(m, targets[i]@, corpus),
            ),
    ensures
        v1 == v2,
{
    assert(v1 =~= v2);
}

} // verus!
