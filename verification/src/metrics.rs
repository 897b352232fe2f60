//! The pairwise distance metrics on strings.

use vstd::prelude::*;

use crate::specs::{
    dl_of, hamming_spec, lemma_hamming_identity, lemma_lev_le_max, lemma_levenshtein_identity,
    lemma_osa_identity, lemma_osa_le_lev, lemma_osa_le_max, lev_spec, metric_defined,
    metric_score, osa_spec,
};
use crate::{Metric, MetricError};

verus! {

/// The characters of a string as a vector, one entry per Unicode code point.
fn chars_of(s: &str) -> (v: Vec<char>)
    ensures
        v@ == s@,
{
    let n = s.unicode_len();
    let mut v: Vec<char> = Vec::new();
    for i in 0..n
        invariant
            n == s@.len(),
            v@ == s@.take(i as int),
    {
        v.push(s.get_char(i));
        proof {
            assert(v@ =~= s@.take(i as int + 1));
        }
    }
    proof {
        assert(s@.take(n as int) =~= s@);
    }
    v
}

/// Hamming distance: the number of positions at which the two strings hold
/// different characters. The sole fallible metric: it rejects inputs of
/// unequal length.
pub fn hamming(a: &str, b: &str) -> (r: Result<usize, MetricError>)
    ensures
        r is Ok <==> a@.len() == b@.len(),
        r is Ok ==> r->Ok_0 as nat == hamming_spec(a@, b@),
        r is Err ==> r->Err_0 == MetricError::LengthMismatch,
{
    let av = chars_of(a);
    let bv = chars_of(b);
    if av.len() != bv.len() {
        return Err(MetricError::LengthMismatch);
    }
    let n = av.len();
    let mut count: usize = 0;
    for i in 0..n
        invariant
            av@ == a@,
            bv@ == b@,
            n == a@.len(),
            a@.len() == b@.len(),
            count <= i,
            count as nat == hamming_spec(a@.take(i as int), b@.take(i as int)),
    {
        proof {
            assert(a@.take(i as int + 1).drop_last() =~= a@.take(i as int));
            assert(b@.take(i as int + 1).drop_last() =~= b@.take(i as int));
        }
        if av[i] != bv[i] {
            count = count + 1;
        }
    }
    proof {
        assert(a@.take(n as int) =~= a@);
        assert(b@.take(n as int) =~= b@);
    }
    Ok(count)
}

/// Levenshtein distance between two character vectors, by the classic
/// one-row dynamic program. Row entries are kept as `u128` so that the
/// `+ 1` steps stay far from any machine bound; the result itself fits
/// `usize` because it never exceeds the longer input's length.
fn lev_dp(x: &Vec<char>, y: &Vec<char>) -> (r: usize)
    ensures
        r as nat == lev_spec(x@, y@),
{
    let m = x.len();
    let n = y.len();
    let mut row: Vec<u128> = Vec::new();
    row.push(0);
    for j in 0..n
        invariant
            n == y@.len(),
            row@.len() == j + 1,
            forall|k: int| 0 <= k <= j ==> row@[k] == k,
    {
        row.push(j as u128 + 1);
    }
    proof {
        assert(forall|k: int|
            0 <= k <= n ==> #[trigger] lev_spec(x@.take(0), y@.take(k)) == k) by {
            assert forall|k: int| 0 <= k <= n implies #[trigger] lev_spec(
                x@.take(0),
                y@.take(k),
            ) == k by {
                assert(x@.take(0).len() == 0);
                assert(y@.take(k).len() == k);
            }
        }
    }
    for i in 0..m
        invariant
            m == x@.len(),
            n == y@.len(),
            row@.len() == n + 1,
            forall|k: int|
                0 <= k <= n ==> row@[k] == lev_spec(x@.take(i as int), y@.take(k)),
    {
        let mut prev_diag: u128 = row[0];
        row.set(0, i as u128 + 1);
        proof {
            assert(x@.take(i as int + 1).len() == i + 1);
            assert(y@.take(0).len() == 0);
        }
        for j in 0..n
            invariant
                m == x@.len(),
                n == y@.len(),
                i < m,
                row@.len() == n + 1,
                prev_diag == lev_spec(x@.take(i as int), y@.take(j as int)),
                forall|k: int|
                    0 <= k <= j ==> row@[k] == lev_spec(x@.take(i as int + 1), y@.take(k)),
                forall|k: int|
                    j < k <= n ==> row@[k] == lev_spec(x@.take(i as int), y@.take(k)),
        {
            let up = row[j + 1];
            let left_entry = row[j];
            let cost: u128 = if x[i] == y[j] {
                0
            } else {
                1
            };
            proof {
                assert(x@.take(i as int + 1).drop_last() =~= x@.take(i as int));
                assert(y@.take(j as int + 1).drop_last() =~= y@.take(j as int));
                assert(x@.take(i as int + 1).last() == x@[i as int]);
                assert(y@.take(j as int + 1).last() == y@[j as int]);
                lemma_lev_le_max(x@.take(i as int), y@.take(j as int + 1));
                lemma_lev_le_max(x@.take(i as int + 1), y@.take(j as int));
                lemma_lev_le_max(x@.take(i as int), y@.take(j as int));
            }
            let mut d = up + 1;
            let from_left = left_entry + 1;
            if from_left < d {
                d = from_left;
            }
            let diag = prev_diag + cost;
            if diag < d {
                d = diag;
            }
            row.set(j + 1, d);
            prev_diag = up;
        }
    }
    proof {
        assert(x@.take(m as int) =~= x@);
        assert(y@.take(n as int) =~= y@);
        lemma_lev_le_max(x@, y@);
    }
    let res = row[n];
    res as usize
}

/// Levenshtein distance: the least number of single-character insertions,
/// deletions and substitutions that turn `a` into `b`. Total: any pair of
/// strings, the empty string included, has a distance.
pub fn levenshtein(a: &str, b: &str) -> (r: usize)
    ensures
        r as nat == lev_spec(a@, b@),
        a@ == b@ ==> r == 0,
{
    let av = chars_of(a);
    let bv = chars_of(b);
    proof {
        if a@ == b@ {
            lemma_levenshtein_identity(a@);
        }
    }
    lev_dp(&av, &bv)
}

/// The dynamic-programming row for an empty first input: entry `k` is the
/// distance from the empty prefix to the `k`-character prefix, which is `k`.
fn base_row(n: usize) -> (row: Vec<u128>)
    ensures
        row@.len() == n + 1,
        forall|k: int| 0 <= k <= n ==> row@[k] == k,
{
    let mut row: Vec<u128> = Vec::new();
    row.push(0);
    for j in 0..n
        invariant
            row@.len() == j + 1,
            forall|k: int| 0 <= k <= j ==> row@[k] == k,
    {
        row.push(j as u128 + 1);
    }
    row
}

/// Optimal string alignment distance between two character vectors, by the
/// three-row dynamic program: besides the previous row, the row before it
/// feeds the adjacent-transposition case.
#[verifier::rlimit(60)]
fn osa_dp(x: &Vec<char>, y: &Vec<char>) -> (r: usize)
    ensures
        r as nat == osa_spec(x@, y@),
{
    let m = x.len();
    let n = y.len();
    let mut prev_prev: Vec<u128> = base_row(n);
    let mut prev: Vec<u128> = base_row(n);
    proof {
        assert(forall|k: int|
            0 <= k <= n ==> #[trigger] osa_spec(x@.take(0), y@.take(k)) == k) by {
            assert forall|k: int| 0 <= k <= n implies #[trigger] osa_spec(
                x@.take(0),
                y@.take(k),
            ) == k by {
                assert(x@.take(0).len() == 0);
                assert(y@.take(k).len() == k);
            }
        }
    }
    for i in 0..m
        invariant
            m == x@.len(),
            n == y@.len(),
            prev@.len() == n + 1,
            prev_prev@.len() == n + 1,
            forall|k: int|
                0 <= k <= n ==> prev@[k] == osa_spec(x@.take(i as int), y@.take(k)),
            i >= 1 ==> forall|k: int|
                0 <= k <= n ==> prev_prev@[k] == osa_spec(x@.take(i as int - 1), y@.take(k)),
    {
        let mut cur: Vec<u128> = Vec::new();
        cur.push(i as u128 + 1);
        proof {
            assert(x@.take(i as int + 1).len() == i + 1);
            assert(y@.take(0).len() == 0);
        }
        for j in 0..n
            invariant
                m == x@.len(),
                n == y@.len(),
                i < m,
                prev@.len() == n + 1,
                prev_prev@.len() == n + 1,
                cur@.len() == j + 1,
                forall|k: int|
                    0 <= k <= n ==> prev@[k] == osa_spec(x@.take(i as int), y@.take(k)),
                i >= 1 ==> forall|k: int|
                    0 <= k <= n ==> prev_prev@[k] == osa_spec(
                        x@.take(i as int - 1),
                        y@.take(k),
                    ),
                forall|k: int|
                    0 <= k <= j ==> cur@[k] == osa_spec(x@.take(i as int + 1), y@.take(k)),
        {
            let up = prev[j + 1];
            let left_entry = cur[j];
            let diag = prev[j];
            let cost: u128 = if x[i] == y[j] {
                0
            } else {
                1
            };
            proof {
                assert(x@.take(i as int + 1).drop_last() =~= x@.take(i as int));
                assert(y@.take(j as int + 1).drop_last() =~= y@.take(j as int));
                assert(x@.take(i as int + 1).last() == x@[i as int]);
                assert(y@.take(j as int + 1).last() == y@[j as int]);
                lemma_osa_le_max(x@.take(i as int), y@.take(j as int + 1));
                lemma_osa_le_max(x@.take(i as int + 1), y@.take(j as int));
                lemma_osa_le_max(x@.take(i as int), y@.take(j as int));
            }
            let mut d = up + 1;
            let from_left = left_entry + 1;
            if from_left < d {
                d = from_left;
            }
            let from_diag = diag + cost;
            if from_diag < d {
                d = from_diag;
            }
            if i > 0 && j > 0 && x[i] == y[j - 1] && x[i - 1] == y[j] {
                proof {
                    assert(x@.take(i as int + 1)[i as int - 1] == x@[i as int - 1]);
                    assert(y@.take(j as int + 1)[j as int - 1] == y@[j as int - 1]);
                    assert(x@.take(i as int + 1).take(i as int - 1) =~= x@.take(
                        i as int - 1,
                    ));
                    assert(y@.take(j as int + 1).take(j as int - 1) =~= y@.take(
                        j as int - 1,
                    ));
                    lemma_osa_le_max(x@.take(i as int - 1), y@.take(j as int - 1));
                }
                let transposed = prev_prev[j - 1] + 1;
                if transposed < d {
                    d = transposed;
                }
            }
            cur.push(d);
            proof {
                assert(cur@[j as int + 1] == d);
            }
        }
        prev_prev = prev;
        prev = cur;
    }
    proof {
        assert(x@.take(m as int) =~= x@);
        assert(y@.take(n as int) =~= y@);
        lemma_osa_le_max(x@, y@);
    }
    let res = prev[n];
    res as usize
}

/// Optimal string alignment distance: Levenshtein plus adjacent
/// transpositions, each position transposed at most once. Never exceeds the
/// plain Levenshtein distance, and never fails.
pub fn osa_distance(a: &str, b: &str) -> (r: usize)
    ensures
        r as nat == osa_spec(a@, b@),
        r as nat <= lev_spec(a@, b@),
        a@ == b@ ==> r == 0,
{
    let av = chars_of(a);
    let bv = chars_of(b);
    proof {
        lemma_osa_le_lev(a@, b@);
        if a@ == b@ {
            lemma_osa_identity(a@);
        }
    }
    osa_dp(&av, &bv)
}

/// Relies on strsim::damerau_levenshtein: the unrestricted
/// Damerau-Levenshtein distance over code points. Its value depends on the
/// two character sequences alone, so the result bears a name, `dl_of`. The
/// crate describes the function as "like optimal string alignment, but
/// substrings can be edited an unlimited number of times" - a minimum over
/// strictly more edit scripts than optimal string alignment admits, hence
/// never above that distance.
pub assume_specification[ strsim::damerau_levenshtein ](a: &str, b: &str) -> (r: usize)
    ensures
        r as nat == dl_of(a@, b@),
        r as nat <= osa_spec(a@, b@),
;

/// Damerau-Levenshtein distance: edit distance whose operations are
/// insertion, deletion, substitution and transposition, with no bound on how
/// often a position may be edited. At most the optimal string alignment
/// distance, which in turn is at most Levenshtein. Never fails.
pub fn damerau_levenshtein(a: &str, b: &str) -> (r: usize)
    ensures
        r as nat == dl_of(a@, b@),
        r as nat <= osa_spec(a@, b@),
        r as nat <= lev_spec(a@, b@),
        a@ == b@ ==> r == 0,
{
    proof {
        lemma_osa_le_lev(a@, b@);
        if a@ == b@ {
            lemma_osa_identity(a@);
        }
    }
    strsim::damerau_levenshtein(a, b)
}

/// One pairwise call of the chosen metric. Returns `Ok` exactly where the
/// metric is defined on the pair: always, except for Hamming on strings of
/// different lengths, which reports `LengthMismatch`.
pub fn metric_distance(metric: Metric, a: &str, b: &str) -> (r: Result<usize, MetricError>)
    ensures
        r is Ok <==> metric_defined(metric, a@, b@),
        r is Ok ==> r->Ok_0 as nat == metric_score(metric, a@, b@),
        a@ == b@ ==> r is Ok && r->Ok_0 == 0,
        r is Err ==> r->Err_0 == MetricError::LengthMismatch,
{
    proof {
        if a@ == b@ {
            lemma_hamming_identity(a@);
        }
    }
    match metric {
        Metric::Hamming => hamming(a, b),
        Metric::Levenshtein => Ok(levenshtein(a, b)),
        Metric::OsaDistance => Ok(osa_distance(a, b)),
        Metric::DamerauLevenshtein => Ok(damerau_levenshtein(a, b)),
    }
}

} // verus!
