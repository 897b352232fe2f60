//! Mathematical definitions of the distance metrics, and the lemmas that
//! relate them to one another.
//!
//! Every definition works on `Seq<char>`, the view of a string: lengths and
//! positions are counted in Unicode code points.

use vstd::prelude::*;

use crate::Metric;

verus! {

/// The smaller of two natural numbers.
pub open spec fn min2(a: nat, b: nat) -> nat {
    if a <= b {
        a
    } else {
        b
    }
}

/// The smallest of three natural numbers.
pub open spec fn min3(a: nat, b: nat, c: nat) -> nat {
    min2(min2(a, b), c)
}

/// The larger of two natural numbers.
pub open spec fn max2(a: nat, b: nat) -> nat {
    if a >= b {
        a
    } else {
        b
    }
}

/// Hamming distance: the number of positions at which two sequences differ,
/// walking both from the end. It measures the Hamming distance proper when
/// `a.len() == b.len()`, the only case the library exposes.
pub open spec fn hamming_spec(a: Seq<char>, b: Seq<char>) -> nat
    decreases a.len(),
{
    if a.len() == 0 || b.len() == 0 {
        0
    } else if a.last() == b.last() {
        hamming_spec(a.drop_last(), b.drop_last())
    } else {
        hamming_spec(a.drop_last(), b.drop_last()) + 1
    }
}

/// Levenshtein distance: the least number of single-character insertions,
/// deletions and substitutions, each of cost 1, that turn `a` into `b`.
pub open spec fn lev_spec(a: Seq<char>, b: Seq<char>) -> nat
    decreases a.len() + b.len(),
{
    if a.len() == 0 {
        b.len()
    } else if b.len() == 0 {
        a.len()
    } else {
        let sub_cost: nat = if a.last() == b.last() {
            0
        } else {
            1
        };
        min3(
            lev_spec(a.drop_last(), b) + 1,
            lev_spec(a, b.drop_last()) + 1,
            lev_spec(a.drop_last(), b.drop_last()) + sub_cost,
        )
    }
}

/// Optimal string alignment distance: Levenshtein extended with adjacent
/// transpositions of cost 1, where each position may take part in at most
/// one transposition.
pub open spec fn osa_spec(a: Seq<char>, b: Seq<char>) -> nat
    decreases a.len() + b.len(),
{
    if a.len() == 0 {
        b.len()
    } else if b.len() == 0 {
        a.len()
    } else {
        let sub_cost: nat = if a.last() == b.last() {
            0
        } else {
            1
        };
        let base = min3(
            osa_spec(a.drop_last(), b) + 1,
            osa_spec(a, b.drop_last()) + 1,
            osa_spec(a.drop_last(), b.drop_last()) + sub_cost,
        );
        if a.len() >= 2 && b.len() >= 2 && a.last() == b[b.len() - 2] && a[a.len() - 2]
            == b.last() {
            min2(base, osa_spec(a.take(a.len() - 2), b.take(b.len() - 2)) + 1)
        } else {
            base
        }
    }
}

/// The unrestricted Damerau-Levenshtein distance between two sequences.
/// Its value is pinned only where a contract of this crate states a fact
/// about it: the computation itself is the outside crate's.
pub uninterp spec fn dl_of(a: Seq<char>, b: Seq<char>) -> nat;

/// Whether a metric has a value on a pair of inputs. Hamming asks for equal
/// lengths; every other metric is total.
pub open spec fn metric_defined(m: Metric, a: Seq<char>, b: Seq<char>) -> bool {
    m != Metric::Hamming || a.len() == b.len()
}

/// The score a metric assigns to a pair of inputs, meaningful where
/// `metric_defined` holds.
pub open spec fn metric_score(m: Metric, a: Seq<char>, b: Seq<char>) -> nat {
    match m {
        Metric::Hamming => hamming_spec(a, b),
        Metric::Levenshtein => lev_spec(a, b),
        Metric::OsaDistance => osa_spec(a, b),
        Metric::DamerauLevenshtein => dl_of(a, b),
    }
}

/// A metric's value on a pair of identical sequences is 0: the Hamming case.
pub proof fn lemma_hamming_identity(s: Seq<char>)
    ensures
        hamming_spec(s, s) == 0,
    decreases s.len(),
{
    if s.len() != 0 {
        lemma_hamming_identity(s.drop_last());
    }
}

/// A metric's value on a pair of identical sequences is 0: the Levenshtein
/// case.
pub proof fn lemma_levenshtein_identity(s: Seq<char>)
    ensures
        lev_spec(s, s) == 0,
    decreases s.len(),
{
    if s.len() != 0 {
        lemma_levenshtein_identity(s.drop_last());
    }
}

/// A metric's value on a pair of identical sequences is 0: the optimal
/// string alignment case.
pub proof fn lemma_osa_identity(s: Seq<char>)
    ensures
        osa_spec(s, s) == 0,
    decreases s.len(),
{
    if s.len() != 0 {
        lemma_osa_identity(s.drop_last());
    }
}

/// The Levenshtein distance never exceeds the longer input's length:
/// overwrite the shorter input in place and append or remove the rest.
pub proof fn lemma_lev_le_max(a: Seq<char>, b: Seq<char>)
    ensures
        lev_spec(a, b) <= max2(a.len(), b.len()),
    decreases a.len() + b.len(),
{
    if a.len() != 0 && b.len() != 0 {
        lemma_lev_le_max(a.drop_last(), b.drop_last());
    }
}

/// Optimal string alignment never exceeds Levenshtein: every edit script
/// that Levenshtein admits, the transposition-extended metric admits too.
pub proof fn lemma_osa_le_lev(a: Seq<char>, b: Seq<char>)
    ensures
        osa_spec(a, b) <= lev_spec(a, b),
    decreases a.len() + b.len(),
{
    if a.len() != 0 && b.len() != 0 {
        lemma_osa_le_lev(a.drop_last(), b);
        lemma_osa_le_lev(a, b.drop_last());
        lemma_osa_le_lev(a.drop_last(), b.drop_last());
    }
}

/// Optimal string alignment is bounded by the longer input's length, as
/// Levenshtein is.
pub proof fn lemma_osa_le_max(a: Seq<char>, b: Seq<char>)
    ensures
        osa_spec(a, b) <= max2(a.len(), b.len()),
{
    lemma_osa_le_lev(a, b);
    lemma_lev_le_max(a, b);
}

} // verus!
