//! An alternate Levenshtein implementation, taken from an independent
//! outside library as a drop-in equivalent of the native one: same contract,
//! same numeric output, available for cross-checking and as a performance
//! alternative.

use vstd::prelude::*;

use crate::metrics::levenshtein;
use crate::specs::{lemma_levenshtein_identity, lev_spec};

verus! {

/// The longest input, in code points, that the outside implementation is
/// called on: it keeps its rows in bytes, and row values stay below 256
/// exactly when neither input is longer than this.
pub const EDDIE_MAX_LEN: usize = 254;

#[verifier::external_type_specification]
#[verifier::external_body]
pub struct ExEddieLevenshtein(eddie::Levenshtein);

/// Relies on eddie::Levenshtein::new: it only allocates the scratch buffers
/// that later distance calls reuse, so nothing is stated of the value.
pub assume_specification[ eddie::Levenshtein::new ]() -> eddie::Levenshtein;

/// Relies on eddie::Levenshtein::distance, documented as the number of
/// character additions, deletions and substitutions required to transform
/// one string into the other: the Levenshtein distance over code points.
/// Its row values are bytes, so inputs longer than 254 code points, on
/// which a row value could overflow, are kept out.
pub assume_specification[ eddie::Levenshtein::distance ](
    lev: &eddie::Levenshtein,
    str1: &str,
    str2: &str,
) -> (r: usize)
    requires
        str1@.len() <= 254,
        str2@.len() <= 254,
    ensures
        r as nat == lev_spec(str1@, str2@),
;

/// Levenshtein distance computed by the alternate implementation. Same
/// contract as `levenshtein`: the two agree on every input pair. Inputs
/// beyond the alternate's row-value cap take the native path, so the
/// function stays total.
pub fn eddie_levenshtein_distance(left: &str, right: &str) -> (r: usize)
    ensures
        r as nat == lev_spec(left@, right@),
        left@ == right@ ==> r == 0,
{
    proof {
        if left@ == right@ {
            lemma_levenshtein_identity(left@);
        }
    }
    let n1 = left.unicode_len();
    let n2 = right.unicode_len();
    if n1 <= EDDIE_MAX_LEN && n2 <= EDDIE_MAX_LEN {
        let lev = eddie::Levenshtein::new();
        lev.distance(left, right)
    } else {
        levenshtein(left, right)
    }
}

/// The alternate Levenshtein distance over two equal-length sequences of
/// strings, pairwise by position. One distance per index, in input order.
pub fn eddie_levenshtein_distance_parallel(left: &Vec<String>, right: &Vec<String>) -> (r: Vec<
    usize,
>)
    requires
        left@.len() == right@.len(),
    ensures
        r@.len() == left@.len(),
        forall|i: int| 0 <= i < r@.len() ==> r@[i] as nat == lev_spec(left@[i]@, right@[i]@),
{
    let mut out: Vec<usize> = Vec::new();
    let n = left.len();
    for i in 0..n
        invariant
            n == left@.len(),
            left@.len() == right@.len(),
            out@.len() == i,
            forall|k: int| 0 <= k < i ==> out@[k] as nat == lev_spec(left@[k]@, right@[k]@),
    {
        out.push(eddie_levenshtein_distance(left[i].as_str(), right[i].as_str()));
    }
    out
}

} // verus!
