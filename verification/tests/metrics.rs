//! Tests of the pairwise metrics: fixed scenarios, edge cases, and the
//! orderings that relate the metrics to one another.

use xdistances::alternate::{eddie_levenshtein_distance, eddie_levenshtein_distance_parallel};
use xdistances::metrics::{damerau_levenshtein, hamming, levenshtein, metric_distance, osa_distance};
use xdistances::{Metric, MetricError};

#[test]
fn hamming_counts_differing_positions() {
    assert_eq!(hamming("abc", "abd"), Ok(1));
    assert_eq!(hamming("hamming", "hammers"), Ok(3));
    assert_eq!(hamming("", ""), Ok(0));
}

#[test]
fn hamming_rejects_unequal_lengths() {
    assert_eq!(hamming("ab", "abc"), Err(MetricError::LengthMismatch));
    assert_eq!(hamming("abc", ""), Err(MetricError::LengthMismatch));
}

#[test]
fn hamming_counts_code_points_not_bytes() {
    // One code point each, though the byte lengths differ.
    assert_eq!(hamming("\u{e9}", "e"), Ok(1));
    assert_eq!(hamming("caf\u{e9}", "cafe"), Ok(1));
}

#[test]
fn levenshtein_kitten_sitting() {
    assert_eq!(levenshtein("kitten", "sitting"), 3);
}

#[test]
fn levenshtein_edge_cases() {
    assert_eq!(levenshtein("", ""), 0);
    assert_eq!(levenshtein("", "abc"), 3);
    assert_eq!(levenshtein("abc", ""), 3);
    assert_eq!(levenshtein("sunday", "saturday"), 3);
}

#[test]
fn osa_allows_one_transposition_per_position() {
    assert_eq!(osa_distance("ab", "ba"), 1);
    assert_eq!(osa_distance("ab", "bca"), 3);
    assert_eq!(osa_distance("ca", "abc"), 3);
    assert_eq!(osa_distance("", ""), 0);
    assert_eq!(osa_distance("abc", "abc"), 0);
}

#[test]
fn damerau_saves_over_levenshtein_on_transpositions() {
    assert_eq!(damerau_levenshtein("ca", "abc"), 2);
    assert_eq!(levenshtein("ca", "abc"), 3);
    assert_eq!(damerau_levenshtein("ab", "bca"), 2);
    assert_eq!(damerau_levenshtein("ab", "ba"), 1);
}

#[test]
fn identity_value_is_zero_for_every_distance_metric() {
    for s in ["", "a", "damerau", "caf\u{e9}"] {
        assert_eq!(hamming(s, s), Ok(0));
        assert_eq!(levenshtein(s, s), 0);
        assert_eq!(osa_distance(s, s), 0);
        assert_eq!(damerau_levenshtein(s, s), 0);
        assert_eq!(eddie_levenshtein_distance(s, s), 0);
    }
}

#[test]
fn damerau_below_osa_below_levenshtein() {
    let pairs = [
        ("ca", "abc"),
        ("ab", "bca"),
        ("kitten", "sitting"),
        ("specter", "spectre"),
        ("", "abc"),
        ("a cat", "an abct"),
    ];
    for (a, b) in pairs {
        let dl = damerau_levenshtein(a, b);
        let osa = osa_distance(a, b);
        let lev = levenshtein(a, b);
        assert!(dl <= osa);
        assert!(osa <= lev);
    }
}

#[test]
fn normalized_levenshtein_matches_its_formula() {
    // The normalized score is computed outside the verified core (it is a
    // float), but it must equal 1 - levenshtein / max(len, len).
    let a = "kitten";
    let b = "sitting";
    let expected = 1.0 - (levenshtein(a, b) as f64) / 7.0;
    assert_eq!(strsim::normalized_levenshtein(a, b), expected);
    assert_eq!(strsim::normalized_levenshtein("", ""), 1.0);
    assert_eq!(strsim::normalized_levenshtein("", "ab"), 0.0);
    let expected_dl = 1.0 - (damerau_levenshtein(a, b) as f64) / 7.0;
    assert_eq!(strsim::normalized_damerau_levenshtein(a, b), expected_dl);
}

#[test]
fn jaro_winkler_is_at_least_jaro() {
    // The Jaro family returns floats and lives outside the verified core;
    // the prefix bonus may only raise the score.
    let pairs = [
        ("dixon", "dicksonx"),
        ("martha", "marhta"),
        ("cat", "dog"),
        ("", ""),
        ("prefix", "pretext"),
    ];
    for (a, b) in pairs {
        assert!(strsim::jaro_winkler(a, b) >= strsim::jaro(a, b));
    }
}

#[test]
fn alternate_levenshtein_agrees_with_native() {
    let pairs = [
        ("kitten", "sitting"),
        ("martha", "marhta"),
        ("", "abc"),
        ("abc", ""),
        ("same", "same"),
    ];
    for (a, b) in pairs {
        assert_eq!(eddie_levenshtein_distance(a, b), levenshtein(a, b));
    }
    assert_eq!(eddie_levenshtein_distance("kitten", "sitting"), 3);
}

#[test]
fn alternate_levenshtein_handles_long_inputs() {
    // Beyond the alternate implementation's row-value cap the native path
    // takes over; the result is the same distance.
    let long_a = "a".repeat(300);
    let long_b = format!("{}b", "a".repeat(299));
    assert_eq!(eddie_levenshtein_distance(&long_a, &long_b), 1);
    assert_eq!(eddie_levenshtein_distance(&long_a, &long_a), 0);
    assert_eq!(
        eddie_levenshtein_distance(&long_a, "a"),
        levenshtein(&long_a, "a")
    );
}

#[test]
fn alternate_levenshtein_batch_keeps_order() {
    let left = vec!["a".to_string(), "kitten".to_string()];
    let right = vec!["a".to_string(), "sitting".to_string()];
    assert_eq!(eddie_levenshtein_distance_parallel(&left, &right), vec![0, 3]);
}

#[test]
fn metric_distance_dispatches_each_metric() {
    assert_eq!(metric_distance(Metric::Hamming, "abc", "abd"), Ok(1));
    assert_eq!(
        metric_distance(Metric::Hamming, "ab", "abc"),
        Err(MetricError::LengthMismatch)
    );
    assert_eq!(metric_distance(Metric::Levenshtein, "ca", "abc"), Ok(3));
    assert_eq!(metric_distance(Metric::OsaDistance, "ca", "abc"), Ok(3));
    assert_eq!(metric_distance(Metric::DamerauLevenshtein, "ca", "abc"), Ok(2));
}
