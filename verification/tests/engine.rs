//! Tests of the batch evaluator and the extremal search engine: order
//! preservation, the empty-corpus default, whole-batch failure, and
//! agreement between the sequential and the worker-pool paths.

use xdistances::batch::{
    batch_distance, damerau_levenshtein_parallel, levenshtein_parallel, osa_distance_parallel,
};
use xdistances::search::{
    damerau_levenshtein_max_similarity, damerau_levenshtein_min_similarity, extremal_scan,
    extremal_search, levenshtein_max_similarity, levenshtein_min_similarity,
    osa_distance_max_similarity, osa_distance_min_similarity,
};
use xdistances::{Metric, MetricError, SearchMode};

fn strings(words: &[&str]) -> Vec<String> {
    words.iter().map(|w| w.to_string()).collect()
}

#[test]
fn batch_preserves_index_order() {
    let left = strings(&["a", "b"]);
    let right = strings(&["a", "c"]);
    assert_eq!(levenshtein_parallel(&left, &right), vec![0, 1]);
}

#[test]
fn batch_variants_score_each_pair() {
    let left = strings(&["ca", "kitten", "same"]);
    let right = strings(&["abc", "sitting", "same"]);
    assert_eq!(levenshtein_parallel(&left, &right), vec![3, 3, 0]);
    assert_eq!(osa_distance_parallel(&left, &right), vec![3, 3, 0]);
    assert_eq!(damerau_levenshtein_parallel(&left, &right), vec![2, 3, 0]);
}

#[test]
fn batch_on_empty_inputs_is_empty() {
    let none: Vec<String> = Vec::new();
    assert_eq!(levenshtein_parallel(&none, &none), Vec::<usize>::new());
}

#[test]
fn hamming_batch_fails_whole_call_on_one_bad_pair() {
    let left = strings(&["ab", "cd", "ef"]);
    let right = strings(&["ax", "c", "ef"]);
    assert_eq!(
        batch_distance(Metric::Hamming, &left, &right),
        Err(MetricError::LengthMismatch)
    );
    let right_ok = strings(&["ax", "cd", "fe"]);
    assert_eq!(batch_distance(Metric::Hamming, &left, &right_ok), Ok(vec![1, 0, 2]));
}

#[test]
fn sequential_and_parallel_batches_agree() {
    let left = strings(&["ca", "kitten", "", "abba"]);
    let right = strings(&["abc", "sitting", "x", "baab"]);
    for metric in [Metric::Levenshtein, Metric::OsaDistance, Metric::DamerauLevenshtein] {
        let seq = batch_distance(metric, &left, &right).unwrap();
        let par = match metric {
            Metric::Levenshtein => levenshtein_parallel(&left, &right),
            Metric::OsaDistance => osa_distance_parallel(&left, &right),
            _ => damerau_levenshtein_parallel(&left, &right),
        };
        assert_eq!(seq, par);
    }
}

#[test]
fn empty_corpus_yields_explicit_zero_default() {
    let targets = strings(&["cat"]);
    let corpus: Vec<String> = Vec::new();
    assert_eq!(levenshtein_max_similarity(&targets, &corpus), vec![0]);
    assert_eq!(levenshtein_min_similarity(&targets, &corpus), vec![0]);
    assert_eq!(osa_distance_max_similarity(&targets, &corpus), vec![0]);
    assert_eq!(damerau_levenshtein_min_similarity(&targets, &corpus), vec![0]);
}

#[test]
fn min_similarity_finds_exact_match() {
    let targets = strings(&["cat"]);
    let corpus = strings(&["cat", "dog"]);
    assert_eq!(levenshtein_min_similarity(&targets, &corpus), vec![0]);
}

#[test]
fn search_scans_every_corpus_entry() {
    let targets = strings(&["cat", "kitten"]);
    let corpus = strings(&["bat", "category", "dog"]);
    // cat: 1 against bat, 5 against category, 3 against dog.
    // kitten: 5, 7, 6.
    assert_eq!(levenshtein_max_similarity(&targets, &corpus), vec![5, 7]);
    assert_eq!(levenshtein_min_similarity(&targets, &corpus), vec![1, 5]);
    assert_eq!(osa_distance_min_similarity(&targets, &corpus), vec![1, 5]);
    assert_eq!(damerau_levenshtein_max_similarity(&targets, &corpus), vec![5, 7]);
    assert_eq!(osa_distance_max_similarity(&targets, &corpus), vec![5, 7]);
    assert_eq!(damerau_levenshtein_min_similarity(&targets, &corpus), vec![1, 5]);
}

#[test]
fn scan_reduces_one_target() {
    let corpus = strings(&["bat", "category", "dog"]);
    assert_eq!(
        extremal_scan(Metric::Levenshtein, "cat", &corpus, SearchMode::Max),
        Ok(5)
    );
    assert_eq!(
        extremal_scan(Metric::Levenshtein, "cat", &corpus, SearchMode::Min),
        Ok(1)
    );
    assert_eq!(extremal_scan(Metric::Levenshtein, "cat", &Vec::new(), SearchMode::Min), Ok(0));
}

#[test]
fn hamming_search_fails_on_any_length_mismatch() {
    let targets = strings(&["cat"]);
    let corpus = strings(&["bat", "category"]);
    assert_eq!(
        extremal_search(Metric::Hamming, &targets, &corpus, SearchMode::Min),
        Err(MetricError::LengthMismatch)
    );
    let equal_corpus = strings(&["bat", "cot"]);
    assert_eq!(
        extremal_search(Metric::Hamming, &targets, &equal_corpus, SearchMode::Min),
        Ok(vec![1])
    );
}

#[test]
fn sequential_and_parallel_searches_agree() {
    let targets = strings(&["cat", "kitten", ""]);
    let corpus = strings(&["bat", "category", "dog", ""]);
    for mode in [SearchMode::Max, SearchMode::Min] {
        let seq = extremal_search(Metric::Levenshtein, &targets, &corpus, mode).unwrap();
        let par = match mode {
            SearchMode::Max => levenshtein_max_similarity(&targets, &corpus),
            SearchMode::Min => levenshtein_min_similarity(&targets, &corpus),
        };
        assert_eq!(seq, par);
    }
}
