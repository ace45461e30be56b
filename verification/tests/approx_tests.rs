//! Tests for feature sets and the similarity counts.

use sound::accents::genam::phoneme;
use sound::feature_set::Feature;
use sound::feature_set::feature_set;
use sound::phoneme::Phoneme;
use sound::rhyme::approx::gather_features;
use sound::rhyme::approx::similarity_counts;

fn phon(s: &str) -> Phoneme {
    phoneme(s).unwrap()
}

fn sim(a: &[Phoneme], b: &[Phoneme]) -> f64 {
    let (shared, total) = similarity_counts(a, b);
    shared as f64 / total as f64
}

#[test]
// 'p' flattens to exactly its marked feature tokens
fn test_feature_set_p() {
    let mut fs = feature_set(phon("p"));
    let mut expected = vec![
        Feature::PlusConsonantal,
        Feature::MinusSonorant,
        Feature::MinusSyllabic,
        Feature::MinusContinuant,
        Feature::Labial,
        Feature::Laryngeal,
        Feature::MinusVoice,
    ];
    fs.sort();
    expected.sort();
    assert_eq!(fs, expected);
}

#[test]
// an affricate carries the DelRel token; a plain stop does not
fn test_feature_set_affricate() {
    assert!(feature_set(phon("t͡ʃ")).contains(&Feature::DelRel));
    assert!(!feature_set(phon("t")).contains(&Feature::DelRel));
    assert!(!feature_set(phon("ʃ")).contains(&Feature::DelRel));
}

#[test]
// gathering unions the feature sets of a collection without duplicates
fn test_gather_features() {
    let gathered = gather_features(&[phon("p"), phon("b")]);
    assert!(gathered.contains(&Feature::MinusVoice));
    assert!(gathered.contains(&Feature::PlusVoice));
    let mut dedup = gathered.clone();
    dedup.sort();
    dedup.dedup();
    assert_eq!(gathered.len(), dedup.len());
}

#[test]
// 'p' and 'b' differ only in voicing: 6 shared tokens of 8 in all
fn test_similarity_counts_p_b() {
    let (shared, total) = similarity_counts(&[phon("p")], &[phon("b")]);
    assert_eq!((shared, total), (6, 8));
    assert_eq!(sim(&[phon("p")], &[phon("b")]), 0.75);
}

#[test]
// the similarity quotient stays within [0, 1] and is 1 exactly on
// identical feature sets
fn test_similarity_bounds() {
    let sounds = ["p", "b", "m", "s", "i", "ɑ", "t͡ʃ", "o͡ʊ"];
    for a in sounds {
        for b in sounds {
            let s = sim(&[phon(a)], &[phon(b)]);
            assert!((0.0..=1.0).contains(&s));
            if a == b {
                assert_eq!(s, 1.0);
            }
        }
    }
}

#[test]
// similarity is symmetric in its two collections
fn test_similarity_symmetric() {
    let a = [phon("p"), phon("ɹ"), phon("ɑ")];
    let b = [phon("s"), phon("t"), phon("i")];
    assert_eq!(similarity_counts(&a, &b), similarity_counts(&b, &a));
}

#[test]
// comparing a collection with itself shares every token
fn test_similarity_reflexive() {
    let a = [phon("p"), phon("ɹ"), phon("ɑ"), phon("p")];
    let (shared, total) = similarity_counts(&a, &a);
    assert_eq!(shared, total);
    assert_eq!(sim(&a, &a), 1.0);
}
