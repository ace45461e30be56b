//! Tests for the natural-class predicates.

use sound::accents::genam::phoneme;
use sound::feature_classes::is_affricate;
use sound::feature_classes::is_approximant;
use sound::feature_classes::is_consonant;
use sound::feature_classes::is_fricative;
use sound::feature_classes::is_high_vowel;
use sound::feature_classes::is_lateral;
use sound::feature_classes::is_low_vowel;
use sound::feature_classes::is_mid_vowel;
use sound::feature_classes::is_nasal;
use sound::feature_classes::is_semivowel;
use sound::feature_classes::is_stop;
use sound::feature_classes::is_voiced;
use sound::feature_classes::is_vowel;
use sound::phoneme::Phoneme;

fn phon(s: &str) -> Phoneme {
    phoneme(s).unwrap()
}

#[test]
// for every phoneme, exactly one of vowel/consonant holds
fn test_vowel_consonant_partition() {
    for p in sound::accents::genam::phonemes() {
        assert_ne!(is_vowel(p), is_consonant(p));
    }
}

#[test]
fn test_is_vowel() {
    assert!(is_vowel(phon("i")));
    assert!(is_vowel(phon("o͡ʊ")));
    assert!(!is_vowel(phon("p")));
    assert!(!is_vowel(phon("j")));
}

#[test]
fn test_is_semivowel() {
    assert!(is_semivowel(phon("j")));
    assert!(is_semivowel(phon("w")));
    assert!(!is_semivowel(phon("p")));
    assert!(!is_semivowel(phon("i")));
}

#[test]
fn test_is_voiced() {
    assert!(is_voiced(phon("b")));
    assert!(is_voiced(phon("z")));
    assert!(!is_voiced(phon("p")));
    assert!(!is_voiced(phon("s")));
}

#[test]
fn test_is_stop() {
    assert!(is_stop(phon("p")));
    assert!(is_stop(phon("k")));
    assert!(!is_stop(phon("s")));
    assert!(!is_stop(phon("m")));
}

#[test]
fn test_is_fricative() {
    assert!(is_fricative(phon("s")));
    assert!(is_fricative(phon("h")));
    assert!(!is_fricative(phon("p")));
}

#[test]
fn test_is_approximant() {
    assert!(is_approximant(phon("l")));
    assert!(is_approximant(phon("ɹ")));
    assert!(!is_approximant(phon("t")));
}

#[test]
// an affricate is a stop followed by a fricative; it is always a
// disegment, and the order of the two segments matters
fn test_is_affricate() {
    let ch = phon("t͡ʃ");
    assert!(is_affricate(ch));
    assert!(matches!(ch, Phoneme::Disegment(_, _)));
    assert!(!is_affricate(phon("t")));
    assert!(!is_affricate(phon("ʃ")));
    if let Phoneme::Disegment(s1, s2) = ch {
        let swapped = Phoneme::Disegment(s2, s1);
        assert!(!is_affricate(swapped));
    }
}

#[test]
fn test_is_nasal() {
    assert!(is_nasal(phon("m")));
    assert!(is_nasal(phon("ŋ")));
    assert!(!is_nasal(phon("b")));
}

#[test]
fn test_is_lateral() {
    assert!(is_lateral(phon("l")));
    assert!(!is_lateral(phon("ɹ")));
}

#[test]
fn test_vowel_heights() {
    assert!(is_high_vowel(phon("i")));
    assert!(!is_high_vowel(phon("ɑ")));
    assert!(is_low_vowel(phon("ɑ")));
    assert!(!is_low_vowel(phon("i")));
    assert!(is_mid_vowel(phon("ɛ")));
    assert!(!is_mid_vowel(phon("i")));
    assert!(!is_mid_vowel(phon("ɑ")));
}
