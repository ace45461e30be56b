//! Tests for syllables.

use sound::accents::genam::phoneme;
use sound::phoneme::Phoneme;
use sound::stress::Stress;
use sound::syllable::Syllable;

fn test_syl() -> Syllable {
    Syllable {
        onset: vec![phon("p"), phon("ɹ")],
        nucleus: phon("ɑ"),
        coda: vec![phon("p")],
        stress: Some(Stress::Stressed),
    }
}

fn phon(s: &str) -> Phoneme {
    phoneme(s).unwrap()
}

#[test]
fn test_rhyme() {
    let test_syl = test_syl();
    assert_eq!(test_syl.rhyme(), vec![phon("ɑ"), phon("p")])
}

#[test]
fn syllable_test_phonemes() {
    let test_syl = test_syl();
    assert_eq!(
        test_syl.phonemes(),
        vec![phon("p"), phon("ɹ"), phon("ɑ"), phon("p")]
    )
}

#[test]
fn syllable_test_symbols() {
    let test_syl = test_syl();
    assert_eq!(test_syl.symbols(), String::from("pɹɑp"))
}
