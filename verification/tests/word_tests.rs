//! Tests for words.

use sound::accents::genam::phoneme;
use sound::phoneme::Phoneme;
use sound::stress::Stress;
use sound::syllable::Syllable;
use sound::word::Word;

fn mk_syl(
    onset: Vec<Phoneme>,
    nucleus: Phoneme,
    coda: Vec<Phoneme>,
    stress: Stress,
) -> Syllable {
    Syllable {
        onset,
        nucleus,
        coda,
        stress: Some(stress),
    }
}

fn phon(s: &str) -> Phoneme {
    phoneme(s).unwrap()
}

fn phons(ss: Vec<&str>) -> Vec<Phoneme> {
    let mut vec = Vec::new();
    for s in ss {
        vec.push(phon(s));
    }
    vec
}

fn test_word() -> Word {
    Word::from(vec![
        mk_syl(
            phons(vec!["p"]),
            phon("ʌ"),
            phons(vec!["m", "p"]),
            Stress::Stressed,
        ),
        mk_syl(
            phons(vec!["k"]),
            phon("ɪ"),
            phons(vec!["n"]),
            Stress::Unstressed,
        ),
    ])
}

#[test]
fn word_test_phonemes() {
    let test_word = test_word();
    assert_eq!(
        test_word.phonemes(),
        phons(vec!["p", "ʌ", "m", "p", "k", "ɪ", "n"])
    )
}

#[test]
fn test_stresses() {
    let test_word = test_word();
    assert_eq!(
        test_word.stresses(),
        vec![Stress::Stressed, Stress::Unstressed]
    )
}

#[test]
fn word_test_symbols() {
    let test_word = test_word();
    assert_eq!(test_word.symbols(), String::from("ˈpʌmp.kɪn"))
}
