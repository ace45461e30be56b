//! Tests for the General American accent table.

use sound::accents::genam::phoneme;
use sound::accents::genam::phonemes;
use sound::accents::genam::symbols;
use sound::features::BinaryFeature;
use sound::features::LabialFeature;
use sound::features::PharyngealFeature;
use sound::features::UnaryFeature;
use sound::phoneme::Phoneme;

#[test]
fn mod_test_symbols() {
    let mut actual: Vec<String> = symbols();
    let mut expected: Vec<String> = vec![
        "m", "n", "ŋ", "p", "b", "t", "d", "k", "ɡ", "t͡ʃ", "d͡ʒ", "f", "v", "θ", "ð", "s", "z",
        "ʃ", "ʒ", "h", "l", "ɹ", "j", "ʍ", "w", "i", "ɪ", "ɛ", "ə", "æ", "ʌ", "ɑ", "u", "ʊ", "ɔ",
        "e͡ɪ", "a͡ɪ", "a͡ʊ", "o͡ʊ", "ɔ͡ɪ", "ɜ˞", "ə˞",
    ]
    .into_iter()
    .map(String::from)
    .collect();
    actual.sort();
    expected.sort();
    assert_eq!(actual, expected);
}

#[test]
fn test_phoneme_m() {
    let m = phoneme("m");
    assert!(m.is_some());
    if let Phoneme::Monosegment(seg) = m.unwrap() {
        assert_eq!(
            seg.autosegmental_features.nasal,
            Some(UnaryFeature::Marked)
        );
        assert_eq!(
            seg.autosegmental_features.place.as_ref().unwrap().labial,
            Some(LabialFeature::default())
        );
        assert_eq!(seg.root_features.sonorant, BinaryFeature::Marked);
    }
}

#[test]
fn test_phoneme_ei() {
    let m = phoneme("e͡ɪ");
    assert!(m.is_some());
    if let Phoneme::Disegment(seg1, seg2) = m.unwrap() {
        assert_eq!(
            seg1.autosegmental_features
                .place
                .as_ref()
                .unwrap()
                .pharyngeal,
            Some(PharyngealFeature {
                advanced_tongue_root: Some(BinaryFeature::Marked)
            }),
        );
        assert_eq!(
            seg2.autosegmental_features
                .place
                .as_ref()
                .unwrap()
                .pharyngeal,
            None,
        );
        assert_eq!(
            seg1.autosegmental_features
                .place
                .as_ref()
                .unwrap()
                .dorsal
                .as_ref()
                .unwrap()
                .back,
            Some(BinaryFeature::Unmarked)
        );
        assert_eq!(
            seg2.autosegmental_features
                .place
                .as_ref()
                .unwrap()
                .dorsal
                .as_ref()
                .unwrap()
                .back,
            Some(BinaryFeature::Unmarked)
        );
    }
}

#[test]
// the table holds one phoneme for each symbol, and the lookup misses
// on a symbol outside the table
fn test_genam_lookup() {
    assert_eq!(symbols().len(), 42);
    assert_eq!(phonemes().len(), 42);
    assert!(phoneme("x").is_none());
    assert!(phoneme("p").is_some());
}

#[test]
// parsing a real word against the full table, and rendering it back
fn test_genam_word_round_trip() {
    let word = sound::builders::words::from_accent(
        &sound::accents::genam::accent(),
        "ˈhɛ.lo͡ʊ",
    )
    .unwrap();
    assert_eq!(word.symbols(), "ˈhɛ.lo͡ʊ");
}
