//! Tests for the word parser.

use sound::accents::Accent;
use sound::builders::words::WordConstructorError;
use sound::builders::words::from_accent;
use sound::builders::words::split_word_desc;
use sound::features::AutosegmentalFeatures;
use sound::features::BinaryFeature;
use sound::features::RootFeatures;
use sound::features::Segment;
use sound::phoneme::Phoneme;
use sound::stress::Stress;
use sound::syllable::Syllable;
use sound::word::Word;

// mock accent used for testing
fn mock_accent() -> Accent {
    // when adding new symbols, be sure to also mark vowels as
    // syllabic in mock_seg
    Accent::new(vec![
        (String::from("h"), mock_phon_m('h')),
        (String::from("ɛ"), mock_phon_m('ɛ')),
        (String::from("l"), mock_phon_m('l')),
        (String::from("o͡ʊ"), mock_phon_d('o', 'ʊ')),
        (String::from("t"), mock_phon_m('t')),
        (String::from("s"), mock_phon_m('s')),
        (String::from("i"), mock_phon_m('i')),
        (String::from("ə˞"), mock_phon_m('ɚ')),
    ])
}

fn mock_phon_m(sym: char) -> Phoneme {
    Phoneme::Monosegment(mock_seg(sym))
}

fn mock_phon_d(sym1: char, sym2: char) -> Phoneme {
    Phoneme::Disegment(mock_seg(sym1), mock_seg(sym2))
}

fn mock_seg(sym: char) -> Segment {
    // The only fields that matter here are symbol and
    // root_features.syllabic
    Segment {
        symbol: sym,
        root_features: RootFeatures {
            // mark vowels as +syllabic
            syllabic: if "ɛɚʊoi".contains(sym) {
                BinaryFeature::Marked
            } else {
                BinaryFeature::Unmarked
            },
            sonorant: BinaryFeature::Unmarked,
            consonantal: BinaryFeature::Unmarked,
        },
        autosegmental_features: AutosegmentalFeatures::default(),
    }
}

#[test]
//testing multiple syllables, breve-connected symbols, syllable break marker, only onsets
fn test_from_accent() -> Result<(), WordConstructorError> {
    println!("{:?}", split_word_desc("ˈhɛ.lo͡ʊ"));
    assert_eq!(
        from_accent(&mock_accent(), "ˈhɛ.lo͡ʊ")?,
        Word::from(vec![
            Syllable {
                onset: vec![mock_phon_m('h')],
                nucleus: mock_phon_m('ɛ'),
                coda: vec![],
                stress: Some(Stress::Stressed),
            },
            Syllable {
                onset: vec![mock_phon_m('l')],
                nucleus: mock_phon_d('o', 'ʊ'),
                coda: vec![],
                stress: Some(Stress::Unstressed),
            }
        ])
    );
    Ok(())
}

#[test]
//testing single syl, no stress, both onset and codas
fn test_from_accent_single_syl() -> Result<(), WordConstructorError> {
    println!("{:?}", split_word_desc("tɛst"));
    assert_eq!(
        from_accent(&mock_accent(), "tɛst")?,
        Word::from(vec![Syllable {
            onset: vec![mock_phon_m('t')],
            nucleus: mock_phon_m('ɛ'),
            coda: vec![mock_phon_m('s'), mock_phon_m('t')],
            stress: None,
        }])
    );
    Ok(())
}

#[test]
//testing use of numbered stress
fn test_from_accent_numbered_stress() -> Result<(), WordConstructorError> {
    println!("{:?}", split_word_desc("2ti4tə˞"));
    assert_eq!(
        from_accent(&mock_accent(), "2ti4tə˞")?,
        Word::from(vec![
            Syllable {
                onset: vec![mock_phon_m('t')],
                nucleus: mock_phon_m('i'),
                coda: vec![],
                stress: Some(Stress::SecondaryStress),
            },
            Syllable {
                onset: vec![mock_phon_m('t')],
                nucleus: mock_phon_m('ɚ'),
                coda: vec![],
                stress: Some(Stress::ReducedStress),
            }
        ])
    );
    Ok(())
}

#[test]
// a stress mark on a single-syllable word is still suppressed
fn test_from_accent_single_syl_stressed() -> Result<(), WordConstructorError> {
    assert_eq!(
        from_accent(&mock_accent(), "ˈtɛst")?,
        Word::from(vec![Syllable {
            onset: vec![mock_phon_m('t')],
            nucleus: mock_phon_m('ɛ'),
            coda: vec![mock_phon_m('s'), mock_phon_m('t')],
            stress: None,
        }])
    );
    Ok(())
}

#[test]
// the empty description is rejected
fn test_from_accent_empty() {
    let r = from_accent(&mock_accent(), "");
    assert!(r.is_err());
    assert_eq!(r.unwrap_err().message(), "BadSylStructure: empty string");
}

#[test]
// a grapheme the accent does not know is rejected, with no partial word
fn test_from_accent_unknown_symbol() {
    let r = from_accent(&mock_accent(), "tɛx");
    assert!(r.is_err());
    assert_eq!(
        r.unwrap_err().message(),
        "UnknownSymbol: x not recognized in accent"
    );
}

#[test]
// two vowels inside one syllable are rejected
fn test_from_accent_two_nuclei() {
    let r = from_accent(&mock_accent(), "tɛi");
    assert!(r.is_err());
    assert_eq!(
        r.unwrap_err().message(),
        "BadSylStructure: two phonemes in syl: ɛ/i"
    );
}

#[test]
// a syllable without a vowel is rejected
fn test_from_accent_no_nucleus() {
    let r = from_accent(&mock_accent(), "ts");
    assert!(r.is_err());
    assert_eq!(
        r.unwrap_err().message(),
        "BadSylStructure: no nucleus in syllable"
    );
}

#[test]
// a tie bar at the end of the description has nothing to join
fn test_from_accent_dangling_tie() {
    let r = from_accent(&mock_accent(), "tɛt\u{0361}");
    assert!(r.is_err());
    assert_eq!(
        r.unwrap_err().message(),
        "BadWordDesc: connector u/0361 given without following symbol"
    );
}

#[test]
// a tie bar glued onto a stress mark leaves the syllable without
// plain stress information
fn test_from_accent_malformed_stress() {
    let r = from_accent(&mock_accent(), "ɛˈ\u{0361}ɛɛ");
    assert!(r.is_err());
    assert_eq!(
        r.unwrap_err().message(),
        "BadSylStructure: no stress information for syllable"
    );
}

#[test]
// rendering a parsed multi-syllable word reproduces the description
fn test_round_trip_symbols() -> Result<(), WordConstructorError> {
    let accent = mock_accent();
    let word = from_accent(&accent, "ˈhɛ.lo͡ʊ")?;
    let rendered = word.symbols();
    assert_eq!(rendered, "ˈhɛ.lo͡ʊ");
    let word1 = from_accent(&accent, "ˈhɛ.lo͡ʊ")?;
    let word2 = from_accent(&accent, rendered.as_str())?;
    assert_eq!(word1, word2);
    Ok(())
}
