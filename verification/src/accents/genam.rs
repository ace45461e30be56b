//! General American English sound definitions.
//!
//! This module provides a mapping from a set of IPA symbols to a set
//! of phonemes, based on the 'General American English' accent.

use vstd::prelude::*;

use crate::accents::Accent;
use crate::accents::spec_lookup;
use crate::builders::consonants::approximant;
use crate::builders::consonants::bilabial;
use crate::builders::consonants::distrib;
use crate::builders::consonants::fricative;
use crate::builders::consonants::glide;
use crate::builders::consonants::glottal;
use crate::builders::consonants::labiodental;
use crate::builders::consonants::lateral;
use crate::builders::consonants::nasal;
use crate::builders::consonants::postalveolar;
use crate::builders::consonants::sibilant;
use crate::builders::consonants::spec_approximant;
use crate::builders::consonants::spec_bilabial;
use crate::builders::consonants::spec_fricative;
use crate::builders::consonants::spec_glide;
use crate::builders::consonants::spec_glottal;
use crate::builders::consonants::spec_lateral;
use crate::builders::consonants::spec_nasal;
use crate::builders::consonants::spec_postalveolar;
use crate::builders::consonants::spec_rhotic;
use crate::builders::consonants::spec_sibilant;
use crate::builders::consonants::spec_stop;
use crate::builders::consonants::spec_vd;
use crate::builders::consonants::spec_velar;
use crate::builders::consonants::spec_vl;
use crate::builders::consonants::stop;
use crate::builders::consonants::vd;
use crate::builders::consonants::velar;
use crate::builders::consonants::vl;
use crate::builders::consonants::alveolar;
use crate::builders::consonants::dental;
use crate::builders::consonants::palatal;
use crate::builders::consonants::spec_alveolar;
use crate::builders::vowels::back;
use crate::builders::vowels::front;
use crate::builders::vowels::high;
use crate::builders::vowels::low;
use crate::builders::vowels::mid;
use crate::builders::vowels::rounded;
use crate::builders::vowels::spec_back;
use crate::builders::vowels::spec_front;
use crate::builders::vowels::spec_high_builder;
use crate::builders::vowels::spec_low_builder;
use crate::builders::vowels::spec_mid_builder;
use crate::builders::vowels::spec_rounded;
use crate::builders::vowels::spec_tense;
use crate::builders::vowels::tense;
use crate::features::AutosegmentalFeatures;
use crate::features::BinaryFeature;
use crate::features::RootFeatures;
use crate::features::Segment;
use crate::phoneme::Phoneme;

verus! {

/// A bare consonant base: (+consonantal, -sonorant, -syllabic) with
/// no autosegmental features.
pub open spec fn spec_consonant_base(sym: char) -> Segment {
    Segment {
        root_features: RootFeatures {
            consonantal: BinaryFeature::Marked,
            sonorant: BinaryFeature::Unmarked,
            syllabic: BinaryFeature::Unmarked,
        },
        autosegmental_features: AutosegmentalFeatures {
            nasal: None,
            lateral: None,
            rhotic: None,
            strident: None,
            continuant: None,
            place: None,
            laryngeal: None,
        },
        symbol: sym,
    }
}

/// A bare vowel base: (-consonantal, +sonorant, +syllabic) with no
/// autosegmental features.
pub open spec fn spec_vowel_base(sym: char) -> Segment {
    Segment {
        root_features: RootFeatures {
            consonantal: BinaryFeature::Unmarked,
            sonorant: BinaryFeature::Marked,
            syllabic: BinaryFeature::Marked,
        },
        autosegmental_features: AutosegmentalFeatures {
            nasal: None,
            lateral: None,
            rhotic: None,
            strident: None,
            continuant: None,
            place: None,
            laryngeal: None,
        },
        symbol: sym,
    }
}

/// The General American consonant entries, in table order.
pub open spec fn genam_consonant_entries() -> Seq<(Seq<char>, Phoneme)> {
    seq![
        ("m"@, Phoneme::Monosegment(spec_nasal(spec_bilabial(spec_vd(spec_consonant_base('m')))))),
        ("n"@, Phoneme::Monosegment(spec_nasal(spec_alveolar(spec_vd(spec_consonant_base('n')))))),
        ("ŋ"@, Phoneme::Monosegment(spec_nasal(spec_velar(spec_vd(spec_consonant_base('ŋ')))))),
        ("p"@, Phoneme::Monosegment(spec_stop(spec_bilabial(spec_vl(spec_consonant_base('p')))))),
        ("b"@, Phoneme::Monosegment(spec_stop(spec_bilabial(spec_vd(spec_consonant_base('b')))))),
        ("t"@, Phoneme::Monosegment(spec_stop(spec_alveolar(spec_vl(spec_consonant_base('t')))))),
        ("d"@, Phoneme::Monosegment(spec_stop(spec_alveolar(spec_vd(spec_consonant_base('d')))))),
        ("k"@, Phoneme::Monosegment(spec_stop(spec_velar(spec_vl(spec_consonant_base('k')))))),
        ("ɡ"@, Phoneme::Monosegment(spec_stop(spec_velar(spec_vd(spec_consonant_base('ɡ')))))),
        (
            "t͡ʃ"@,
            Phoneme::Disegment(
                spec_stop(spec_alveolar(spec_vl(spec_consonant_base('t')))),
                spec_fricative(
                    spec_sibilant(
                        crate::builders::consonants::spec_distrib(
                            spec_postalveolar(spec_vl(spec_consonant_base('ʃ'))),
                        ),
                    ),
                ),
            ),
        ),
        (
            "d͡ʒ"@,
            Phoneme::Disegment(
                spec_stop(spec_alveolar(spec_vd(spec_consonant_base('d')))),
                spec_fricative(
                    spec_sibilant(
                        crate::builders::consonants::spec_distrib(
                            spec_postalveolar(spec_vd(spec_consonant_base('ʒ'))),
                        ),
                    ),
                ),
            ),
        ),
        (
            "f"@,
            Phoneme::Monosegment(
                spec_fricative(spec_sibilant(spec_bilabial(spec_vl(spec_consonant_base('f'))))),
            ),
        ),
        (
            "v"@,
            Phoneme::Monosegment(
                spec_fricative(spec_sibilant(spec_bilabial(spec_vd(spec_consonant_base('v'))))),
            ),
        ),
        (
            "θ"@,
            Phoneme::Monosegment(
                spec_fricative(
                    crate::builders::consonants::spec_distrib(
                        spec_alveolar(spec_vl(spec_consonant_base('θ'))),
                    ),
                ),
            ),
        ),
        (
            "ð"@,
            Phoneme::Monosegment(
                spec_fricative(
                    crate::builders::consonants::spec_distrib(
                        spec_alveolar(spec_vd(spec_consonant_base('ð'))),
                    ),
                ),
            ),
        ),
        (
            "s"@,
            Phoneme::Monosegment(
                spec_fricative(spec_sibilant(spec_alveolar(spec_vl(spec_consonant_base('s'))))),
            ),
        ),
        (
            "z"@,
            Phoneme::Monosegment(
                spec_fricative(spec_sibilant(spec_alveolar(spec_vd(spec_consonant_base('z'))))),
            ),
        ),
        (
            "ʃ"@,
            Phoneme::Monosegment(
                spec_fricative(
                    spec_sibilant(
                        crate::builders::consonants::spec_distrib(
                            spec_postalveolar(spec_vl(spec_consonant_base('ʃ'))),
                        ),
                    ),
                ),
            ),
        ),
        (
            "ʒ"@,
            Phoneme::Monosegment(
                spec_fricative(
                    spec_sibilant(
                        crate::builders::consonants::spec_distrib(
                            spec_postalveolar(spec_vd(spec_consonant_base('ʒ'))),
                        ),
                    ),
                ),
            ),
        ),
        ("h"@, Phoneme::Monosegment(spec_fricative(spec_glottal(spec_vl(spec_consonant_base('h')))))),
        (
            "l"@,
            Phoneme::Monosegment(
                spec_approximant(
                    crate::builders::consonants::spec_distrib(
                        spec_lateral(spec_alveolar(spec_vd(spec_consonant_base('l')))),
                    ),
                ),
            ),
        ),
        (
            "ɹ"@,
            Phoneme::Monosegment(
                spec_approximant(
                    spec_rhotic(
                        crate::builders::consonants::spec_distrib(
                            spec_alveolar(spec_vd(spec_consonant_base('ɹ'))),
                        ),
                    ),
                ),
            ),
        ),
        ("j"@, Phoneme::Monosegment(spec_glide(spec_velar(spec_vd(spec_consonant_base('j')))))),
        (
            "ʍ"@,
            Phoneme::Monosegment(
                spec_glide(spec_velar(spec_bilabial(spec_vl(spec_consonant_base('ʍ'))))),
            ),
        ),
        (
            "w"@,
            Phoneme::Monosegment(
                spec_glide(spec_velar(spec_bilabial(spec_vd(spec_consonant_base('w'))))),
            ),
        ),
    ]
}

/// The General American vowel entries, in table order.
pub open spec fn genam_vowel_entries() -> Seq<(Seq<char>, Phoneme)> {
    seq![
        (
            "i"@,
            Phoneme::Monosegment(
                spec_tense(spec_front(spec_high_builder(spec_vowel_base('i')))),
            ),
        ),
        ("ɪ"@, Phoneme::Monosegment(spec_front(spec_high_builder(spec_vowel_base('ɪ'))))),
        (
            "ɛ"@,
            Phoneme::Monosegment(spec_tense(spec_front(spec_mid_builder(spec_vowel_base('ɛ'))))),
        ),
        ("æ"@, Phoneme::Monosegment(spec_front(spec_mid_builder(spec_vowel_base('æ'))))),
        ("ə"@, Phoneme::Monosegment(spec_front(spec_mid_builder(spec_vowel_base('ə'))))),
        ("ʌ"@, Phoneme::Monosegment(spec_back(spec_mid_builder(spec_vowel_base('ʌ'))))),
        ("ɑ"@, Phoneme::Monosegment(spec_back(spec_low_builder(spec_vowel_base('ɑ'))))),
        (
            "u"@,
            Phoneme::Monosegment(
                spec_tense(spec_rounded(spec_back(spec_high_builder(spec_vowel_base('u'))))),
            ),
        ),
        (
            "ʊ"@,
            Phoneme::Monosegment(spec_rounded(spec_back(spec_high_builder(spec_vowel_base('ʊ'))))),
        ),
        (
            "ɔ"@,
            Phoneme::Monosegment(spec_rounded(spec_back(spec_mid_builder(spec_vowel_base('ɔ'))))),
        ),
        (
            "e͡ɪ"@,
            Phoneme::Disegment(
                spec_tense(spec_front(spec_mid_builder(spec_vowel_base('e')))),
                spec_front(spec_high_builder(spec_vowel_base('ɪ'))),
            ),
        ),
        (
            "a͡ɪ"@,
            Phoneme::Disegment(
                spec_front(spec_low_builder(spec_vowel_base('a'))),
                spec_front(spec_high_builder(spec_vowel_base('ɪ'))),
            ),
        ),
        (
            "a͡ʊ"@,
            Phoneme::Disegment(
                spec_front(spec_low_builder(spec_vowel_base('a'))),
                spec_rounded(spec_back(spec_high_builder(spec_vowel_base('ʊ')))),
            ),
        ),
        (
            "o͡ʊ"@,
            Phoneme::Disegment(
                spec_rounded(spec_tense(spec_back(spec_mid_builder(spec_vowel_base('o'))))),
                spec_rounded(spec_back(spec_high_builder(spec_vowel_base('ʊ')))),
            ),
        ),
        (
            "ɔ͡ɪ"@,
            Phoneme::Disegment(
                spec_rounded(spec_back(spec_mid_builder(spec_vowel_base('ɔ')))),
                spec_front(spec_high_builder(spec_vowel_base('ɪ'))),
            ),
        ),
        (
            "ɜ˞"@,
            Phoneme::Monosegment(
                spec_rhotic(spec_tense(spec_front(spec_mid_builder(spec_vowel_base('ɝ'))))),
            ),
        ),
        (
            "ə˞"@,
            Phoneme::Monosegment(spec_rhotic(spec_front(spec_mid_builder(spec_vowel_base('ɚ'))))),
        ),
    ]
}

/// The full General American symbol-to-phoneme table.
pub open spec fn genam_table() -> Seq<(Seq<char>, Phoneme)> {
    genam_consonant_entries() + genam_vowel_entries()
}

fn consonant_base(sym: char) -> (s: Segment)
    ensures
        s == spec_consonant_base(sym),
{
    Segment {
        root_features: RootFeatures {
            consonantal: BinaryFeature::Marked,
            sonorant: BinaryFeature::Unmarked,
            syllabic: BinaryFeature::Unmarked,
        },
        autosegmental_features: AutosegmentalFeatures {
            nasal: None,
            lateral: None,
            rhotic: None,
            strident: None,
            continuant: None,
            place: None,
            laryngeal: None,
        },
        symbol: sym,
    }
}

fn vowel_base(sym: char) -> (s: Segment)
    ensures
        s == spec_vowel_base(sym),
{
    Segment {
        root_features: RootFeatures {
            consonantal: BinaryFeature::Unmarked,
            sonorant: BinaryFeature::Marked,
            syllabic: BinaryFeature::Marked,
        },
        autosegmental_features: AutosegmentalFeatures {
            nasal: None,
            lateral: None,
            rhotic: None,
            strident: None,
            continuant: None,
            place: None,
            laryngeal: None,
        },
        symbol: sym,
    }
}

/// The spec-level view of exec table entries.
pub open spec fn entries_view(v: Seq<(String, Phoneme)>) -> Seq<(Seq<char>, Phoneme)> {
    v.map_values(|e: (String, Phoneme)| (e.0@, e.1))
}

fn push_consonant_entries(entries: &mut Vec<(String, Phoneme)>)
    ensures
        entries_view(final(entries)@) == entries_view(old(entries)@) + genam_consonant_entries(),
{
    {
        let mut s = consonant_base('m');
        vd(&mut s);
        bilabial(&mut s);
        nasal(&mut s);
        entries.push(("m".to_owned(), Phoneme::Monosegment(s)));
    }
    {
        let mut s = consonant_base('n');
        vd(&mut s);
        alveolar(&mut s);
        nasal(&mut s);
        entries.push(("n".to_owned(), Phoneme::Monosegment(s)));
    }
    {
        let mut s = consonant_base('ŋ');
        vd(&mut s);
        velar(&mut s);
        nasal(&mut s);
        entries.push(("ŋ".to_owned(), Phoneme::Monosegment(s)));
    }
    {
        let mut s = consonant_base('p');
        vl(&mut s);
        bilabial(&mut s);
        stop(&mut s);
        entries.push(("p".to_owned(), Phoneme::Monosegment(s)));
    }
    {
        let mut s = consonant_base('b');
        vd(&mut s);
        bilabial(&mut s);
        stop(&mut s);
        entries.push(("b".to_owned(), Phoneme::Monosegment(s)));
    }
    {
        let mut s = consonant_base('t');
        vl(&mut s);
        alveolar(&mut s);
        stop(&mut s);
        entries.push(("t".to_owned(), Phoneme::Monosegment(s)));
    }
    {
        let mut s = consonant_base('d');
        vd(&mut s);
        alveolar(&mut s);
        stop(&mut s);
        entries.push(("d".to_owned(), Phoneme::Monosegment(s)));
    }
    {
        let mut s = consonant_base('k');
        vl(&mut s);
        velar(&mut s);
        stop(&mut s);
        entries.push(("k".to_owned(), Phoneme::Monosegment(s)));
    }
    {
        let mut s = consonant_base('ɡ');
        vd(&mut s);
        velar(&mut s);
        stop(&mut s);
        entries.push(("ɡ".to_owned(), Phoneme::Monosegment(s)));
    }
    {
        let mut s1 = consonant_base('t');
        vl(&mut s1);
        alveolar(&mut s1);
        stop(&mut s1);
        let mut s2 = consonant_base('ʃ');
        vl(&mut s2);
        postalveolar(&mut s2);
        distrib(&mut s2);
        sibilant(&mut s2);
        fricative(&mut s2);
        entries.push(("t͡ʃ".to_owned(), Phoneme::Disegment(s1, s2)));
    }
    {
        let mut s1 = consonant_base('d');
        vd(&mut s1);
        alveolar(&mut s1);
        stop(&mut s1);
        let mut s2 = consonant_base('ʒ');
        vd(&mut s2);
        postalveolar(&mut s2);
        distrib(&mut s2);
        sibilant(&mut s2);
        fricative(&mut s2);
        entries.push(("d͡ʒ".to_owned(), Phoneme::Disegment(s1, s2)));
    }
    {
        let mut s = consonant_base('f');
        vl(&mut s);
        labiodental(&mut s);
        sibilant(&mut s);
        fricative(&mut s);
        entries.push(("f".to_owned(), Phoneme::Monosegment(s)));
    }
    {
        let mut s = consonant_base('v');
        vd(&mut s);
        labiodental(&mut s);
        sibilant(&mut s);
        fricative(&mut s);
        entries.push(("v".to_owned(), Phoneme::Monosegment(s)));
    }
    {
        let mut s = consonant_base('θ');
        vl(&mut s);
        dental(&mut s);
        distrib(&mut s);
        fricative(&mut s);
        entries.push(("θ".to_owned(), Phoneme::Monosegment(s)));
    }
    {
        let mut s = consonant_base('ð');
        vd(&mut s);
        dental(&mut s);
        distrib(&mut s);
        fricative(&mut s);
        entries.push(("ð".to_owned(), Phoneme::Monosegment(s)));
    }
    {
        let mut s = consonant_base('s');
        vl(&mut s);
        alveolar(&mut s);
        sibilant(&mut s);
        fricative(&mut s);
        entries.push(("s".to_owned(), Phoneme::Monosegment(s)));
    }
    {
        let mut s = consonant_base('z');
        vd(&mut s);
        alveolar(&mut s);
        sibilant(&mut s);
        fricative(&mut s);
        entries.push(("z".to_owned(), Phoneme::Monosegment(s)));
    }
    {
        let mut s = consonant_base('ʃ');
        vl(&mut s);
        postalveolar(&mut s);
        distrib(&mut s);
        sibilant(&mut s);
        fricative(&mut s);
        entries.push(("ʃ".to_owned(), Phoneme::Monosegment(s)));
    }
    {
        let mut s = consonant_base('ʒ');
        vd(&mut s);
        postalveolar(&mut s);
        distrib(&mut s);
        sibilant(&mut s);
        fricative(&mut s);
        entries.push(("ʒ".to_owned(), Phoneme::Monosegment(s)));
    }
    {
        let mut s = consonant_base('h');
        vl(&mut s);
        glottal(&mut s);
        fricative(&mut s);
        entries.push(("h".to_owned(), Phoneme::Monosegment(s)));
    }
    {
        let mut s = consonant_base('l');
        vd(&mut s);
        alveolar(&mut s);
        lateral(&mut s);
        distrib(&mut s);
        approximant(&mut s);
        entries.push(("l".to_owned(), Phoneme::Monosegment(s)));
    }
    {
        let mut s = consonant_base('ɹ');
        vd(&mut s);
        alveolar(&mut s);
        distrib(&mut s);
        crate::builders::consonants::rhotic(&mut s);
        approximant(&mut s);
        entries.push(("ɹ".to_owned(), Phoneme::Monosegment(s)));
    }
    {
        let mut s = consonant_base('j');
        vd(&mut s);
        palatal(&mut s);
        glide(&mut s);
        entries.push(("j".to_owned(), Phoneme::Monosegment(s)));
    }
    {
        let mut s = consonant_base('ʍ');
        vl(&mut s);
        bilabial(&mut s);
        velar(&mut s);
        glide(&mut s);
        entries.push(("ʍ".to_owned(), Phoneme::Monosegment(s)));
    }
    {
        let mut s = consonant_base('w');
        vd(&mut s);
        bilabial(&mut s);
        velar(&mut s);
        glide(&mut s);
        entries.push(("w".to_owned(), Phoneme::Monosegment(s)));
    }
    proof {
        assert(entries_view(entries@) =~= entries_view(old(entries)@) + genam_consonant_entries());
    }
}

fn push_vowel_entries(entries: &mut Vec<(String, Phoneme)>)
    ensures
        entries_view(final(entries)@) == entries_view(old(entries)@) + genam_vowel_entries(),
{
    {
        let mut s = vowel_base('i');
        high(&mut s);
        front(&mut s);
        tense(&mut s);
        entries.push(("i".to_owned(), Phoneme::Monosegment(s)));
    }
    {
        let mut s = vowel_base('ɪ');
        high(&mut s);
        front(&mut s);
        entries.push(("ɪ".to_owned(), Phoneme::Monosegment(s)));
    }
    {
        let mut s = vowel_base('ɛ');
        mid(&mut s);
        front(&mut s);
        tense(&mut s);
        entries.push(("ɛ".to_owned(), Phoneme::Monosegment(s)));
    }
    {
        let mut s = vowel_base('æ');
        mid(&mut s);
        front(&mut s);
        entries.push(("æ".to_owned(), Phoneme::Monosegment(s)));
    }
    {
        let mut s = vowel_base('ə');
        mid(&mut s);
        front(&mut s);
        entries.push(("ə".to_owned(), Phoneme::Monosegment(s)));
    }
    {
        let mut s = vowel_base('ʌ');
        mid(&mut s);
        back(&mut s);
        entries.push(("ʌ".to_owned(), Phoneme::Monosegment(s)));
    }
    {
        let mut s = vowel_base('ɑ');
        low(&mut s);
        back(&mut s);
        entries.push(("ɑ".to_owned(), Phoneme::Monosegment(s)));
    }
    {
        let mut s = vowel_base('u');
        high(&mut s);
        back(&mut s);
        rounded(&mut s);
        tense(&mut s);
        entries.push(("u".to_owned(), Phoneme::Monosegment(s)));
    }
    {
        let mut s = vowel_base('ʊ');
        high(&mut s);
        back(&mut s);
        rounded(&mut s);
        entries.push(("ʊ".to_owned(), Phoneme::Monosegment(s)));
    }
    {
        let mut s = vowel_base('ɔ');
        mid(&mut s);
        back(&mut s);
        rounded(&mut s);
        entries.push(("ɔ".to_owned(), Phoneme::Monosegment(s)));
    }
    {
        let mut s1 = vowel_base('e');
        mid(&mut s1);
        front(&mut s1);
        tense(&mut s1);
        let mut s2 = vowel_base('ɪ');
        high(&mut s2);
        front(&mut s2);
        entries.push(("e͡ɪ".to_owned(), Phoneme::Disegment(s1, s2)));
    }
    {
        let mut s1 = vowel_base('a');
        low(&mut s1);
        front(&mut s1);
        let mut s2 = vowel_base('ɪ');
        high(&mut s2);
        front(&mut s2);
        entries.push(("a͡ɪ".to_owned(), Phoneme::Disegment(s1, s2)));
    }
    {
        let mut s1 = vowel_base('a');
        low(&mut s1);
        front(&mut s1);
        let mut s2 = vowel_base('ʊ');
        high(&mut s2);
        back(&mut s2);
        rounded(&mut s2);
        entries.push(("a͡ʊ".to_owned(), Phoneme::Disegment(s1, s2)));
    }
    {
        let mut s1 = vowel_base('o');
        mid(&mut s1);
        back(&mut s1);
        tense(&mut s1);
        rounded(&mut s1);
        let mut s2 = vowel_base('ʊ');
        high(&mut s2);
        back(&mut s2);
        rounded(&mut s2);
        entries.push(("o͡ʊ".to_owned(), Phoneme::Disegment(s1, s2)));
    }
    {
        let mut s1 = vowel_base('ɔ');
        mid(&mut s1);
        back(&mut s1);
        rounded(&mut s1);
        let mut s2 = vowel_base('ɪ');
        high(&mut s2);
        front(&mut s2);
        entries.push(("ɔ͡ɪ".to_owned(), Phoneme::Disegment(s1, s2)));
    }
    {
        let mut s = vowel_base('ɝ');
        mid(&mut s);
        front(&mut s);
        tense(&mut s);
        crate::builders::vowels::rhotic(&mut s);
        entries.push(("ɜ˞".to_owned(), Phoneme::Monosegment(s)));
    }
    {
        let mut s = vowel_base('ɚ');
        mid(&mut s);
        front(&mut s);
        crate::builders::vowels::rhotic(&mut s);
        entries.push(("ə˞".to_owned(), Phoneme::Monosegment(s)));
    }
    proof {
        assert(entries_view(entries@) =~= entries_view(old(entries)@) + genam_vowel_entries());
    }
}

/// Builds the General American accent table.
pub fn accent() -> (a: Accent)
    ensures
        a@ == genam_table(),
{
    let mut entries: Vec<(String, Phoneme)> = Vec::new();
    push_consonant_entries(&mut entries);
    push_vowel_entries(&mut entries);
    let a = Accent::new(entries);
    proof {
        assert(a@ =~= genam_table());
    }
    a
}

/// phoneme provides a constructor for General American English
/// phonemes. Given the IPA symbol for a phoneme, return the
/// associated phoneme (if one exists).
pub fn phoneme(symbol: &str) -> (r: Option<Phoneme>)
    ensures
        r == spec_lookup(genam_table(), symbol@),
{
    let a = accent();
    let key = symbol.to_owned();
    a.lookup(&key)
}

/// The IPA symbols that comprise the GenAm accent, in table order.
pub fn symbols() -> (r: Vec<String>)
    ensures
        r@.map_values(|s: String| s@) == genam_table().map_values(
            |e: (Seq<char>, Phoneme)| e.0,
        ),
{
    let a = accent();
    a.symbols()
}

/// The phonemes that comprise the GenAm accent, in table order.
pub fn phonemes() -> (r: Vec<Phoneme>)
    ensures
        r@ == genam_table().map_values(|e: (Seq<char>, Phoneme)| e.1),
{
    let a = accent();
    a.phonemes()
}

} // verus!
