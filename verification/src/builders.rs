//! Builders for constructing segments and words.
//!
//! A segment is built by applying an ordered list of modifiers to a
//! base segment; later modifiers override earlier ones on the same
//! field. Each modifier names one of the builder functions of the
//! [`consonants`] and [`vowels`] modules.

pub mod consonants;
pub mod segment;
pub mod vowels;
pub mod words;

use vstd::prelude::*;

use crate::features::AutosegmentalFeatures;
use crate::features::BinaryFeature;
use crate::features::RootFeatures;
use crate::features::Segment;

verus! {

/// One step in the construction of a segment, naming the builder
/// function of [`consonants`] or [`vowels`] that it applies.
#[derive(PartialEq, Eq, Structural, Debug, Clone, Copy)]
pub enum SegmentModifier {
    /// [`consonants::vd`]: voiced.
    Vd,
    /// [`consonants::vl`]: voiceless.
    Vl,
    /// [`consonants::stop`]: (-sonorant, -continuant).
    Stop,
    /// [`consonants::nasal`]: (+sonorant, -continuant, nasal).
    Nasal,
    /// [`consonants::fricative`]: (-sonorant, +continuant, -strident).
    Fricative,
    /// [`consonants::glide`]: (-consonantal, +sonorant, +continuant).
    Glide,
    /// [`consonants::approximant`]: (+sonorant, +continuant).
    Approximant,
    /// [`consonants::sibilant`]: +strident.
    Sibilant,
    /// [`consonants::distrib`]: +distrib.
    Distrib,
    /// [`consonants::lateral`]: lateral.
    Lateral,
    /// [`consonants::rhotic`] / [`vowels::rhotic`]: rhotic.
    Rhotic,
    /// [`consonants::bilabial`]: labial place.
    Bilabial,
    /// [`consonants::labiodental`]: labial place.
    Labiodental,
    /// [`consonants::alveolar`]: (+anterior, -distrib) coronal place.
    Alveolar,
    /// [`consonants::dental`]: (+anterior, -distrib) coronal place.
    Dental,
    /// [`consonants::postalveolar`]: (-anterior, -distrib) coronal
    /// place.
    Postalveolar,
    /// [`consonants::velar`]: dorsal place.
    Velar,
    /// [`consonants::palatal`]: dorsal place.
    Palatal,
    /// [`consonants::glottal`]: laryngeal group.
    Glottal,
    /// [`vowels::back`]: +back.
    Back,
    /// [`vowels::front`]: -back.
    Front,
    /// [`vowels::central`]: +back.
    Central,
    /// [`vowels::high`]: (+high, -low).
    High,
    /// [`vowels::mid`]: (-high, -low).
    Mid,
    /// [`vowels::low`]: (-high, +low).
    Low,
    /// [`vowels::rounded`]: round.
    Rounded,
    /// [`vowels::unrounded`]: round cleared.
    Unrounded,
    /// [`vowels::tense`]: +ATR.
    Tense,
}

/// The segment that results from applying one modifier.
pub open spec fn spec_apply(m: SegmentModifier, s: Segment) -> Segment {
    match m {
        SegmentModifier::Vd => consonants::spec_vd(s),
        SegmentModifier::Vl => consonants::spec_vl(s),
        SegmentModifier::Stop => consonants::spec_stop(s),
        SegmentModifier::Nasal => consonants::spec_nasal(s),
        SegmentModifier::Fricative => consonants::spec_fricative(s),
        SegmentModifier::Glide => consonants::spec_glide(s),
        SegmentModifier::Approximant => consonants::spec_approximant(s),
        SegmentModifier::Sibilant => consonants::spec_sibilant(s),
        SegmentModifier::Distrib => consonants::spec_distrib(s),
        SegmentModifier::Lateral => consonants::spec_lateral(s),
        SegmentModifier::Rhotic => consonants::spec_rhotic(s),
        SegmentModifier::Bilabial => consonants::spec_bilabial(s),
        SegmentModifier::Labiodental => consonants::spec_bilabial(s),
        SegmentModifier::Alveolar => consonants::spec_alveolar(s),
        SegmentModifier::Dental => consonants::spec_alveolar(s),
        SegmentModifier::Postalveolar => consonants::spec_postalveolar(s),
        SegmentModifier::Velar => consonants::spec_velar(s),
        SegmentModifier::Palatal => consonants::spec_velar(s),
        SegmentModifier::Glottal => consonants::spec_glottal(s),
        SegmentModifier::Back => vowels::spec_back(s),
        SegmentModifier::Front => vowels::spec_front(s),
        SegmentModifier::Central => vowels::spec_back(s),
        SegmentModifier::High => vowels::spec_high_builder(s),
        SegmentModifier::Mid => vowels::spec_mid_builder(s),
        SegmentModifier::Low => vowels::spec_low_builder(s),
        SegmentModifier::Rounded => vowels::spec_rounded(s),
        SegmentModifier::Unrounded => vowels::spec_unrounded(s),
        SegmentModifier::Tense => vowels::spec_tense(s),
    }
}

/// The segment that results from applying a list of modifiers in
/// order, left to right.
pub open spec fn spec_apply_all(ms: Seq<SegmentModifier>, s: Segment) -> Segment
    decreases ms.len(),
{
    if ms.len() == 0 {
        s
    } else {
        spec_apply_all(ms.skip(1), spec_apply(ms[0], s))
    }
}

/// A base segment with all root features unmarked, no autosegmental
/// features, and the given symbol.
pub open spec fn spec_base(sym: char) -> Segment {
    Segment {
        root_features: RootFeatures {
            consonantal: BinaryFeature::Unmarked,
            sonorant: BinaryFeature::Unmarked,
            syllabic: BinaryFeature::Unmarked,
        },
        autosegmental_features: AutosegmentalFeatures {
            nasal: None,
            lateral: None,
            rhotic: None,
            strident: None,
            continuant: None,
            place: None,
            laryngeal: None,
        },
        symbol: sym,
    }
}

/// Applies one modifier to a segment by dispatching to the builder
/// function it names.
pub fn apply_modifier(m: SegmentModifier, s: &mut Segment)
    ensures
        *final(s) == spec_apply(m, *old(s)),
{
    match m {
        SegmentModifier::Vd => consonants::vd(s),
        SegmentModifier::Vl => consonants::vl(s),
        SegmentModifier::Stop => consonants::stop(s),
        SegmentModifier::Nasal => consonants::nasal(s),
        SegmentModifier::Fricative => consonants::fricative(s),
        SegmentModifier::Glide => consonants::glide(s),
        SegmentModifier::Approximant => consonants::approximant(s),
        SegmentModifier::Sibilant => consonants::sibilant(s),
        SegmentModifier::Distrib => consonants::distrib(s),
        SegmentModifier::Lateral => consonants::lateral(s),
        SegmentModifier::Rhotic => consonants::rhotic(s),
        SegmentModifier::Bilabial => consonants::bilabial(s),
        SegmentModifier::Labiodental => consonants::labiodental(s),
        SegmentModifier::Alveolar => consonants::alveolar(s),
        SegmentModifier::Dental => consonants::dental(s),
        SegmentModifier::Postalveolar => consonants::postalveolar(s),
        SegmentModifier::Velar => consonants::velar(s),
        SegmentModifier::Palatal => consonants::palatal(s),
        SegmentModifier::Glottal => consonants::glottal(s),
        SegmentModifier::Back => vowels::back(s),
        SegmentModifier::Front => vowels::front(s),
        SegmentModifier::Central => vowels::central(s),
        SegmentModifier::High => vowels::high(s),
        SegmentModifier::Mid => vowels::mid(s),
        SegmentModifier::Low => vowels::low(s),
        SegmentModifier::Rounded => vowels::rounded(s),
        SegmentModifier::Unrounded => vowels::unrounded(s),
        SegmentModifier::Tense => vowels::tense(s),
    }
}

fn apply_all(builders: &[SegmentModifier], base: Segment) -> (r: Segment)
    ensures
        r == spec_apply_all(builders@, base),
{
    let mut out = base;
    let mut i: usize = 0;
    proof {
        assert(builders@.skip(0) =~= builders@);
    }
    while i < builders.len()
        invariant
            i <= builders@.len(),
            spec_apply_all(builders@.skip(i as int), out) == spec_apply_all(builders@, base),
        decreases builders@.len() - i,
    {
        let ghost pre = builders@.skip(i as int);
        apply_modifier(builders[i], &mut out);
        i = i + 1;
        proof {
            assert(pre.skip(1) =~= builders@.skip(i as int));
        }
    }
    out
}

/// Construct a segment using one of the methods implemented on
/// SegmentBuilder.
pub struct SegmentBuilder {}

impl SegmentBuilder {
    /// Construct a new segment from a collection of builder
    /// modifiers.
    ///
    /// Modifiers are applied in the order they are given (left to
    /// right); where two modify the same field, the later one wins.
    /// The base segment has an entirely unmarked set of root
    /// features. In most cases, [`SegmentBuilder::consonant`] or
    /// [`SegmentBuilder::vowel`] are more appropriate.
    pub fn segment(builders: &[SegmentModifier], sym: char) -> (r: Segment)
        ensures
            r == spec_apply_all(builders@, spec_base(sym)),
    {
        let base = Segment {
            root_features: RootFeatures {
                consonantal: BinaryFeature::Unmarked,
                sonorant: BinaryFeature::Unmarked,
                syllabic: BinaryFeature::Unmarked,
            },
            autosegmental_features: AutosegmentalFeatures {
                nasal: None,
                lateral: None,
                rhotic: None,
                strident: None,
                continuant: None,
                place: None,
                laryngeal: None,
            },
            symbol: sym,
        };
        apply_all(builders, base)
    }

    /// Construct a new consonant (+consonantal, -sonorant, -syllabic)
    /// from a collection of builder modifiers, applied left to right.
    pub fn consonant(builders: &[SegmentModifier], sym: char) -> (r: Segment)
        ensures
            r == spec_apply_all(
                builders@,
                Segment {
                    root_features: RootFeatures {
                        consonantal: BinaryFeature::Marked,
                        ..spec_base(sym).root_features
                    },
                    ..spec_base(sym)
                },
            ),
    {
        let base = Segment {
            root_features: RootFeatures {
                consonantal: BinaryFeature::Marked,
                sonorant: BinaryFeature::Unmarked,
                syllabic: BinaryFeature::Unmarked,
            },
            autosegmental_features: AutosegmentalFeatures {
                nasal: None,
                lateral: None,
                rhotic: None,
                strident: None,
                continuant: None,
                place: None,
                laryngeal: None,
            },
            symbol: sym,
        };
        apply_all(builders, base)
    }

    /// Construct a new vowel (-consonantal, +sonorant, +syllabic)
    /// from a collection of builder modifiers, applied left to right.
    pub fn vowel(builders: &[SegmentModifier], sym: char) -> (r: Segment)
        ensures
            r == spec_apply_all(
                builders@,
                Segment {
                    root_features: RootFeatures {
                        sonorant: BinaryFeature::Marked,
                        syllabic: BinaryFeature::Marked,
                        ..spec_base(sym).root_features
                    },
                    ..spec_base(sym)
                },
            ),
    {
        let base = Segment {
            root_features: RootFeatures {
                consonantal: BinaryFeature::Unmarked,
                sonorant: BinaryFeature::Marked,
                syllabic: BinaryFeature::Marked,
            },
            autosegmental_features: AutosegmentalFeatures {
                nasal: None,
                lateral: None,
                rhotic: None,
                strident: None,
                continuant: None,
                place: None,
                laryngeal: None,
            },
            symbol: sym,
        };
        apply_all(builders, base)
    }
}

} // verus!
