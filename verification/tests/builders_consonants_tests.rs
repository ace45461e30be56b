//! Tests for the consonant builders.

use sound::builders::SegmentBuilder;
use sound::builders::SegmentModifier;
use sound::features::BinaryFeature;
use sound::features::CoronalFeature;
use sound::features::DorsalFeature;
use sound::features::LabialFeature;
use sound::features::LaryngealFeatures;
use sound::features::UnaryFeature;

#[test]
fn test_vd() {
    let seg = SegmentBuilder::consonant(&[SegmentModifier::Vd], 'a');
    assert_eq!(
        seg.autosegmental_features.laryngeal.unwrap().voice,
        Some(BinaryFeature::Marked)
    );
}

#[test]
fn test_vl() {
    let seg = SegmentBuilder::consonant(&[SegmentModifier::Vl], 'a');
    assert_eq!(
        seg.autosegmental_features.laryngeal.unwrap().voice,
        Some(BinaryFeature::Unmarked)
    );
}

#[test]
fn test_stop() {
    let seg = SegmentBuilder::consonant(&[SegmentModifier::Stop], 'a');
    assert_eq!(seg.root_features.sonorant, BinaryFeature::Unmarked);
    assert_eq!(
        seg.autosegmental_features.continuant,
        Some(BinaryFeature::Unmarked)
    );
}

#[test]
fn test_nasal() {
    let seg = SegmentBuilder::consonant(&[SegmentModifier::Nasal], 'a');
    assert_eq!(seg.root_features.sonorant, BinaryFeature::Marked);
    assert_eq!(
        seg.autosegmental_features.continuant,
        Some(BinaryFeature::Unmarked)
    );
    assert_eq!(
        seg.autosegmental_features.nasal,
        Some(UnaryFeature::Marked)
    );
}

#[test]
fn test_fricative() {
    let seg = SegmentBuilder::consonant(&[SegmentModifier::Fricative], 'a');
    assert_eq!(seg.root_features.sonorant, BinaryFeature::Unmarked);
    assert_eq!(
        seg.autosegmental_features.continuant,
        Some(BinaryFeature::Marked)
    );
    assert_eq!(
        seg.autosegmental_features.strident,
        Some(BinaryFeature::Unmarked)
    );
}

#[test]
fn test_glide() {
    let seg = SegmentBuilder::consonant(&[SegmentModifier::Glide], 'a');
    assert_eq!(seg.root_features.consonantal, BinaryFeature::Unmarked);
    assert_eq!(seg.root_features.sonorant, BinaryFeature::Marked);
    assert_eq!(seg.root_features.syllabic, BinaryFeature::Unmarked);
    assert_eq!(
        seg.autosegmental_features.continuant,
        Some(BinaryFeature::Marked)
    );
}

#[test]
fn test_approximant() {
    let seg = SegmentBuilder::consonant(&[SegmentModifier::Approximant], 'a');
    assert_eq!(seg.root_features.sonorant, BinaryFeature::Marked);
    assert_eq!(
        seg.autosegmental_features.continuant,
        Some(BinaryFeature::Marked)
    );
}

#[test]
fn test_sibilant() {
    let seg = SegmentBuilder::consonant(&[SegmentModifier::Sibilant], 'a');
    assert_eq!(
        seg.autosegmental_features.strident,
        Some(BinaryFeature::Marked)
    );
}

#[test]
fn test_distrib() {
    let seg = SegmentBuilder::consonant(&[SegmentModifier::Distrib], 'a');
    assert_eq!(
        seg.autosegmental_features
            .place
            .unwrap()
            .coronal
            .unwrap()
            .distrib,
        Some(BinaryFeature::Marked)
    );
}

#[test]
fn test_lateral() {
    let seg = SegmentBuilder::consonant(&[SegmentModifier::Lateral], 'a');
    assert_eq!(
        seg.autosegmental_features.lateral,
        Some(UnaryFeature::Marked)
    );
}

#[test]
fn consonants_test_rhotic() {
    let seg = SegmentBuilder::consonant(&[SegmentModifier::Rhotic], 'a');
    assert_eq!(
        seg.autosegmental_features.rhotic,
        Some(UnaryFeature::Marked)
    );
}

#[test]
fn test_bilabial() {
    let seg = SegmentBuilder::consonant(&[SegmentModifier::Bilabial], 'a');
    assert_eq!(
        seg.autosegmental_features.place.unwrap().labial,
        Some(LabialFeature { round: None })
    );
}

#[test]
fn test_labiodental() {
    let seg = SegmentBuilder::consonant(&[SegmentModifier::Labiodental], 'a');
    assert_eq!(
        seg.autosegmental_features.place.unwrap().labial,
        Some(LabialFeature { round: None })
    );
}

#[test]
fn test_alveolar() {
    let seg = SegmentBuilder::consonant(&[SegmentModifier::Alveolar], 'a');
    assert_eq!(
        seg.autosegmental_features.place.unwrap().coronal,
        Some(CoronalFeature {
            anterior: Some(BinaryFeature::Marked),
            distrib: Some(BinaryFeature::Unmarked),
        })
    );
}

#[test]
fn test_dental() {
    let seg = SegmentBuilder::consonant(&[SegmentModifier::Dental], 'a');
    assert_eq!(
        seg.autosegmental_features.place.unwrap().coronal,
        Some(CoronalFeature {
            anterior: Some(BinaryFeature::Marked),
            distrib: Some(BinaryFeature::Unmarked),
        })
    );
}

#[test]
fn test_postalveolar() {
    let seg = SegmentBuilder::consonant(&[SegmentModifier::Postalveolar], 'a');
    assert_eq!(
        seg.autosegmental_features.place.unwrap().coronal,
        Some(CoronalFeature {
            anterior: Some(BinaryFeature::Unmarked),
            distrib: Some(BinaryFeature::Unmarked),
        })
    );
}

#[test]
fn test_velar() {
    let seg = SegmentBuilder::consonant(&[SegmentModifier::Velar], 'a');
    assert_eq!(
        seg.autosegmental_features.place.unwrap().dorsal,
        Some(DorsalFeature {
            high: None,
            low: None,
            back: None,
        })
    );
}

#[test]
fn test_palatal() {
    let seg = SegmentBuilder::consonant(&[SegmentModifier::Palatal], 'a');
    assert_eq!(
        seg.autosegmental_features.place.unwrap().dorsal,
        Some(DorsalFeature {
            high: None,
            low: None,
            back: None,
        })
    );
}

#[test]
fn test_glottal() {
    let seg = SegmentBuilder::consonant(&[SegmentModifier::Glottal], 'a');
    assert_eq!(
        seg.autosegmental_features.laryngeal,
        Some(LaryngealFeatures {
            voice: None,
            spread_glottis: None,
            constricted_glottis: None,
        })
    );
}
