//! Tests for the vowel builders.

use sound::builders::SegmentBuilder;
use sound::builders::SegmentModifier;
use sound::features::BinaryFeature;
use sound::features::UnaryFeature;

#[test]
fn test_front() {
    let seg = SegmentBuilder::vowel(&[SegmentModifier::Front], 'a');
    assert_eq!(
        seg.autosegmental_features
            .place
            .unwrap()
            .dorsal
            .unwrap()
            .back,
        Some(BinaryFeature::Unmarked)
    );
}

#[test]
fn test_central() {
    let seg = SegmentBuilder::vowel(&[SegmentModifier::Central], 'a');
    assert_eq!(
        seg.autosegmental_features
            .place
            .unwrap()
            .dorsal
            .unwrap()
            .back,
        Some(BinaryFeature::Marked)
    );
}

#[test]
fn test_back() {
    let seg = SegmentBuilder::vowel(&[SegmentModifier::Back], 'a');
    assert_eq!(
        seg.autosegmental_features
            .place
            .unwrap()
            .dorsal
            .unwrap()
            .back,
        Some(BinaryFeature::Marked)
    );
}

#[test]
fn test_high() {
    let seg = SegmentBuilder::vowel(&[SegmentModifier::High], 'a');
    let d = seg.autosegmental_features.place.unwrap().dorsal.unwrap();
    assert_eq!(d.low, Some(BinaryFeature::Unmarked));
    assert_eq!(d.high, Some(BinaryFeature::Marked));
}

#[test]
fn test_mid() {
    let seg = SegmentBuilder::vowel(&[SegmentModifier::Mid], 'a');
    let d = seg.autosegmental_features.place.unwrap().dorsal.unwrap();
    assert_eq!(d.low, Some(BinaryFeature::Unmarked));
    assert_eq!(d.high, Some(BinaryFeature::Unmarked));
}

#[test]
fn test_low() {
    let seg = SegmentBuilder::vowel(&[SegmentModifier::Low], 'a');
    let d = seg.autosegmental_features.place.unwrap().dorsal.unwrap();
    assert_eq!(d.low, Some(BinaryFeature::Marked));
    assert_eq!(d.high, Some(BinaryFeature::Unmarked));
}

#[test]
fn test_rounded() {
    let seg = SegmentBuilder::vowel(&[SegmentModifier::Rounded], 'a');
    assert_eq!(
        seg.autosegmental_features
            .place
            .unwrap()
            .labial
            .unwrap()
            .round,
        Some(UnaryFeature::Marked)
    );
}

#[test]
fn test_unrounded() {
    let seg = SegmentBuilder::vowel(&[SegmentModifier::Unrounded], 'a');
    assert_eq!(
        seg.autosegmental_features
            .place
            .unwrap()
            .labial
            .unwrap()
            .round,
        None
    );
}

#[test]
fn test_tense() {
    let seg = SegmentBuilder::vowel(&[SegmentModifier::Tense], 'a');
    assert_eq!(
        seg.autosegmental_features
            .place
            .unwrap()
            .pharyngeal
            .unwrap()
            .advanced_tongue_root,
        Some(BinaryFeature::Marked)
    );
}

#[test]
fn vowels_test_rhotic() {
    let seg = SegmentBuilder::vowel(&[SegmentModifier::Rhotic], 'a');
    assert_eq!(
        seg.autosegmental_features.rhotic,
        Some(UnaryFeature::Marked)
    );
}
