//! Tests for the segment construction methods.

use sound::builders::SegmentBuilder;
use sound::builders::SegmentModifier;
use sound::features::AutosegmentalFeatures;
use sound::features::BinaryFeature;
use sound::features::RootFeatures;
use sound::features::Segment;

#[test]
// Builders can be combined freely and apply in order to a segment;
// where two touch the same field, the later one wins.
fn test_builder_fns() {
    let seg = SegmentBuilder::segment(&[SegmentModifier::Vd, SegmentModifier::Vl], 'a');
    assert_eq!(
        seg.autosegmental_features.laryngeal.unwrap().voice,
        Some(BinaryFeature::Unmarked)
    );
}

#[test]
// Segment is by default unmarked and empty
fn test_segment() {
    let seg = SegmentBuilder::segment(&[], 'p');
    assert_eq!(
        seg,
        Segment {
            root_features: RootFeatures {
                consonantal: BinaryFeature::Unmarked,
                sonorant: BinaryFeature::Unmarked,
                syllabic: BinaryFeature::Unmarked,
            },
            autosegmental_features: AutosegmentalFeatures {
                nasal: None,
                lateral: None,
                rhotic: None,
                strident: None,
                continuant: None,
                place: None,
                laryngeal: None,
            },
            symbol: 'p',
        }
    );
}

#[test]
// Consonant is by default (+consonantal, -sonorant, -syllabic) and empty
fn test_consonant() {
    let seg = SegmentBuilder::consonant(&[], 'p');
    assert_eq!(
        seg,
        Segment {
            root_features: RootFeatures {
                consonantal: BinaryFeature::Marked,
                sonorant: BinaryFeature::Unmarked,
                syllabic: BinaryFeature::Unmarked,
            },
            autosegmental_features: AutosegmentalFeatures {
                nasal: None,
                lateral: None,
                rhotic: None,
                strident: None,
                continuant: None,
                place: None,
                laryngeal: None,
            },
            symbol: 'p',
        }
    );
}

#[test]
// Vowel is by default (-consonantal, +sonorant, +syllabic) and empty
fn test_vowel() {
    let seg = SegmentBuilder::vowel(&[], 'p');
    assert_eq!(
        seg,
        Segment {
            root_features: RootFeatures {
                consonantal: BinaryFeature::Unmarked,
                sonorant: BinaryFeature::Marked,
                syllabic: BinaryFeature::Marked,
            },
            autosegmental_features: AutosegmentalFeatures {
                nasal: None,
                lateral: None,
                rhotic: None,
                strident: None,
                continuant: None,
                place: None,
                laryngeal: None,
            },
            symbol: 'p',
        }
    );
}

#[test]
// Segment::new builds from the unmarked base like SegmentBuilder::segment.
fn test_segment_new() {
    let seg = Segment::new(&[SegmentModifier::Nasal], 'n');
    assert_eq!(seg, SegmentBuilder::segment(&[SegmentModifier::Nasal], 'n'));
}
