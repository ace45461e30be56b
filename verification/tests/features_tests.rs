//! Tests for the structure-blind feature accessors.

use sound::features::AutosegmentalFeatures;
use sound::features::BinaryFeature;
use sound::features::CoronalFeature;
use sound::features::DorsalFeature;
use sound::features::LabialFeature;
use sound::features::LaryngealFeatures;
use sound::features::PharyngealFeature;
use sound::features::Place;
use sound::features::RootFeatures;
use sound::features::Segment;
use sound::features::UnaryFeature;
use sound::features::get_advanced_tongue_root;
use sound::features::get_anterior;
use sound::features::get_back;
use sound::features::get_consonantal;
use sound::features::get_constricted_glottis;
use sound::features::get_continuant;
use sound::features::get_coronal;
use sound::features::get_distrib;
use sound::features::get_dorsal;
use sound::features::get_high;
use sound::features::get_labial;
use sound::features::get_laryngeal;
use sound::features::get_lateral;
use sound::features::get_low;
use sound::features::get_nasal;
use sound::features::get_pharyngeal;
use sound::features::get_rhotic;
use sound::features::get_round;
use sound::features::get_sonorant;
use sound::features::get_spread_glottis;
use sound::features::get_strident;
use sound::features::get_syllabic;
use sound::features::get_voice;

fn test_segment() -> Segment {
    Segment {
        root_features: RootFeatures {
            consonantal: BinaryFeature::Marked,
            sonorant: BinaryFeature::Marked,
            syllabic: BinaryFeature::Marked,
        },
        autosegmental_features: AutosegmentalFeatures {
            nasal: Some(UnaryFeature::Marked),
            lateral: Some(UnaryFeature::Marked),
            rhotic: Some(UnaryFeature::Marked),
            continuant: Some(BinaryFeature::Marked),
            strident: Some(BinaryFeature::Marked),
            laryngeal: Some(LaryngealFeatures {
                spread_glottis: Some(UnaryFeature::Marked),
                constricted_glottis: Some(UnaryFeature::Marked),
                voice: Some(BinaryFeature::Marked),
            }),
            place: Some(Place {
                labial: Some(LabialFeature { round: Some(UnaryFeature::Marked) }),
                coronal: Some(CoronalFeature {
                    anterior: Some(BinaryFeature::Marked),
                    distrib: Some(BinaryFeature::Marked),
                }),
                dorsal: Some(DorsalFeature {
                    high: Some(BinaryFeature::Marked),
                    low: Some(BinaryFeature::Marked),
                    back: Some(BinaryFeature::Marked),
                }),
                pharyngeal: Some(PharyngealFeature {
                    advanced_tongue_root: Some(BinaryFeature::Marked),
                }),
            }),
        },
        symbol: '0',
    }
}

#[test]
fn test_accessor_consonantal() {
    let feature = get_consonantal(test_segment());
    assert_eq!(feature, BinaryFeature::Marked)
}

#[test]
fn test_accessor_sonorant() {
    let feature = get_sonorant(test_segment());
    assert_eq!(feature, BinaryFeature::Marked)
}

#[test]
fn test_accessor_syllabic() {
    let feature = get_syllabic(test_segment());
    assert_eq!(feature, BinaryFeature::Marked)
}

#[test]
fn test_accessor_continuant() {
    let feature = get_continuant(test_segment());
    assert_eq!(feature, Some(BinaryFeature::Marked))
}

#[test]
fn test_accessor_strident() {
    let feature = get_strident(test_segment());
    assert_eq!(feature, Some(BinaryFeature::Marked))
}

#[test]
fn test_accessor_lateral() {
    let feature = get_lateral(test_segment());
    assert_eq!(feature, Some(UnaryFeature::Marked))
}

#[test]
fn test_accessor_nasal() {
    let feature = get_nasal(test_segment());
    assert_eq!(feature, Some(UnaryFeature::Marked))
}

#[test]
fn test_accessor_laryngeal() {
    let feature = get_laryngeal(test_segment());
    assert_eq!(
        feature,
        Some(LaryngealFeatures {
            spread_glottis: Some(UnaryFeature::Marked),
            constricted_glottis: Some(UnaryFeature::Marked),
            voice: Some(BinaryFeature::Marked),
        })
    )
}

#[test]
fn test_accessor_spread_glottis() {
    let feature = get_spread_glottis(test_segment());
    assert_eq!(feature, Some(UnaryFeature::Marked))
}

#[test]
fn test_accessor_constricted_glottis() {
    let feature = get_constricted_glottis(test_segment());
    assert_eq!(feature, Some(UnaryFeature::Marked))
}

#[test]
fn test_accessor_voice() {
    let feature = get_voice(test_segment());
    assert_eq!(feature, Some(BinaryFeature::Marked))
}

#[test]
fn test_accessor_rhotic() {
    let feature = get_rhotic(test_segment());
    assert_eq!(feature, Some(UnaryFeature::Marked))
}

#[test]
fn test_accessor_labial() {
    let feature = get_labial(test_segment());
    assert_eq!(
        feature,
        Some(LabialFeature {
            round: Some(UnaryFeature::Marked),
        })
    )
}

#[test]
fn test_accessor_round() {
    let feature = get_round(test_segment());
    assert_eq!(feature, Some(UnaryFeature::Marked))
}

#[test]
fn test_accessor_coronal() {
    let feature = get_coronal(test_segment());
    assert_eq!(
        feature,
        Some(CoronalFeature {
            anterior: Some(BinaryFeature::Marked),
            distrib: Some(BinaryFeature::Marked),
        })
    )
}

#[test]
fn test_accessor_anterior() {
    let feature = get_anterior(test_segment());
    assert_eq!(feature, Some(BinaryFeature::Marked))
}

#[test]
fn test_accessor_distrib() {
    let feature = get_distrib(test_segment());
    assert_eq!(feature, Some(BinaryFeature::Marked))
}

#[test]
fn test_accessor_dorsal() {
    let feature = get_dorsal(test_segment());
    assert_eq!(
        feature,
        Some(DorsalFeature {
            high: Some(BinaryFeature::Marked),
            low: Some(BinaryFeature::Marked),
            back: Some(BinaryFeature::Marked),
        })
    )
}

#[test]
fn test_accessor_high() {
    let feature = get_high(test_segment());
    assert_eq!(feature, Some(BinaryFeature::Marked))
}

#[test]
fn test_accessor_low() {
    let feature = get_low(test_segment());
    assert_eq!(feature, Some(BinaryFeature::Marked))
}

#[test]
fn test_accessor_back() {
    let feature = get_back(test_segment());
    assert_eq!(feature, Some(BinaryFeature::Marked))
}

#[test]
fn test_accessor_pharyngeal() {
    let feature = get_pharyngeal(test_segment());
    assert_eq!(
        feature,
        Some(PharyngealFeature {
            advanced_tongue_root: Some(BinaryFeature::Marked)
        })
    )
}

#[test]
fn test_accessor_advanced_tongue_root() {
    let feature = get_advanced_tongue_root(test_segment());
    assert_eq!(feature, Some(BinaryFeature::Marked))
}
