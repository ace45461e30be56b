//! Builders for constructing consonants.
//!
//! Each builder mutates one feature (or feature group) of a segment,
//! leaving everything else unchanged; the companion spec function
//! states the exact segment that results.

use vstd::prelude::*;

use crate::features::AutosegmentalFeatures;
use crate::features::BinaryFeature;
use crate::features::CoronalFeature;
use crate::features::DorsalFeature;
use crate::features::LabialFeature;
use crate::features::LaryngealFeatures;
use crate::features::Place;
use crate::features::Segment;
use crate::features::UnaryFeature;

verus! {

/// An empty laryngeal feature group.
pub open spec fn empty_laryngeal() -> LaryngealFeatures {
    LaryngealFeatures { spread_glottis: None, constricted_glottis: None, voice: None }
}

/// An empty place feature group.
pub open spec fn empty_place() -> Place {
    Place { labial: None, coronal: None, dorsal: None, pharyngeal: None }
}

/// The laryngeal group of a segment, or an empty group when absent.
pub open spec fn laryngeal_or_empty(s: Segment) -> LaryngealFeatures {
    match s.autosegmental_features.laryngeal {
        Some(laryn) => laryn,
        None => empty_laryngeal(),
    }
}

/// The place group of a segment, or an empty group when absent.
pub open spec fn place_or_empty(s: Segment) -> Place {
    match s.autosegmental_features.place {
        Some(place) => place,
        None => empty_place(),
    }
}

/// The segment with its laryngeal group replaced.
pub open spec fn with_laryngeal(s: Segment, laryn: LaryngealFeatures) -> Segment {
    Segment {
        autosegmental_features: AutosegmentalFeatures {
            laryngeal: Some(laryn),
            ..s.autosegmental_features
        },
        ..s
    }
}

/// The segment with its place group replaced.
pub open spec fn with_place(s: Segment, place: Place) -> Segment {
    Segment {
        autosegmental_features: AutosegmentalFeatures {
            place: Some(place),
            ..s.autosegmental_features
        },
        ..s
    }
}

/// The result of marking a segment voiced: +voice under the laryngeal
/// group, inserting the group if absent.
pub open spec fn spec_vd(s: Segment) -> Segment {
    with_laryngeal(
        s,
        LaryngealFeatures { voice: Some(BinaryFeature::Marked), ..laryngeal_or_empty(s) },
    )
}

/// a voiced segment
pub fn vd(s: &mut Segment)
    ensures
        *final(s) == spec_vd(*old(s)),
{
    let laryn = match s.autosegmental_features.laryngeal {
        Some(laryn) => laryn,
        None => LaryngealFeatures { spread_glottis: None, constricted_glottis: None, voice: None },
    };
    s.autosegmental_features.laryngeal = Some(
        LaryngealFeatures { voice: Some(BinaryFeature::Marked), ..laryn },
    );
}

/// The result of marking a segment voiceless: -voice under the
/// laryngeal group, inserting the group if absent.
pub open spec fn spec_vl(s: Segment) -> Segment {
    with_laryngeal(
        s,
        LaryngealFeatures { voice: Some(BinaryFeature::Unmarked), ..laryngeal_or_empty(s) },
    )
}

/// a voiceless segment
pub fn vl(s: &mut Segment)
    ensures
        *final(s) == spec_vl(*old(s)),
{
    let laryn = match s.autosegmental_features.laryngeal {
        Some(laryn) => laryn,
        None => LaryngealFeatures { spread_glottis: None, constricted_glottis: None, voice: None },
    };
    s.autosegmental_features.laryngeal = Some(
        LaryngealFeatures { voice: Some(BinaryFeature::Unmarked), ..laryn },
    );
}

/// The result of making a segment a stop: (-sonorant, -continuant).
pub open spec fn spec_stop(s: Segment) -> Segment {
    Segment {
        root_features: crate::features::RootFeatures {
            sonorant: BinaryFeature::Unmarked,
            ..s.root_features
        },
        autosegmental_features: AutosegmentalFeatures {
            continuant: Some(BinaryFeature::Unmarked),
            ..s.autosegmental_features
        },
        ..s
    }
}

/// a consonant that is (-continuant, -sonorant)
pub fn stop(s: &mut Segment)
    ensures
        *final(s) == spec_stop(*old(s)),
{
    s.root_features.sonorant = BinaryFeature::Unmarked;
    s.autosegmental_features.continuant = Some(BinaryFeature::Unmarked);
}

/// The result of making a segment nasal: (+sonorant, -continuant,
/// nasal).
pub open spec fn spec_nasal(s: Segment) -> Segment {
    Segment {
        root_features: crate::features::RootFeatures {
            sonorant: BinaryFeature::Marked,
            ..s.root_features
        },
        autosegmental_features: AutosegmentalFeatures {
            continuant: Some(BinaryFeature::Unmarked),
            nasal: Some(UnaryFeature::Marked),
            ..s.autosegmental_features
        },
        ..s
    }
}

/// a consonant that is (+sonorant, -continuant, nasal)
pub fn nasal(s: &mut Segment)
    ensures
        *final(s) == spec_nasal(*old(s)),
{
    s.root_features.sonorant = BinaryFeature::Marked;
    s.autosegmental_features.continuant = Some(BinaryFeature::Unmarked);
    s.autosegmental_features.nasal = Some(UnaryFeature::Marked);
}

/// The result of making a segment a fricative: (-sonorant,
/// +continuant, -strident).
pub open spec fn spec_fricative(s: Segment) -> Segment {
    Segment {
        root_features: crate::features::RootFeatures {
            sonorant: BinaryFeature::Unmarked,
            ..s.root_features
        },
        autosegmental_features: AutosegmentalFeatures {
            continuant: Some(BinaryFeature::Marked),
            strident: Some(BinaryFeature::Unmarked),
            ..s.autosegmental_features
        },
        ..s
    }
}

/// a consonant that is (-sonorant, +continuant, -strident)
pub fn fricative(s: &mut Segment)
    ensures
        *final(s) == spec_fricative(*old(s)),
{
    s.root_features.sonorant = BinaryFeature::Unmarked;
    s.autosegmental_features.continuant = Some(BinaryFeature::Marked);
    s.autosegmental_features.strident = Some(BinaryFeature::Unmarked);
}

/// The result of making a segment a glide: (-consonantal, +sonorant,
/// +continuant).
pub open spec fn spec_glide(s: Segment) -> Segment {
    Segment {
        root_features: crate::features::RootFeatures {
            sonorant: BinaryFeature::Marked,
            consonantal: BinaryFeature::Unmarked,
            ..s.root_features
        },
        autosegmental_features: AutosegmentalFeatures {
            continuant: Some(BinaryFeature::Marked),
            ..s.autosegmental_features
        },
        ..s
    }
}

/// a semivowel (-consonantal, +sonorant, -syllabic, +continuant)
pub fn glide(s: &mut Segment)
    ensures
        *final(s) == spec_glide(*old(s)),
{
    s.root_features.sonorant = BinaryFeature::Marked;
    s.root_features.consonantal = BinaryFeature::Unmarked;
    s.autosegmental_features.continuant = Some(BinaryFeature::Marked);
}

/// The result of making a segment an approximant: (+sonorant,
/// +continuant).
pub open spec fn spec_approximant(s: Segment) -> Segment {
    Segment {
        root_features: crate::features::RootFeatures {
            sonorant: BinaryFeature::Marked,
            ..s.root_features
        },
        autosegmental_features: AutosegmentalFeatures {
            continuant: Some(BinaryFeature::Marked),
            ..s.autosegmental_features
        },
        ..s
    }
}

/// a consonant that is (+sonorant, +continuant)
pub fn approximant(s: &mut Segment)
    ensures
        *final(s) == spec_approximant(*old(s)),
{
    s.root_features.sonorant = BinaryFeature::Marked;
    s.autosegmental_features.continuant = Some(BinaryFeature::Marked);
}

/// The result of marking a segment +strident.
pub open spec fn spec_sibilant(s: Segment) -> Segment {
    Segment {
        autosegmental_features: AutosegmentalFeatures {
            strident: Some(BinaryFeature::Marked),
            ..s.autosegmental_features
        },
        ..s
    }
}

/// a segment marked +strident
pub fn sibilant(s: &mut Segment)
    ensures
        *final(s) == spec_sibilant(*old(s)),
{
    s.autosegmental_features.strident = Some(BinaryFeature::Marked);
}

/// The result of marking a segment +distrib under its coronal group,
/// inserting the place and coronal groups if absent and keeping an
/// existing anterior value.
pub open spec fn spec_distrib(s: Segment) -> Segment {
    let place = place_or_empty(s);
    let coronal = match place.coronal {
        Some(coronal) => coronal,
        None => CoronalFeature { anterior: None, distrib: None },
    };
    with_place(
        s,
        Place {
            coronal: Some(CoronalFeature { distrib: Some(BinaryFeature::Marked), ..coronal }),
            ..place
        },
    )
}

/// a segment marked +distrib
pub fn distrib(s: &mut Segment)
    ensures
        *final(s) == spec_distrib(*old(s)),
{
    let place = match s.autosegmental_features.place {
        Some(place) => place,
        None => Place { labial: None, coronal: None, dorsal: None, pharyngeal: None },
    };
    let coronal = match place.coronal {
        Some(coronal) => coronal,
        None => CoronalFeature { anterior: None, distrib: None },
    };
    s.autosegmental_features.place = Some(
        Place {
            coronal: Some(CoronalFeature { distrib: Some(BinaryFeature::Marked), ..coronal }),
            ..place
        },
    );
}

/// The result of marking a segment lateral.
pub open spec fn spec_lateral(s: Segment) -> Segment {
    Segment {
        autosegmental_features: AutosegmentalFeatures {
            lateral: Some(UnaryFeature::Marked),
            ..s.autosegmental_features
        },
        ..s
    }
}

/// a segment marked lateral
pub fn lateral(s: &mut Segment)
    ensures
        *final(s) == spec_lateral(*old(s)),
{
    s.autosegmental_features.lateral = Some(UnaryFeature::Marked);
}

/// The result of marking a segment rhotic.
pub open spec fn spec_rhotic(s: Segment) -> Segment {
    Segment {
        autosegmental_features: AutosegmentalFeatures {
            rhotic: Some(UnaryFeature::Marked),
            ..s.autosegmental_features
        },
        ..s
    }
}

/// a segment marked rhotic
pub fn rhotic(s: &mut Segment)
    ensures
        *final(s) == spec_rhotic(*old(s)),
{
    s.autosegmental_features.rhotic = Some(UnaryFeature::Marked);
}

/// The result of giving a segment a labial place group, inserting the
/// place group if absent and keeping an existing labial group.
pub open spec fn spec_bilabial(s: Segment) -> Segment {
    let place = place_or_empty(s);
    let labial = match place.labial {
        Some(labial) => labial,
        None => LabialFeature { round: None },
    };
    with_place(s, Place { labial: Some(labial), ..place })
}

/// a labially articulated segment
pub fn bilabial(s: &mut Segment)
    ensures
        *final(s) == spec_bilabial(*old(s)),
{
    let place = match s.autosegmental_features.place {
        Some(place) => place,
        None => Place { labial: None, coronal: None, dorsal: None, pharyngeal: None },
    };
    let labial = match place.labial {
        Some(labial) => labial,
        None => LabialFeature { round: None },
    };
    s.autosegmental_features.place = Some(Place { labial: Some(labial), ..place });
}

/// a labially articulated segment. From the perspective of
/// distinctive features, this is marked the same as [bilabial].
pub fn labiodental(s: &mut Segment)
    ensures
        *final(s) == spec_bilabial(*old(s)),
{
    bilabial(s);
}

/// The result of giving a segment a (+anterior, -distrib) coronal
/// group, inserting the place group if absent and replacing any
/// existing coronal group.
pub open spec fn spec_alveolar(s: Segment) -> Segment {
    with_place(
        s,
        Place {
            coronal: Some(
                CoronalFeature {
                    anterior: Some(BinaryFeature::Marked),
                    distrib: Some(BinaryFeature::Unmarked),
                },
            ),
            ..place_or_empty(s)
        },
    )
}

/// a coronally articulated segment marked (+anterior, -distrib)
pub fn alveolar(s: &mut Segment)
    ensures
        *final(s) == spec_alveolar(*old(s)),
{
    let place = match s.autosegmental_features.place {
        Some(place) => place,
        None => Place { labial: None, coronal: None, dorsal: None, pharyngeal: None },
    };
    s.autosegmental_features.place = Some(
        Place {
            coronal: Some(
                CoronalFeature {
                    anterior: Some(BinaryFeature::Marked),
                    distrib: Some(BinaryFeature::Unmarked),
                },
            ),
            ..place
        },
    );
}

/// a coronally articulated segment marked (+anterior). From the
/// perspective of distinctive features, this is marked the same as
/// [alveolar].
pub fn dental(s: &mut Segment)
    ensures
        *final(s) == spec_alveolar(*old(s)),
{
    alveolar(s);
}

/// The result of giving a segment a (-anterior, -distrib) coronal
/// group, inserting the place group if absent and replacing any
/// existing coronal group.
pub open spec fn spec_postalveolar(s: Segment) -> Segment {
    with_place(
        s,
        Place {
            coronal: Some(
                CoronalFeature {
                    anterior: Some(BinaryFeature::Unmarked),
                    distrib: Some(BinaryFeature::Unmarked),
                },
            ),
            ..place_or_empty(s)
        },
    )
}

/// a coronally articulated segment marked (-anterior, -distrib)
pub fn postalveolar(s: &mut Segment)
    ensures
        *final(s) == spec_postalveolar(*old(s)),
{
    let place = match s.autosegmental_features.place {
        Some(place) => place,
        None => Place { labial: None, coronal: None, dorsal: None, pharyngeal: None },
    };
    s.autosegmental_features.place = Some(
        Place {
            coronal: Some(
                CoronalFeature {
                    anterior: Some(BinaryFeature::Unmarked),
                    distrib: Some(BinaryFeature::Unmarked),
                },
            ),
            ..place
        },
    );
}

/// The result of giving a segment a dorsal place group, inserting the
/// place group if absent and keeping an existing dorsal group.
pub open spec fn spec_velar(s: Segment) -> Segment {
    let place = place_or_empty(s);
    let dorsal = match place.dorsal {
        Some(dorsal) => dorsal,
        None => DorsalFeature { high: None, low: None, back: None },
    };
    with_place(s, Place { dorsal: Some(dorsal), ..place })
}

/// a dorsally articulated segment
pub fn velar(s: &mut Segment)
    ensures
        *final(s) == spec_velar(*old(s)),
{
    let place = match s.autosegmental_features.place {
        Some(place) => place,
        None => Place { labial: None, coronal: None, dorsal: None, pharyngeal: None },
    };
    let dorsal = match place.dorsal {
        Some(dorsal) => dorsal,
        None => DorsalFeature { high: None, low: None, back: None },
    };
    s.autosegmental_features.place = Some(Place { dorsal: Some(dorsal), ..place });
}

/// a dorsally articulated segment. From the perspective of
/// distinctive features, this is marked the same as [velar].
pub fn palatal(s: &mut Segment)
    ensures
        *final(s) == spec_velar(*old(s)),
{
    velar(s);
}

/// The result of giving a segment a laryngeal feature group,
/// inserting an empty group only when one is absent.
pub open spec fn spec_glottal(s: Segment) -> Segment {
    with_laryngeal(s, laryngeal_or_empty(s))
}

/// a segment with laryngeal constriction
pub fn glottal(s: &mut Segment)
    ensures
        *final(s) == spec_glottal(*old(s)),
{
    let laryn = match s.autosegmental_features.laryngeal {
        Some(laryn) => laryn,
        None => LaryngealFeatures { spread_glottis: None, constricted_glottis: None, voice: None },
    };
    s.autosegmental_features.laryngeal = Some(laryn);
}

} // verus!
