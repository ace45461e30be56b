//! Builders for constructing vowels.
//!
//! Each builder mutates one feature (or feature group) of a segment,
//! leaving everything else unchanged; the companion spec function
//! states the exact segment that results.

use vstd::prelude::*;

use crate::builders::consonants::place_or_empty;
use crate::builders::consonants::with_place;
use crate::features::BinaryFeature;
use crate::features::DorsalFeature;
use crate::features::LabialFeature;
use crate::features::PharyngealFeature;
use crate::features::Place;
use crate::features::Segment;
use crate::features::UnaryFeature;

verus! {

/// The dorsal group of a segment's place group, or an empty group
/// when either is absent.
pub open spec fn dorsal_or_empty(s: Segment) -> DorsalFeature {
    match place_or_empty(s).dorsal {
        Some(dorsal) => dorsal,
        None => DorsalFeature { high: None, low: None, back: None },
    }
}

/// The segment with the dorsal group of its place group replaced,
/// inserting the place group if absent.
pub open spec fn with_dorsal(s: Segment, dorsal: DorsalFeature) -> Segment {
    with_place(s, Place { dorsal: Some(dorsal), ..place_or_empty(s) })
}

fn read_dorsal(s: &Segment) -> (d: DorsalFeature)
    ensures
        d == dorsal_or_empty(*s),
{
    match s.autosegmental_features.place {
        Some(place) => match place.dorsal {
            Some(dorsal) => dorsal,
            None => DorsalFeature { high: None, low: None, back: None },
        },
        None => DorsalFeature { high: None, low: None, back: None },
    }
}

fn write_dorsal(s: &mut Segment, dorsal: DorsalFeature)
    ensures
        *final(s) == with_dorsal(*old(s), dorsal),
{
    let place = match s.autosegmental_features.place {
        Some(place) => place,
        None => Place { labial: None, coronal: None, dorsal: None, pharyngeal: None },
    };
    s.autosegmental_features.place = Some(Place { dorsal: Some(dorsal), ..place });
}

/// The result of marking a segment +back.
pub open spec fn spec_back(s: Segment) -> Segment {
    with_dorsal(s, DorsalFeature { back: Some(BinaryFeature::Marked), ..dorsal_or_empty(s) })
}

/// tongue is behind neutral position (forward-back)
///
/// Both back and central vowels are \[+back\].
pub fn back(s: &mut Segment)
    ensures
        *final(s) == spec_back(*old(s)),
{
    let dorsal = read_dorsal(s);
    write_dorsal(s, DorsalFeature { back: Some(BinaryFeature::Marked), ..dorsal });
}

/// The result of marking a segment -back.
pub open spec fn spec_front(s: Segment) -> Segment {
    with_dorsal(s, DorsalFeature { back: Some(BinaryFeature::Unmarked), ..dorsal_or_empty(s) })
}

/// tongue body is forward of neutral position (forward-back)
pub fn front(s: &mut Segment)
    ensures
        *final(s) == spec_front(*old(s)),
{
    let dorsal = read_dorsal(s);
    write_dorsal(s, DorsalFeature { back: Some(BinaryFeature::Unmarked), ..dorsal });
}

/// tongue body is near neutral position (forward-back)
///
/// For forward-back contrast, central sounds are \[+back\].
pub fn central(s: &mut Segment)
    ensures
        *final(s) == spec_back(*old(s)),
{
    let dorsal = read_dorsal(s);
    write_dorsal(s, DorsalFeature { back: Some(BinaryFeature::Marked), ..dorsal });
}

/// The result of marking a segment (+high, -low).
pub open spec fn spec_high_builder(s: Segment) -> Segment {
    with_dorsal(
        s,
        DorsalFeature {
            high: Some(BinaryFeature::Marked),
            low: Some(BinaryFeature::Unmarked),
            ..dorsal_or_empty(s)
        },
    )
}

/// tongue body is above neutral position (high-low)
pub fn high(s: &mut Segment)
    ensures
        *final(s) == spec_high_builder(*old(s)),
{
    let dorsal = read_dorsal(s);
    write_dorsal(
        s,
        DorsalFeature {
            high: Some(BinaryFeature::Marked),
            low: Some(BinaryFeature::Unmarked),
            ..dorsal
        },
    );
}

/// The result of marking a segment (-high, -low).
pub open spec fn spec_mid_builder(s: Segment) -> Segment {
    with_dorsal(
        s,
        DorsalFeature {
            high: Some(BinaryFeature::Unmarked),
            low: Some(BinaryFeature::Unmarked),
            ..dorsal_or_empty(s)
        },
    )
}

/// tongue body is neither high nor low
pub fn mid(s: &mut Segment)
    ensures
        *final(s) == spec_mid_builder(*old(s)),
{
    let dorsal = read_dorsal(s);
    write_dorsal(
        s,
        DorsalFeature {
            high: Some(BinaryFeature::Unmarked),
            low: Some(BinaryFeature::Unmarked),
            ..dorsal
        },
    );
}

/// The result of marking a segment (-high, +low).
pub open spec fn spec_low_builder(s: Segment) -> Segment {
    with_dorsal(
        s,
        DorsalFeature {
            high: Some(BinaryFeature::Unmarked),
            low: Some(BinaryFeature::Marked),
            ..dorsal_or_empty(s)
        },
    )
}

/// tongue body is below neutral position (high-low)
pub fn low(s: &mut Segment)
    ensures
        *final(s) == spec_low_builder(*old(s)),
{
    let dorsal = read_dorsal(s);
    write_dorsal(
        s,
        DorsalFeature {
            high: Some(BinaryFeature::Unmarked),
            low: Some(BinaryFeature::Marked),
            ..dorsal
        },
    );
}

/// The result of marking a segment round, inserting the place and
/// labial groups if absent.
pub open spec fn spec_rounded(s: Segment) -> Segment {
    with_place(
        s,
        Place {
            labial: Some(LabialFeature { round: Some(UnaryFeature::Marked) }),
            ..place_or_empty(s)
        },
    )
}

/// rounding or pursing of the lips
pub fn rounded(s: &mut Segment)
    ensures
        *final(s) == spec_rounded(*old(s)),
{
    let place = match s.autosegmental_features.place {
        Some(place) => place,
        None => Place { labial: None, coronal: None, dorsal: None, pharyngeal: None },
    };
    s.autosegmental_features.place = Some(
        Place { labial: Some(LabialFeature { round: Some(UnaryFeature::Marked) }), ..place },
    );
}

/// The result of clearing the round feature, inserting the place and
/// labial groups if absent.
pub open spec fn spec_unrounded(s: Segment) -> Segment {
    with_place(s, Place { labial: Some(LabialFeature { round: None }), ..place_or_empty(s) })
}

/// lip rounding is absent
///
/// This builder is not strictly necessary because roundness is a
/// unary feature: unrounded vowels can simply omit it.
pub fn unrounded(s: &mut Segment)
    ensures
        *final(s) == spec_unrounded(*old(s)),
{
    let place = match s.autosegmental_features.place {
        Some(place) => place,
        None => Place { labial: None, coronal: None, dorsal: None, pharyngeal: None },
    };
    s.autosegmental_features.place = Some(
        Place { labial: Some(LabialFeature { round: None }), ..place },
    );
}

/// The result of marking a segment +ATR, inserting the place and
/// pharyngeal groups if absent.
pub open spec fn spec_tense(s: Segment) -> Segment {
    with_place(
        s,
        Place {
            pharyngeal: Some(
                PharyngealFeature { advanced_tongue_root: Some(BinaryFeature::Marked) },
            ),
            ..place_or_empty(s)
        },
    )
}

/// tenseness of sound produced by tongue root raising (ATR) or other
/// means
pub fn tense(s: &mut Segment)
    ensures
        *final(s) == spec_tense(*old(s)),
{
    let place = match s.autosegmental_features.place {
        Some(place) => place,
        None => Place { labial: None, coronal: None, dorsal: None, pharyngeal: None },
    };
    s.autosegmental_features.place = Some(
        Place {
            pharyngeal: Some(
                PharyngealFeature { advanced_tongue_root: Some(BinaryFeature::Marked) },
            ),
            ..place
        },
    );
}

/// r-colored sounds produced by a raised or curled tongue tip
pub fn rhotic(s: &mut Segment)
    ensures
        *final(s) == crate::builders::consonants::spec_rhotic(*old(s)),
{
    s.autosegmental_features.rhotic = Some(UnaryFeature::Marked);
}

} // verus!
