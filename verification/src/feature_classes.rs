//! Natural classes of phonemes from features.
//!
//! These functions test the membership of a phoneme in various natural
//! classes without requiring the user to know the specific features
//! that define the class or the structure of features within the
//! phoneme. Every predicate on a disegment holds when it holds of
//! either constituent segment, with one exception: an affricate is a
//! property of the ordered pair (a stop followed by a fricative).

use vstd::prelude::*;

use crate::features::BinaryFeature;
use crate::features::Segment;
use crate::features::UnaryFeature;
use crate::features::spec_high;
use crate::features::spec_low;
use crate::features::spec_voice;
use crate::phoneme::Phoneme;

verus! {

/// A vowel segment is marked +syllabic.
pub open spec fn seg_vowel(seg: Segment) -> bool {
    seg.root_features.syllabic == BinaryFeature::Marked
}

/// A semivowel segment is (-consonantal, -syllabic).
pub open spec fn seg_semivowel(seg: Segment) -> bool {
    seg.root_features.syllabic == BinaryFeature::Unmarked
        && seg.root_features.consonantal == BinaryFeature::Unmarked
}

/// A voiced segment carries +voice under its laryngeal group.
pub open spec fn seg_voiced(seg: Segment) -> bool {
    spec_voice(seg) == Some(BinaryFeature::Marked)
}

/// A stop segment is (-sonorant, -continuant); the continuant feature
/// must be present and unmarked.
pub open spec fn seg_stop(seg: Segment) -> bool {
    seg.root_features.sonorant == BinaryFeature::Unmarked
        && seg.autosegmental_features.continuant == Some(BinaryFeature::Unmarked)
}

/// A fricative segment is (-sonorant, +continuant); the continuant
/// feature must be present and marked.
pub open spec fn seg_fricative(seg: Segment) -> bool {
    seg.root_features.sonorant == BinaryFeature::Unmarked
        && seg.autosegmental_features.continuant == Some(BinaryFeature::Marked)
}

/// An approximant segment is (+sonorant, -syllabic, +continuant).
pub open spec fn seg_approximant(seg: Segment) -> bool {
    seg.root_features.sonorant == BinaryFeature::Marked
        && seg.root_features.syllabic == BinaryFeature::Unmarked
        && seg.autosegmental_features.continuant == Some(BinaryFeature::Marked)
}

/// A nasal segment carries the nasal feature.
pub open spec fn seg_nasal(seg: Segment) -> bool {
    seg.autosegmental_features.nasal == Some(UnaryFeature::Marked)
}

/// A lateral segment carries the lateral feature.
pub open spec fn seg_lateral(seg: Segment) -> bool {
    seg.autosegmental_features.lateral == Some(UnaryFeature::Marked)
}

/// A high-vowel segment is (+syllabic, +high).
pub open spec fn seg_high_vowel(seg: Segment) -> bool {
    seg.root_features.syllabic == BinaryFeature::Marked
        && spec_high(seg) == Some(BinaryFeature::Marked)
}

/// A low-vowel segment is (+syllabic, +low).
pub open spec fn seg_low_vowel(seg: Segment) -> bool {
    seg.root_features.syllabic == BinaryFeature::Marked
        && spec_low(seg) == Some(BinaryFeature::Marked)
}

/// A mid-vowel segment is (+syllabic, -high, -low).
pub open spec fn seg_mid_vowel(seg: Segment) -> bool {
    seg.root_features.syllabic == BinaryFeature::Marked
        && spec_high(seg) == Some(BinaryFeature::Unmarked)
        && spec_low(seg) == Some(BinaryFeature::Unmarked)
}

/// A segment-level predicate holds of a phoneme when it holds of
/// either constituent segment.
pub open spec fn any_seg(p: Phoneme, f: spec_fn(Segment) -> bool) -> bool {
    match p {
        Phoneme::Monosegment(seg) => f(seg),
        Phoneme::Disegment(seg1, seg2) => f(seg1) || f(seg2),
    }
}

/// A phoneme that can stand in the nucleus of a syllable.
pub open spec fn spec_is_vowel(p: Phoneme) -> bool {
    any_seg(p, |seg: Segment| seg_vowel(seg))
}

/// A phoneme that cannot stand in the nucleus of a syllable.
pub open spec fn spec_is_consonant(p: Phoneme) -> bool {
    !spec_is_vowel(p)
}

/// A phoneme with a (-consonantal, -syllabic) segment.
pub open spec fn spec_is_semivowel(p: Phoneme) -> bool {
    any_seg(p, |seg: Segment| seg_semivowel(seg))
}

/// A phoneme with a +voice segment.
pub open spec fn spec_is_voiced(p: Phoneme) -> bool {
    any_seg(p, |seg: Segment| seg_voiced(seg))
}

/// A phoneme with a (-sonorant, -continuant) segment.
pub open spec fn spec_is_stop(p: Phoneme) -> bool {
    any_seg(p, |seg: Segment| seg_stop(seg))
}

/// A phoneme with a (-sonorant, +continuant) segment.
pub open spec fn spec_is_fricative(p: Phoneme) -> bool {
    any_seg(p, |seg: Segment| seg_fricative(seg))
}

/// A phoneme with a (+sonorant, -syllabic, +continuant) segment.
pub open spec fn spec_is_approximant(p: Phoneme) -> bool {
    any_seg(p, |seg: Segment| seg_approximant(seg))
}

/// A disegment whose first segment is a stop and whose second is a
/// fricative, in that order.
pub open spec fn spec_is_affricate(p: Phoneme) -> bool {
    match p {
        Phoneme::Monosegment(_) => false,
        Phoneme::Disegment(seg1, seg2) => seg_stop(seg1) && seg_fricative(seg2),
    }
}

/// A phoneme with a nasal segment.
pub open spec fn spec_is_nasal(p: Phoneme) -> bool {
    any_seg(p, |seg: Segment| seg_nasal(seg))
}

/// A phoneme with a lateral segment.
pub open spec fn spec_is_lateral(p: Phoneme) -> bool {
    any_seg(p, |seg: Segment| seg_lateral(seg))
}

/// A phoneme with a (+syllabic, +high) segment.
pub open spec fn spec_is_high_vowel(p: Phoneme) -> bool {
    any_seg(p, |seg: Segment| seg_high_vowel(seg))
}

/// A phoneme with a (+syllabic, +low) segment.
pub open spec fn spec_is_low_vowel(p: Phoneme) -> bool {
    any_seg(p, |seg: Segment| seg_low_vowel(seg))
}

/// A phoneme with a (+syllabic, -high, -low) segment.
pub open spec fn spec_is_mid_vowel(p: Phoneme) -> bool {
    any_seg(p, |seg: Segment| seg_mid_vowel(seg))
}

/// A vowel is any phoneme that goes in the nucleus of a syllable.
/// They are marked +syllabic.
pub fn is_vowel(p: Phoneme) -> (r: bool)
    ensures
        r == spec_is_vowel(p),
{
    match p {
        Phoneme::Monosegment(seg) => seg.root_features.syllabic == BinaryFeature::Marked,
        Phoneme::Disegment(seg1, seg2) => {
            seg1.root_features.syllabic == BinaryFeature::Marked
                || seg2.root_features.syllabic == BinaryFeature::Marked
        },
    }
}

/// A consonant is any phoneme that does not go in the nucleus of a
/// syllable. They are marked -syllabic. This definition of a
/// consonant is meant to contrast with the notion of a vowel, and
/// therefore covers semivowels even though they are -consonantal.
pub fn is_consonant(p: Phoneme) -> (r: bool)
    ensures
        r == spec_is_consonant(p),
{
    !is_vowel(p)
}

fn segment_is_semivowel(seg: Segment) -> (r: bool)
    ensures
        r == seg_semivowel(seg),
{
    seg.root_features.syllabic == BinaryFeature::Unmarked
        && seg.root_features.consonantal == BinaryFeature::Unmarked
}

/// A semivowel is a phoneme with (-consonantal, -syllabic) features.
pub fn is_semivowel(p: Phoneme) -> (r: bool)
    ensures
        r == spec_is_semivowel(p),
{
    match p {
        Phoneme::Monosegment(seg) => segment_is_semivowel(seg),
        Phoneme::Disegment(seg1, seg2) => segment_is_semivowel(seg1) || segment_is_semivowel(seg2),
    }
}

fn segment_is_voiced(seg: Segment) -> (r: bool)
    ensures
        r == seg_voiced(seg),
{
    match seg.autosegmental_features.laryngeal {
        Some(laryn) => laryn.voice == Some(BinaryFeature::Marked),
        None => false,
    }
}

/// A voiced phoneme is +voiced.
pub fn is_voiced(p: Phoneme) -> (r: bool)
    ensures
        r == spec_is_voiced(p),
{
    match p {
        Phoneme::Monosegment(seg) => segment_is_voiced(seg),
        Phoneme::Disegment(seg1, seg2) => segment_is_voiced(seg1) || segment_is_voiced(seg2),
    }
}

fn segment_is_stop(seg: Segment) -> (r: bool)
    ensures
        r == seg_stop(seg),
{
    seg.root_features.sonorant == BinaryFeature::Unmarked
        && seg.autosegmental_features.continuant == Some(BinaryFeature::Unmarked)
}

/// A stop is a phoneme with (-sonorant, -continuant) features.
pub fn is_stop(p: Phoneme) -> (r: bool)
    ensures
        r == spec_is_stop(p),
{
    match p {
        Phoneme::Monosegment(seg) => segment_is_stop(seg),
        Phoneme::Disegment(seg1, seg2) => segment_is_stop(seg1) || segment_is_stop(seg2),
    }
}

fn segment_is_fricative(seg: Segment) -> (r: bool)
    ensures
        r == seg_fricative(seg),
{
    seg.root_features.sonorant == BinaryFeature::Unmarked
        && seg.autosegmental_features.continuant == Some(BinaryFeature::Marked)
}

/// A fricative is a phoneme with (-sonorant, +continuant) features.
pub fn is_fricative(p: Phoneme) -> (r: bool)
    ensures
        r == spec_is_fricative(p),
{
    match p {
        Phoneme::Monosegment(seg) => segment_is_fricative(seg),
        Phoneme::Disegment(seg1, seg2) => segment_is_fricative(seg1) || segment_is_fricative(seg2),
    }
}

fn segment_is_approximant(seg: Segment) -> (r: bool)
    ensures
        r == seg_approximant(seg),
{
    seg.root_features.sonorant == BinaryFeature::Marked
        && seg.root_features.syllabic == BinaryFeature::Unmarked
        && seg.autosegmental_features.continuant == Some(BinaryFeature::Marked)
}

/// An approximant is a phoneme with (+sonorant, -syllabic,
/// +continuant) features.
pub fn is_approximant(p: Phoneme) -> (r: bool)
    ensures
        r == spec_is_approximant(p),
{
    match p {
        Phoneme::Monosegment(seg) => segment_is_approximant(seg),
        Phoneme::Disegment(seg1, seg2) => segment_is_approximant(seg1) || segment_is_approximant(seg2),
    }
}

/// An affricate is a disegment in which the first segment is a stop
/// and the second is a fricative.
pub fn is_affricate(p: Phoneme) -> (r: bool)
    ensures
        r == spec_is_affricate(p),
{
    match p {
        Phoneme::Monosegment(_) => false,
        Phoneme::Disegment(seg1, seg2) => segment_is_stop(seg1) && segment_is_fricative(seg2),
    }
}

fn segment_is_nasal(seg: Segment) -> (r: bool)
    ensures
        r == seg_nasal(seg),
{
    seg.autosegmental_features.nasal == Some(UnaryFeature::Marked)
}

/// A nasal is a phoneme with the nasal feature.
pub fn is_nasal(p: Phoneme) -> (r: bool)
    ensures
        r == spec_is_nasal(p),
{
    match p {
        Phoneme::Monosegment(seg) => segment_is_nasal(seg),
        Phoneme::Disegment(seg1, seg2) => segment_is_nasal(seg1) || segment_is_nasal(seg2),
    }
}

fn segment_is_lateral(seg: Segment) -> (r: bool)
    ensures
        r == seg_lateral(seg),
{
    seg.autosegmental_features.lateral == Some(UnaryFeature::Marked)
}

/// A lateral is a phoneme with the lateral feature.
pub fn is_lateral(p: Phoneme) -> (r: bool)
    ensures
        r == spec_is_lateral(p),
{
    match p {
        Phoneme::Monosegment(seg) => segment_is_lateral(seg),
        Phoneme::Disegment(seg1, seg2) => segment_is_lateral(seg1) || segment_is_lateral(seg2),
    }
}

fn segment_is_high_vowel(seg: Segment) -> (r: bool)
    ensures
        r == seg_high_vowel(seg),
{
    seg.root_features.syllabic == BinaryFeature::Marked && crate::features::get_high(seg)
        == Some(BinaryFeature::Marked)
}

/// A high vowel is a phoneme with (+syllabic, +high) features.
pub fn is_high_vowel(p: Phoneme) -> (r: bool)
    ensures
        r == spec_is_high_vowel(p),
{
    match p {
        Phoneme::Monosegment(seg) => segment_is_high_vowel(seg),
        Phoneme::Disegment(seg1, seg2) => segment_is_high_vowel(seg1) || segment_is_high_vowel(seg2),
    }
}

fn segment_is_low_vowel(seg: Segment) -> (r: bool)
    ensures
        r == seg_low_vowel(seg),
{
    seg.root_features.syllabic == BinaryFeature::Marked && crate::features::get_low(seg)
        == Some(BinaryFeature::Marked)
}

/// A low vowel is a phoneme with (+syllabic, +low) features.
pub fn is_low_vowel(p: Phoneme) -> (r: bool)
    ensures
        r == spec_is_low_vowel(p),
{
    match p {
        Phoneme::Monosegment(seg) => segment_is_low_vowel(seg),
        Phoneme::Disegment(seg1, seg2) => segment_is_low_vowel(seg1) || segment_is_low_vowel(seg2),
    }
}

fn segment_is_mid_vowel(seg: Segment) -> (r: bool)
    ensures
        r == seg_mid_vowel(seg),
{
    seg.root_features.syllabic == BinaryFeature::Marked && crate::features::get_high(seg)
        == Some(BinaryFeature::Unmarked) && crate::features::get_low(seg)
        == Some(BinaryFeature::Unmarked)
}

/// A mid vowel is a phoneme with (+syllabic, -high, -low) features.
pub fn is_mid_vowel(p: Phoneme) -> (r: bool)
    ensures
        r == spec_is_mid_vowel(p),
{
    match p {
        Phoneme::Monosegment(seg) => segment_is_mid_vowel(seg),
        Phoneme::Disegment(seg1, seg2) => segment_is_mid_vowel(seg1) || segment_is_mid_vowel(seg2),
    }
}

/// For every phoneme, exactly one of `is_vowel` and `is_consonant`
/// holds, and an affricate is necessarily a disegment.
pub proof fn lemma_classifier_consistency(p: Phoneme)
    ensures
        spec_is_vowel(p) != spec_is_consonant(p),
        spec_is_affricate(p) ==> p is Disegment,
{
}

} // verus!
