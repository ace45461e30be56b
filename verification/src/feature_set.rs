//! Representing sets of phonological features.
//!
//! A structured phoneme can be flattened into a set of discrete
//! feature tokens. Absent features contribute no token; a disegment
//! contributes the union of its two segments' tokens, plus a single
//! `DelRel` token when it is a true affricate, so that similarity
//! measurements can tell an affricate from an arbitrary
//! stop-fricative pair.

use vstd::prelude::*;

use crate::feature_classes::spec_is_affricate;
use crate::features::BinaryFeature;
use crate::features::Segment;
use crate::features::UnaryFeature;
use crate::features::spec_advanced_tongue_root;
use crate::features::spec_anterior;
use crate::features::spec_back;
use crate::features::spec_constricted_glottis;
use crate::features::spec_coronal;
use crate::features::spec_distrib;
use crate::features::spec_dorsal;
use crate::features::spec_high;
use crate::features::spec_labial;
use crate::features::spec_low;
use crate::features::spec_pharyngeal;
use crate::features::spec_round;
use crate::features::spec_spread_glottis;
use crate::features::spec_voice;
use crate::phoneme::Phoneme;

verus! {

#[allow(missing_docs)]
/// Phonological features for representation in a set.
#[derive(PartialEq, Eq, Structural, PartialOrd, Ord, Hash, Debug, Copy, Clone)]
pub enum Feature {
    PlusSyllabic,
    MinusSyllabic,
    PlusConsonantal,
    MinusConsonantal,
    PlusSonorant,
    MinusSonorant,
    PlusContinuant,
    MinusContinuant,
    PlusStrident,
    MinusStrident,
    Nasal,
    Lateral,
    Rhotic,
    Laryngeal,
    PlusVoice,
    MinusVoice,
    SpreadGlottis,
    ConstrictedGlottis,
    Labial,
    Round,
    Coronal,
    PlusAnterior,
    MinusAnterior,
    PlusDistrib,
    MinusDistrib,
    Dorsal,
    PlusHigh,
    MinusHigh,
    PlusLow,
    MinusLow,
    PlusBack,
    MinusBack,
    Pharyngeal,
    PlusAdvancedTongueRoot,
    MinusAdvancedTongueRoot,
    DelRel,
}

/// Whether the flattening of a single segment contains a given
/// feature token. `DelRel` never belongs to a single segment.
pub open spec fn seg_has_feature(seg: Segment, f: Feature) -> bool {
    match f {
        Feature::PlusSyllabic => seg.root_features.syllabic == BinaryFeature::Marked,
        Feature::MinusSyllabic => seg.root_features.syllabic == BinaryFeature::Unmarked,
        Feature::PlusConsonantal => seg.root_features.consonantal == BinaryFeature::Marked,
        Feature::MinusConsonantal => seg.root_features.consonantal == BinaryFeature::Unmarked,
        Feature::PlusSonorant => seg.root_features.sonorant == BinaryFeature::Marked,
        Feature::MinusSonorant => seg.root_features.sonorant == BinaryFeature::Unmarked,
        Feature::PlusContinuant => seg.autosegmental_features.continuant == Some(
            BinaryFeature::Marked,
        ),
        Feature::MinusContinuant => seg.autosegmental_features.continuant == Some(
            BinaryFeature::Unmarked,
        ),
        Feature::PlusStrident => seg.autosegmental_features.strident == Some(
            BinaryFeature::Marked,
        ),
        Feature::MinusStrident => seg.autosegmental_features.strident == Some(
            BinaryFeature::Unmarked,
        ),
        Feature::Nasal => seg.autosegmental_features.nasal == Some(UnaryFeature::Marked),
        Feature::Lateral => seg.autosegmental_features.lateral == Some(UnaryFeature::Marked),
        Feature::Rhotic => seg.autosegmental_features.rhotic == Some(UnaryFeature::Marked),
        Feature::Laryngeal => seg.autosegmental_features.laryngeal is Some,
        Feature::PlusVoice => spec_voice(seg) == Some(BinaryFeature::Marked),
        Feature::MinusVoice => spec_voice(seg) == Some(BinaryFeature::Unmarked),
        Feature::SpreadGlottis => spec_spread_glottis(seg) == Some(UnaryFeature::Marked),
        Feature::ConstrictedGlottis => spec_constricted_glottis(seg) == Some(UnaryFeature::Marked),
        Feature::Labial => spec_labial(seg) is Some,
        Feature::Round => spec_round(seg) == Some(UnaryFeature::Marked),
        Feature::Coronal => spec_coronal(seg) is Some,
        Feature::PlusAnterior => spec_anterior(seg) == Some(BinaryFeature::Marked),
        Feature::MinusAnterior => spec_anterior(seg) == Some(BinaryFeature::Unmarked),
        Feature::PlusDistrib => spec_distrib(seg) == Some(BinaryFeature::Marked),
        Feature::MinusDistrib => spec_distrib(seg) == Some(BinaryFeature::Unmarked),
        Feature::Dorsal => spec_dorsal(seg) is Some,
        Feature::PlusHigh => spec_high(seg) == Some(BinaryFeature::Marked),
        Feature::MinusHigh => spec_high(seg) == Some(BinaryFeature::Unmarked),
        Feature::PlusLow => spec_low(seg) == Some(BinaryFeature::Marked),
        Feature::MinusLow => spec_low(seg) == Some(BinaryFeature::Unmarked),
        Feature::PlusBack => spec_back(seg) == Some(BinaryFeature::Marked),
        Feature::MinusBack => spec_back(seg) == Some(BinaryFeature::Unmarked),
        Feature::Pharyngeal => spec_pharyngeal(seg) is Some,
        Feature::PlusAdvancedTongueRoot => spec_advanced_tongue_root(seg) == Some(
            BinaryFeature::Marked,
        ),
        Feature::MinusAdvancedTongueRoot => spec_advanced_tongue_root(seg) == Some(
            BinaryFeature::Unmarked,
        ),
        Feature::DelRel => false,
    }
}

/// Whether the flattening of a phoneme contains a given feature
/// token: the union of its segments' tokens, plus `DelRel` exactly
/// when the phoneme is an affricate.
pub open spec fn spec_phoneme_has_feature(p: Phoneme, f: Feature) -> bool {
    match p {
        Phoneme::Monosegment(seg) => seg_has_feature(seg, f),
        Phoneme::Disegment(seg1, seg2) => seg_has_feature(seg1, f) || seg_has_feature(seg2, f) || (
        f == Feature::DelRel && spec_is_affricate(p)),
    }
}

/// The feature-token set of a phoneme.
pub open spec fn spec_feature_set(p: Phoneme) -> Set<Feature> {
    Set::new(|f: Feature| spec_phoneme_has_feature(p, f))
}

/// Every feature token, in a fixed order.
pub open spec fn spec_all_features() -> Seq<Feature> {
    seq![
        Feature::PlusSyllabic,
        Feature::MinusSyllabic,
        Feature::PlusConsonantal,
        Feature::MinusConsonantal,
        Feature::PlusSonorant,
        Feature::MinusSonorant,
        Feature::PlusContinuant,
        Feature::MinusContinuant,
        Feature::PlusStrident,
        Feature::MinusStrident,
        Feature::Nasal,
        Feature::Lateral,
        Feature::Rhotic,
        Feature::Laryngeal,
        Feature::PlusVoice,
        Feature::MinusVoice,
        Feature::SpreadGlottis,
        Feature::ConstrictedGlottis,
        Feature::Labial,
        Feature::Round,
        Feature::Coronal,
        Feature::PlusAnterior,
        Feature::MinusAnterior,
        Feature::PlusDistrib,
        Feature::MinusDistrib,
        Feature::Dorsal,
        Feature::PlusHigh,
        Feature::MinusHigh,
        Feature::PlusLow,
        Feature::MinusLow,
        Feature::PlusBack,
        Feature::MinusBack,
        Feature::Pharyngeal,
        Feature::PlusAdvancedTongueRoot,
        Feature::MinusAdvancedTongueRoot,
        Feature::DelRel,
    ]
}

/// The position of a feature token in [`spec_all_features`].
pub closed spec fn feature_order(f: Feature) -> int {
    match f {
        Feature::PlusSyllabic => 0,
        Feature::MinusSyllabic => 1,
        Feature::PlusConsonantal => 2,
        Feature::MinusConsonantal => 3,
        Feature::PlusSonorant => 4,
        Feature::MinusSonorant => 5,
        Feature::PlusContinuant => 6,
        Feature::MinusContinuant => 7,
        Feature::PlusStrident => 8,
        Feature::MinusStrident => 9,
        Feature::Nasal => 10,
        Feature::Lateral => 11,
        Feature::Rhotic => 12,
        Feature::Laryngeal => 13,
        Feature::PlusVoice => 14,
        Feature::MinusVoice => 15,
        Feature::SpreadGlottis => 16,
        Feature::ConstrictedGlottis => 17,
        Feature::Labial => 18,
        Feature::Round => 19,
        Feature::Coronal => 20,
        Feature::PlusAnterior => 21,
        Feature::MinusAnterior => 22,
        Feature::PlusDistrib => 23,
        Feature::MinusDistrib => 24,
        Feature::Dorsal => 25,
        Feature::PlusHigh => 26,
        Feature::MinusHigh => 27,
        Feature::PlusLow => 28,
        Feature::MinusLow => 29,
        Feature::PlusBack => 30,
        Feature::MinusBack => 31,
        Feature::Pharyngeal => 32,
        Feature::PlusAdvancedTongueRoot => 33,
        Feature::MinusAdvancedTongueRoot => 34,
        Feature::DelRel => 35,
    }
}

/// Every feature token stands in [`spec_all_features`] at its
/// [`feature_order`] position.
pub proof fn lemma_all_features_complete(f: Feature)
    ensures
        0 <= feature_order(f) < spec_all_features().len(),
        spec_all_features()[feature_order(f)] == f,
        spec_all_features().contains(f),
{
    assert(spec_all_features()[feature_order(f)] == f);
}

/// The fixed ordering of feature tokens lists no token twice.
pub proof fn lemma_all_features_no_duplicates()
    ensures
        spec_all_features().no_duplicates(),
{
    assert forall|i: int, j: int|
        0 <= i < spec_all_features().len() && 0 <= j < spec_all_features().len() && i
            != j implies spec_all_features()[i] != spec_all_features()[j] by {
        assert(feature_order(spec_all_features()[i]) == i);
        assert(feature_order(spec_all_features()[j]) == j);
    }
}

fn segment_has(seg: Segment, f: Feature) -> (r: bool)
    ensures
        r == seg_has_feature(seg, f),
{
    match f {
        Feature::PlusSyllabic => seg.root_features.syllabic == BinaryFeature::Marked,
        Feature::MinusSyllabic => seg.root_features.syllabic == BinaryFeature::Unmarked,
        Feature::PlusConsonantal => seg.root_features.consonantal == BinaryFeature::Marked,
        Feature::MinusConsonantal => seg.root_features.consonantal == BinaryFeature::Unmarked,
        Feature::PlusSonorant => seg.root_features.sonorant == BinaryFeature::Marked,
        Feature::MinusSonorant => seg.root_features.sonorant == BinaryFeature::Unmarked,
        Feature::PlusContinuant => seg.autosegmental_features.continuant == Some(
            BinaryFeature::Marked,
        ),
        Feature::MinusContinuant => seg.autosegmental_features.continuant == Some(
            BinaryFeature::Unmarked,
        ),
        Feature::PlusStrident => seg.autosegmental_features.strident == Some(
            BinaryFeature::Marked,
        ),
        Feature::MinusStrident => seg.autosegmental_features.strident == Some(
            BinaryFeature::Unmarked,
        ),
        Feature::Nasal => seg.autosegmental_features.nasal == Some(UnaryFeature::Marked),
        Feature::Lateral => seg.autosegmental_features.lateral == Some(UnaryFeature::Marked),
        Feature::Rhotic => seg.autosegmental_features.rhotic == Some(UnaryFeature::Marked),
        Feature::Laryngeal => seg.autosegmental_features.laryngeal.is_some(),
        Feature::PlusVoice => crate::features::get_voice(seg) == Some(BinaryFeature::Marked),
        Feature::MinusVoice => crate::features::get_voice(seg) == Some(BinaryFeature::Unmarked),
        Feature::SpreadGlottis => crate::features::get_spread_glottis(seg) == Some(
            UnaryFeature::Marked,
        ),
        Feature::ConstrictedGlottis => crate::features::get_constricted_glottis(seg) == Some(
            UnaryFeature::Marked,
        ),
        Feature::Labial => crate::features::get_labial(seg).is_some(),
        Feature::Round => crate::features::get_round(seg) == Some(UnaryFeature::Marked),
        Feature::Coronal => crate::features::get_coronal(seg).is_some(),
        Feature::PlusAnterior => crate::features::get_anterior(seg) == Some(BinaryFeature::Marked),
        Feature::MinusAnterior => crate::features::get_anterior(seg) == Some(
            BinaryFeature::Unmarked,
        ),
        Feature::PlusDistrib => crate::features::get_distrib(seg) == Some(BinaryFeature::Marked),
        Feature::MinusDistrib => crate::features::get_distrib(seg) == Some(
            BinaryFeature::Unmarked,
        ),
        Feature::Dorsal => crate::features::get_dorsal(seg).is_some(),
        Feature::PlusHigh => crate::features::get_high(seg) == Some(BinaryFeature::Marked),
        Feature::MinusHigh => crate::features::get_high(seg) == Some(BinaryFeature::Unmarked),
        Feature::PlusLow => crate::features::get_low(seg) == Some(BinaryFeature::Marked),
        Feature::MinusLow => crate::features::get_low(seg) == Some(BinaryFeature::Unmarked),
        Feature::PlusBack => crate::features::get_back(seg) == Some(BinaryFeature::Marked),
        Feature::MinusBack => crate::features::get_back(seg) == Some(BinaryFeature::Unmarked),
        Feature::Pharyngeal => crate::features::get_pharyngeal(seg).is_some(),
        Feature::PlusAdvancedTongueRoot => crate::features::get_advanced_tongue_root(seg) == Some(
            BinaryFeature::Marked,
        ),
        Feature::MinusAdvancedTongueRoot => crate::features::get_advanced_tongue_root(seg) == Some(
            BinaryFeature::Unmarked,
        ),
        Feature::DelRel => false,
    }
}

/// Whether the flattened feature set of a phoneme contains the given
/// token.
pub fn phoneme_has_feature(p: Phoneme, f: Feature) -> (r: bool)
    ensures
        r == spec_phoneme_has_feature(p, f),
{
    match p {
        Phoneme::Monosegment(seg) => segment_has(seg, f),
        Phoneme::Disegment(seg1, seg2) => {
            segment_has(seg1, f) || segment_has(seg2, f) || (matches!(f, Feature::DelRel)
                && crate::feature_classes::is_affricate(p))
        },
    }
}

/// Every feature token, in a fixed order and with no token repeated.
pub fn all_features() -> (r: Vec<Feature>)
    ensures
        r@ == spec_all_features(),
        r@.no_duplicates(),
{
    let mut out: Vec<Feature> = Vec::new();
    out.push(Feature::PlusSyllabic);
    out.push(Feature::MinusSyllabic);
    out.push(Feature::PlusConsonantal);
    out.push(Feature::MinusConsonantal);
    out.push(Feature::PlusSonorant);
    out.push(Feature::MinusSonorant);
    out.push(Feature::PlusContinuant);
    out.push(Feature::MinusContinuant);
    out.push(Feature::PlusStrident);
    out.push(Feature::MinusStrident);
    out.push(Feature::Nasal);
    out.push(Feature::Lateral);
    out.push(Feature::Rhotic);
    out.push(Feature::Laryngeal);
    out.push(Feature::PlusVoice);
    out.push(Feature::MinusVoice);
    out.push(Feature::SpreadGlottis);
    out.push(Feature::ConstrictedGlottis);
    out.push(Feature::Labial);
    out.push(Feature::Round);
    out.push(Feature::Coronal);
    out.push(Feature::PlusAnterior);
    out.push(Feature::MinusAnterior);
    out.push(Feature::PlusDistrib);
    out.push(Feature::MinusDistrib);
    out.push(Feature::Dorsal);
    out.push(Feature::PlusHigh);
    out.push(Feature::MinusHigh);
    out.push(Feature::PlusLow);
    out.push(Feature::MinusLow);
    out.push(Feature::PlusBack);
    out.push(Feature::MinusBack);
    out.push(Feature::Pharyngeal);
    out.push(Feature::PlusAdvancedTongueRoot);
    out.push(Feature::MinusAdvancedTongueRoot);
    out.push(Feature::DelRel);
    proof {
        assert(out@ =~= spec_all_features());
        lemma_all_features_no_duplicates();
    }
    out
}

/// The tokens of a phoneme gathered into a vector: a token stands in
/// the result exactly when the phoneme has it, and no token is
/// repeated.
fn gather_tokens(p: Phoneme) -> (r: Vec<Feature>)
    ensures
        r@.no_duplicates(),
        forall|f: Feature| r@.contains(f) <==> spec_phoneme_has_feature(p, f),
{
    let all = all_features();
    let mut out: Vec<Feature> = Vec::new();
    let mut i: usize = 0;
    while i < all.len()
        invariant
            i <= all@.len(),
            all@ == spec_all_features(),
            all@.no_duplicates(),
            out@.no_duplicates(),
            forall|f: Feature|
                #![trigger out@.contains(f)]
                #![trigger spec_phoneme_has_feature(p, f)]
                out@.contains(f) <==> (all@.take(i as int).contains(f)
                    && spec_phoneme_has_feature(p, f)),
        decreases all@.len() - i,
    {
        let ghost prev = out@;
        let ghost prev_take = all@.take(i as int);
        let ghost cur = all@[i as int];
        let has_cur = phoneme_has_feature(p, all[i]);
        if has_cur {
            proof {
                if prev.contains(cur) {
                    let k = choose|k: int| 0 <= k < prev_take.len() && #[trigger] prev_take[k]
                        == cur;
                    assert(all@[k] == cur);
                    assert(false);
                }
            }
            out.push(all[i]);
        }
        i = i + 1;
        proof {
            let next_take = all@.take(i as int);
            assert(next_take =~= prev_take.push(cur));
            assert forall|f: Feature|
                #![trigger out@.contains(f)]
                #![trigger spec_phoneme_has_feature(p, f)]
                out@.contains(f) <==> (all@.take(i as int).contains(f)
                    && spec_phoneme_has_feature(p, f)) by {
                if out@.contains(f) {
                    let j = choose|j: int| 0 <= j < out@.len() && #[trigger] out@[j] == f;
                    if j < prev.len() {
                        assert(prev[j] == f);
                        assert(prev.contains(f));
                        assert(prev_take.contains(f));
                        let k = choose|k: int| 0 <= k < prev_take.len() && #[trigger] prev_take[k]
                            == f;
                        assert(next_take[k] == f);
                        assert(next_take.contains(f));
                    } else {
                        assert(f == cur);
                        assert(next_take[next_take.len() - 1] == f);
                        assert(next_take.contains(f));
                    }
                }
                if next_take.contains(f) && spec_phoneme_has_feature(p, f) {
                    let k = choose|k: int| 0 <= k < next_take.len() && #[trigger] next_take[k]
                        == f;
                    if k < prev_take.len() {
                        assert(prev_take[k] == f);
                        assert(prev_take.contains(f));
                        assert(prev.contains(f));
                        let j = choose|j: int| 0 <= j < prev.len() && #[trigger] prev[j] == f;
                        assert(out@[j] == f);
                        assert(out@.contains(f));
                    } else {
                        assert(f == cur);
                        assert(out@[out@.len() - 1] == f);
                        assert(out@.contains(f));
                    }
                }
            }
        }
    }
    proof {
        assert(all@.take(all@.len() as int) =~= all@);
        assert forall|f: Feature| #[trigger]
            spec_phoneme_has_feature(p, f) implies all@.contains(f) by {
            lemma_all_features_complete(f);
        }
    }
    out
}

/// Generate a feature set representing the phonological features of
/// a phoneme: the union of its segments' tokens, with `DelRel` added
/// exactly when the phoneme is an affricate.
pub fn feature_set(phoneme: Phoneme) -> (r: Vec<Feature>)
    ensures
        r@.no_duplicates(),
        forall|f: Feature| r@.contains(f) <==> spec_phoneme_has_feature(phoneme, f),
        r@.to_set() == spec_feature_set(phoneme),
{
    let r = gather_tokens(phoneme);
    proof {
        assert(r@.to_set() =~= spec_feature_set(phoneme));
    }
    r
}

/// Generate the feature set of a single segment.
pub fn segment_feature_set(seg: Segment) -> (r: Vec<Feature>)
    ensures
        r@.no_duplicates(),
        forall|f: Feature| r@.contains(f) <==> seg_has_feature(seg, f),
{
    let r = gather_tokens(Phoneme::Monosegment(seg));
    proof {
        assert forall|f: Feature| r@.contains(f) <==> seg_has_feature(seg, f) by {
            assert(spec_phoneme_has_feature(Phoneme::Monosegment(seg), f) == seg_has_feature(
                seg,
                f,
            ));
        }
    }
    r
}

} // verus!
