//! Distinctive features for describing phonemes.
//!
//! A phoneme decomposes into a structured collection of phonological
//! features. Root features (`consonantal`, `sonorant`, `syllabic`) are
//! always present on a segment. Autosegmental features are optional:
//! an absent feature means the articulatory preconditions for it are
//! not present, which is structurally distinct from a feature that is
//! present but unmarked. Features with material dependencies on other
//! features (feature geometry) are grouped under their parents, e.g.
//! `round` lives under `labial`, which lives under `place`.

use vstd::prelude::*;

verus! {

/// A binary feature contrasts positively (Marked) or negatively
/// (Unmarked); both polarities can form natural classes of sounds.
/// When the feature is absent altogether, the mechanical preconditions
/// for it are not present.
#[derive(PartialEq, Eq, Structural, Debug, Hash, Clone, Copy)]
pub enum BinaryFeature {
    /// The feature contrasts positively (it is notably there).
    Marked,
    /// The feature contrasts negatively (it is notably not there).
    Unmarked,
}

/// A unary feature is meaningful only when marked: natural classes do
/// not form around its absence (there is no useful class of non-nasal
/// sounds). Absence is represented by `Option::None` at the use site.
#[derive(PartialEq, Eq, Structural, Debug, Hash, Clone, Copy)]
pub enum UnaryFeature {
    /// The feature is notably present on the segment.
    Marked,
}

/// A segment is a structured collection of phonological features
/// describing one unit of sound, together with its IPA symbol.
#[derive(PartialEq, Eq, Debug, Hash, Clone, Copy)]
pub struct Segment {
    /// Root features, bound to every segment.
    pub root_features: RootFeatures,
    /// Optional autosegmental features.
    pub autosegmental_features: AutosegmentalFeatures,
    /// Symbolic (IPA) representation of the segment alone.
    pub symbol: char,
}

/// Root features describe all phonological segments and are never
/// optional.
#[derive(PartialEq, Eq, Debug, Hash, Clone, Copy)]
pub struct RootFeatures {
    /// Constriction of the vocal tract: consonants (+); vowels (-).
    pub consonantal: BinaryFeature,
    /// Resonant vs turbulent sound: nasals, liquids, vowels (+);
    /// obstruents (-).
    pub sonorant: BinaryFeature,
    /// Presence at the nucleus of a syllable: vowels (+); consonants
    /// and glides (-).
    pub syllabic: BinaryFeature,
}

/// Autosegmental features describe a segment beyond its root features.
/// Every field is optional; features that depend on other features are
/// grouped below their parents.
#[derive(PartialEq, Eq, Debug, Default, Hash, Clone, Copy)]
pub struct AutosegmentalFeatures {
    /// Air passes through the nasal tract: 'n', 'm', 'ŋ'.
    pub nasal: Option<UnaryFeature>,
    /// Air passes to the sides around the tongue: 'l', 'ɹ'.
    pub lateral: Option<UnaryFeature>,
    /// Any of the different ways that rhoticity is marked.
    pub rhotic: Option<UnaryFeature>,
    /// High-amplitude, high-frequency fricatives: sibilants (+).
    pub strident: Option<BinaryFeature>,
    /// Continuous vs stopped air flow: fricatives, approximants (+),
    /// stops (-).
    pub continuant: Option<BinaryFeature>,
    /// Place of articulation within the mouth.
    pub place: Option<Place>,
    /// Contrasts and distinctions at the larynx: voicing distinctions.
    pub laryngeal: Option<LaryngealFeatures>,
}

/// Place describes a location of constriction or articulation within
/// the mouth; its four sub-groups are not mutually exclusive.
#[derive(PartialEq, Eq, Debug, Default, Hash, Clone, Copy)]
pub struct Place {
    /// Articulation using the lips: 'p', 'm', vowel rounding.
    pub labial: Option<LabialFeature>,
    /// Articulation using the front of the tongue: 't', 's', 'n'.
    pub coronal: Option<CoronalFeature>,
    /// Articulation using the body of the tongue: 'k', 'ŋ', vowel
    /// space.
    pub dorsal: Option<DorsalFeature>,
    /// Articulation using the root of the tongue: ATR.
    pub pharyngeal: Option<PharyngealFeature>,
}

/// Features determined by behavior involving the lips.
#[derive(PartialEq, Eq, Debug, Default, Hash, Clone, Copy)]
pub struct LabialFeature {
    /// Rounding of the lips during sound production: round vowels (+).
    pub round: Option<UnaryFeature>,
}

/// Features determined by behavior involving the front of the tongue.
#[derive(PartialEq, Eq, Debug, Default, Hash, Clone, Copy)]
pub struct CoronalFeature {
    /// Relation of the tongue to the alveolar ridge: dentals,
    /// alveolars (+).
    pub anterior: Option<BinaryFeature>,
    /// Tongue blade (laminal) vs tongue tip (apical): 'ʃ', 'θ' (+);
    /// 's' (-).
    pub distrib: Option<BinaryFeature>,
}

/// Features determined by behavior involving the body of the tongue.
/// Vowel space uses both `high` and `low`: high vowels are
/// (+high, -low), low vowels (-high, +low), mid vowels (-high, -low).
#[derive(PartialEq, Eq, Debug, Default, Hash, Clone, Copy)]
pub struct DorsalFeature {
    /// High tongue position: high vowels (+); mid and low vowels (-).
    pub high: Option<BinaryFeature>,
    /// Low tongue position: low vowels (+); mid and high vowels (-).
    pub low: Option<BinaryFeature>,
    /// Tongue is not front: back and central vowels (+); front
    /// vowels (-).
    pub back: Option<BinaryFeature>,
}

/// Features determined by behavior at the root of the tongue.
#[derive(PartialEq, Eq, Debug, Default, Hash, Clone, Copy)]
pub struct PharyngealFeature {
    /// Tongue root is forward; doubles as tenseness. 'i', 'e', 'u',
    /// 'o' (+). Should be undefined for low vowels.
    pub advanced_tongue_root: Option<BinaryFeature>,
}

/// Features determined by the behavior of the vocal folds.
#[derive(PartialEq, Eq, Debug, Default, Hash, Clone, Copy)]
pub struct LaryngealFeatures {
    /// Open vocal folds: aspirated segments.
    pub spread_glottis: Option<UnaryFeature>,
    /// Constricted vocal folds: ejectives, glottal stops.
    pub constricted_glottis: Option<UnaryFeature>,
    /// Vibrating vocal folds: 'b', 'd', 'ɡ' (+); 'p', 't', 'k' (-).
    pub voice: Option<BinaryFeature>,
}

/// The spread_glottis feature of a segment, `None` when the laryngeal
/// group is absent.
pub open spec fn spec_spread_glottis(segment: Segment) -> Option<UnaryFeature> {
    match segment.autosegmental_features.laryngeal {
        Some(laryn) => laryn.spread_glottis,
        None => None,
    }
}

/// The constricted_glottis feature of a segment, `None` when the
/// laryngeal group is absent.
pub open spec fn spec_constricted_glottis(segment: Segment) -> Option<UnaryFeature> {
    match segment.autosegmental_features.laryngeal {
        Some(laryn) => laryn.constricted_glottis,
        None => None,
    }
}

/// The voice feature of a segment, `None` when the laryngeal group is
/// absent.
pub open spec fn spec_voice(segment: Segment) -> Option<BinaryFeature> {
    match segment.autosegmental_features.laryngeal {
        Some(laryn) => laryn.voice,
        None => None,
    }
}

/// The labial place group of a segment, `None` when the place group is
/// absent.
pub open spec fn spec_labial(segment: Segment) -> Option<LabialFeature> {
    match segment.autosegmental_features.place {
        Some(place) => place.labial,
        None => None,
    }
}

/// The round feature of a segment, `None` when the place or labial
/// group is absent.
pub open spec fn spec_round(segment: Segment) -> Option<UnaryFeature> {
    match spec_labial(segment) {
        Some(labial) => labial.round,
        None => None,
    }
}

/// The coronal place group of a segment, `None` when the place group
/// is absent.
pub open spec fn spec_coronal(segment: Segment) -> Option<CoronalFeature> {
    match segment.autosegmental_features.place {
        Some(place) => place.coronal,
        None => None,
    }
}

/// The anterior feature of a segment, `None` when the place or coronal
/// group is absent.
pub open spec fn spec_anterior(segment: Segment) -> Option<BinaryFeature> {
    match spec_coronal(segment) {
        Some(coronal) => coronal.anterior,
        None => None,
    }
}

/// The distrib feature of a segment, `None` when the place or coronal
/// group is absent.
pub open spec fn spec_distrib(segment: Segment) -> Option<BinaryFeature> {
    match spec_coronal(segment) {
        Some(coronal) => coronal.distrib,
        None => None,
    }
}

/// The dorsal place group of a segment, `None` when the place group is
/// absent.
pub open spec fn spec_dorsal(segment: Segment) -> Option<DorsalFeature> {
    match segment.autosegmental_features.place {
        Some(place) => place.dorsal,
        None => None,
    }
}

/// The high feature of a segment, `None` when the place or dorsal
/// group is absent.
pub open spec fn spec_high(segment: Segment) -> Option<BinaryFeature> {
    match spec_dorsal(segment) {
        Some(dorsal) => dorsal.high,
        None => None,
    }
}

/// The low feature of a segment, `None` when the place or dorsal group
/// is absent.
pub open spec fn spec_low(segment: Segment) -> Option<BinaryFeature> {
    match spec_dorsal(segment) {
        Some(dorsal) => dorsal.low,
        None => None,
    }
}

/// The back feature of a segment, `None` when the place or dorsal
/// group is absent.
pub open spec fn spec_back(segment: Segment) -> Option<BinaryFeature> {
    match spec_dorsal(segment) {
        Some(dorsal) => dorsal.back,
        None => None,
    }
}

/// The pharyngeal place group of a segment, `None` when the place
/// group is absent.
pub open spec fn spec_pharyngeal(segment: Segment) -> Option<PharyngealFeature> {
    match segment.autosegmental_features.place {
        Some(place) => place.pharyngeal,
        None => None,
    }
}

/// The advanced_tongue_root feature of a segment, `None` when the
/// place or pharyngeal group is absent.
pub open spec fn spec_advanced_tongue_root(segment: Segment) -> Option<BinaryFeature> {
    match spec_pharyngeal(segment) {
        Some(pharyn) => pharyn.advanced_tongue_root,
        None => None,
    }
}

/// Structure-blind accessor for the consonantal feature.
pub fn get_consonantal(segment: Segment) -> (r: BinaryFeature)
    ensures
        r == segment.root_features.consonantal,
{
    segment.root_features.consonantal
}

/// Structure-blind accessor for the sonorant feature.
pub fn get_sonorant(segment: Segment) -> (r: BinaryFeature)
    ensures
        r == segment.root_features.sonorant,
{
    segment.root_features.sonorant
}

/// Structure-blind accessor for the syllabic feature.
pub fn get_syllabic(segment: Segment) -> (r: BinaryFeature)
    ensures
        r == segment.root_features.syllabic,
{
    segment.root_features.syllabic
}

/// Structure-blind accessor for the continuant feature.
pub fn get_continuant(segment: Segment) -> (r: Option<BinaryFeature>)
    ensures
        r == segment.autosegmental_features.continuant,
{
    segment.autosegmental_features.continuant
}

/// Structure-blind accessor for the strident feature.
pub fn get_strident(segment: Segment) -> (r: Option<BinaryFeature>)
    ensures
        r == segment.autosegmental_features.strident,
{
    segment.autosegmental_features.strident
}

/// Structure-blind accessor for the lateral feature.
pub fn get_lateral(segment: Segment) -> (r: Option<UnaryFeature>)
    ensures
        r == segment.autosegmental_features.lateral,
{
    segment.autosegmental_features.lateral
}

/// Structure-blind accessor for the nasal feature.
pub fn get_nasal(segment: Segment) -> (r: Option<UnaryFeature>)
    ensures
        r == segment.autosegmental_features.nasal,
{
    segment.autosegmental_features.nasal
}

/// Structure-blind accessor for the laryngeal feature group.
pub fn get_laryngeal(segment: Segment) -> (r: Option<LaryngealFeatures>)
    ensures
        r == segment.autosegmental_features.laryngeal,
{
    segment.autosegmental_features.laryngeal
}

/// Structure-blind accessor for the spread_glottis feature; absence
/// of the laryngeal group propagates downward.
pub fn get_spread_glottis(segment: Segment) -> (r: Option<UnaryFeature>)
    ensures
        r == spec_spread_glottis(segment),
{
    match segment.autosegmental_features.laryngeal {
        Some(laryn) => laryn.spread_glottis,
        None => None,
    }
}

/// Structure-blind accessor for the constricted_glottis feature;
/// absence of the laryngeal group propagates downward.
pub fn get_constricted_glottis(segment: Segment) -> (r: Option<UnaryFeature>)
    ensures
        r == spec_constricted_glottis(segment),
{
    match segment.autosegmental_features.laryngeal {
        Some(laryn) => laryn.constricted_glottis,
        None => None,
    }
}

/// Structure-blind accessor for the voice feature; absence of the
/// laryngeal group propagates downward.
pub fn get_voice(segment: Segment) -> (r: Option<BinaryFeature>)
    ensures
        r == spec_voice(segment),
{
    match segment.autosegmental_features.laryngeal {
        Some(laryn) => laryn.voice,
        None => None,
    }
}

/// Structure-blind accessor for the rhotic feature.
pub fn get_rhotic(segment: Segment) -> (r: Option<UnaryFeature>)
    ensures
        r == segment.autosegmental_features.rhotic,
{
    segment.autosegmental_features.rhotic
}

/// Structure-blind accessor for the labial feature group; absence of
/// the place group propagates downward.
pub fn get_labial(segment: Segment) -> (r: Option<LabialFeature>)
    ensures
        r == spec_labial(segment),
{
    match segment.autosegmental_features.place {
        Some(place) => place.labial,
        None => None,
    }
}

/// Structure-blind accessor for the round feature; absence of any
/// ancestor group propagates downward.
pub fn get_round(segment: Segment) -> (r: Option<UnaryFeature>)
    ensures
        r == spec_round(segment),
{
    match get_labial(segment) {
        Some(labial) => labial.round,
        None => None,
    }
}

/// Structure-blind accessor for the coronal feature group; absence of
/// the place group propagates downward.
pub fn get_coronal(segment: Segment) -> (r: Option<CoronalFeature>)
    ensures
        r == spec_coronal(segment),
{
    match segment.autosegmental_features.place {
        Some(place) => place.coronal,
        None => None,
    }
}

/// Structure-blind accessor for the anterior feature; absence of any
/// ancestor group propagates downward.
pub fn get_anterior(segment: Segment) -> (r: Option<BinaryFeature>)
    ensures
        r == spec_anterior(segment),
{
    match get_coronal(segment) {
        Some(coronal) => coronal.anterior,
        None => None,
    }
}

/// Structure-blind accessor for the distrib feature; absence of any
/// ancestor group propagates downward.
pub fn get_distrib(segment: Segment) -> (r: Option<BinaryFeature>)
    ensures
        r == spec_distrib(segment),
{
    match get_coronal(segment) {
        Some(coronal) => coronal.distrib,
        None => None,
    }
}

/// Structure-blind accessor for the dorsal feature group; absence of
/// the place group propagates downward.
pub fn get_dorsal(segment: Segment) -> (r: Option<DorsalFeature>)
    ensures
        r == spec_dorsal(segment),
{
    match segment.autosegmental_features.place {
        Some(place) => place.dorsal,
        None => None,
    }
}

/// Structure-blind accessor for the high feature; absence of any
/// ancestor group propagates downward.
pub fn get_high(segment: Segment) -> (r: Option<BinaryFeature>)
    ensures
        r == spec_high(segment),
{
    match get_dorsal(segment) {
        Some(dorsal) => dorsal.high,
        None => None,
    }
}

/// Structure-blind accessor for the low feature; absence of any
/// ancestor group propagates downward.
pub fn get_low(segment: Segment) -> (r: Option<BinaryFeature>)
    ensures
        r == spec_low(segment),
{
    match get_dorsal(segment) {
        Some(dorsal) => dorsal.low,
        None => None,
    }
}

/// Structure-blind accessor for the back feature; absence of any
/// ancestor group propagates downward.
pub fn get_back(segment: Segment) -> (r: Option<BinaryFeature>)
    ensures
        r == spec_back(segment),
{
    match get_dorsal(segment) {
        Some(dorsal) => dorsal.back,
        None => None,
    }
}

/// Structure-blind accessor for the pharyngeal feature group; absence
/// of the place group propagates downward.
pub fn get_pharyngeal(segment: Segment) -> (r: Option<PharyngealFeature>)
    ensures
        r == spec_pharyngeal(segment),
{
    match segment.autosegmental_features.place {
        Some(place) => place.pharyngeal,
        None => None,
    }
}

/// Structure-blind accessor for the advanced_tongue_root feature;
/// absence of any ancestor group propagates downward.
pub fn get_advanced_tongue_root(segment: Segment) -> (r: Option<BinaryFeature>)
    ensures
        r == spec_advanced_tongue_root(segment),
{
    match get_pharyngeal(segment) {
        Some(pharyn) => pharyn.advanced_tongue_root,
        None => None,
    }
}

} // verus!
