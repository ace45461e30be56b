//! Levels of lexical stress for syllables.
//!
//! Four levels of marked stress are provided, which can also reduce to
//! a binary measure of stress for scenarios where that is more
//! appropriate. Lexical stress only takes on meaning in relation to
//! the other syllables of the same word.

use vstd::prelude::*;

verus! {

/// Stress is represented with four levels of emphasis, ordered
/// `ReducedStress < Unstressed < SecondaryStress < Stressed`. Use
/// [`Stress::to_binary_stress`] to reduce the four levels to two.
#[derive(PartialEq, Eq, Structural, PartialOrd, Ord, Debug, Clone, Copy)]
pub enum Stress {
    /// The syllable is not only least emphasized, but also reduced.
    ReducedStress,
    /// The syllable is less emphasized than surrounding syllables.
    Unstressed,
    /// The syllable has stress, but is not the most prominent in a
    /// word.
    SecondaryStress,
    /// The syllable is more emphasized than surrounding syllables.
    Stressed,
}

/// BinaryStress represents two levels of syllable emphasis.
#[derive(PartialEq, Eq, Structural, PartialOrd, Ord, Debug, Clone, Copy)]
pub enum BinaryStress {
    /// The syllable is less emphasized than surrounding syllables.
    Unstressed,
    /// The syllable is more emphasized than surrounding syllables.
    Stressed,
}

/// The two-level reduction of a four-level stress value: the two low
/// levels become `Unstressed`, the two high levels `Stressed`.
pub open spec fn spec_binary_stress(s: Stress) -> BinaryStress {
    match s {
        Stress::ReducedStress | Stress::Unstressed => BinaryStress::Unstressed,
        Stress::SecondaryStress | Stress::Stressed => BinaryStress::Stressed,
    }
}

/// The IPA symbol for a stress level, if the level has one:
/// `Stressed` is marked 'ˈ' and `SecondaryStress` 'ˌ'; the two low
/// levels have no marker.
pub open spec fn spec_stress_symbol(s: Stress) -> Option<char> {
    match s {
        Stress::ReducedStress | Stress::Unstressed => None,
        Stress::SecondaryStress => Some('ˌ'),
        Stress::Stressed => Some('ˈ'),
    }
}

impl Stress {
    /// to_binary_stress converts four-level stress to two-level
    /// stress: ReducedStress and Unstressed become Unstressed,
    /// SecondaryStress and Stressed become Stressed.
    pub fn to_binary_stress(self) -> (r: BinaryStress)
        ensures
            r == spec_binary_stress(self),
    {
        match self {
            Stress::ReducedStress | Stress::Unstressed => BinaryStress::Unstressed,
            Stress::SecondaryStress | Stress::Stressed => BinaryStress::Stressed,
        }
    }

    /// symbol provides the IPA symbol associated with the stress
    /// level, if a symbol is associated with that level of stress.
    pub fn symbol(&self) -> (r: Option<char>)
        ensures
            r == spec_stress_symbol(*self),
    {
        match self {
            Stress::ReducedStress | Stress::Unstressed => None,
            Stress::SecondaryStress => Some('ˌ'),
            Stress::Stressed => Some('ˈ'),
        }
    }
}

} // verus!
