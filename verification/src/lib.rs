//! Sound: a library for modelling spoken-language sound structure.
//!
//! Phonemes are described by a feature-geometry data model (`features`,
//! `phoneme`), classified into natural classes (`feature_classes`),
//! flattened into feature sets for similarity measurements (`feature_set`,
//! `rhyme`), and assembled into syllables and words (`stress`, `syllable`,
//! `word`) by a parser that reads dictionary-style pronunciation strings
//! (`builders::words`).

pub mod accents;
pub mod builders;
pub mod feature_classes;
pub mod feature_set;
pub mod features;
pub mod phoneme;
pub mod rhyme;
pub mod stress;
pub mod syllable;
pub mod word;
