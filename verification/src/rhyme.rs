//! Tools for measuring similarity between collections of phonemes.

pub mod approx;
