//! Phonological unit of speech sound.
//!
//! Phonemes are the abstract blocks into which listeners divide and
//! categorize speech sounds. The symbolic representation used for a
//! phoneme is the International Phonetic Alphabet (IPA).

use vstd::prelude::*;

use crate::features::Segment;

verus! {

/// A phoneme is a unit of speech sound.
///
/// Most phonemes are monosegments, like 'ɪ' or 't'. A single phoneme
/// may also behave like an ordered sequence of two phonological
/// segments (a disegment), as with diphthongs ('a͡ɪ') and affricates
/// ('t͡ʃ').
#[derive(PartialEq, Eq, Debug, Hash, Clone, Copy)]
pub enum Phoneme {
    /// A phoneme with a single phonological segment.
    Monosegment(Segment),
    /// A phoneme comprised of an ordered sequence of two segments.
    Disegment(Segment, Segment),
}

/// The combining tie bar that joins the two segment symbols of a
/// disegment.
pub open spec fn tie_bar() -> char {
    '\u{0361}'
}

/// The symbol of a phoneme as a sequence of characters: a
/// monosegment's own symbol, or the two symbols of a disegment joined
/// by the combining tie bar.
pub open spec fn spec_symbol(p: Phoneme) -> Seq<char> {
    match p {
        Phoneme::Monosegment(s) => seq![s.symbol],
        Phoneme::Disegment(s1, s2) => seq![s1.symbol, tie_bar(), s2.symbol],
    }
}

/// Relies on String::push: appends exactly the given character to the
/// end of the string.
#[verifier::external_body]
pub(crate) fn push_char(s: &mut String, c: char)
    ensures
        final(s)@ == old(s)@.push(c),
{
    s.push(c);
}

impl Phoneme {
    /// The symbol associated with a phoneme. ex: 'p', 't͡ʃ'
    pub fn symbol(&self) -> (r: String)
        ensures
            r@ == spec_symbol(*self),
    {
        let mut out = String::new();
        match self {
            Phoneme::Monosegment(s) => {
                push_char(&mut out, s.symbol);
            },
            Phoneme::Disegment(s1, s2) => {
                push_char(&mut out, s1.symbol);
                push_char(&mut out, '\u{0361}');
                push_char(&mut out, s2.symbol);
            },
        }
        proof {
            assert(out@ =~= spec_symbol(*self));
        }
        out
    }
}

impl From<Segment> for Phoneme {
    fn from(seg: Segment) -> (p: Phoneme) {
        Phoneme::Monosegment(seg)
    }
}

impl vstd::std_specs::convert::FromSpecImpl<Segment> for Phoneme {
    open spec fn obeys_from_spec() -> bool {
        true
    }

    open spec fn from_spec(seg: Segment) -> Phoneme {
        Phoneme::Monosegment(seg)
    }
}

} // verus!
