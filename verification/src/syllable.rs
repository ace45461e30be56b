//! Structured collection of phonemes.
//!
//! Syllables are broken into three groups of phonemes: onset, nucleus,
//! and coda. The nucleus and the coda together are commonly known as
//! the rhyme. A syllable is also marked with a level of stress,
//! although this only takes on meaning in relation to other syllables
//! in the same word (lexical stress).

use vstd::prelude::*;
use vstd::string::StringExecFns;

use crate::phoneme::Phoneme;
use crate::phoneme::spec_symbol;
use crate::stress::Stress;

verus! {

/// A syllable describes a structured collection of phonemes, what
/// people commonly distinguish as the unit out of which words are
/// constructed.
#[derive(PartialEq, Eq, Debug)]
pub struct Syllable {
    /// The onset is the collection of phonemes that begin a syllable.
    pub onset: Vec<Phoneme>,
    /// The nucleus, normally a vowel, is the most sonorous phoneme in
    /// the syllable.
    pub nucleus: Phoneme,
    /// The coda is the collection of phonemes that follow the
    /// nucleus.
    pub coda: Vec<Phoneme>,
    /// The level of stress put on the syllable; only meaningful in
    /// relation to the surrounding syllables of the same word.
    pub stress: Option<Stress>,
}

/// The mathematical model of a syllable: its three phoneme groups as
/// sequences, and its stress.
pub ghost struct SyllableView {
    /// The phonemes before the nucleus.
    pub onset: Seq<Phoneme>,
    /// The nucleus phoneme.
    pub nucleus: Phoneme,
    /// The phonemes after the nucleus.
    pub coda: Seq<Phoneme>,
    /// The stress level, if any.
    pub stress: Option<Stress>,
}

impl View for Syllable {
    type V = SyllableView;

    open spec fn view(&self) -> SyllableView {
        SyllableView {
            onset: self.onset@,
            nucleus: self.nucleus,
            coda: self.coda@,
            stress: self.stress,
        }
    }
}

/// All phonemes of a syllable in order: onset, then nucleus, then
/// coda.
pub open spec fn spec_syl_phonemes(v: SyllableView) -> Seq<Phoneme> {
    v.onset + seq![v.nucleus] + v.coda
}

/// The rhyme part of a syllable: its nucleus followed by its coda.
pub open spec fn spec_rhyme(v: SyllableView) -> Seq<Phoneme> {
    seq![v.nucleus] + v.coda
}

/// The concatenated symbols of a sequence of phonemes.
pub open spec fn spec_phonemes_symbols(ps: Seq<Phoneme>) -> Seq<char>
    decreases ps.len(),
{
    if ps.len() == 0 {
        Seq::empty()
    } else {
        spec_symbol(ps[0]) + spec_phonemes_symbols(ps.skip(1))
    }
}

/// The symbols of a syllable: the concatenated symbols of its
/// phonemes, with no stress information.
pub open spec fn spec_syl_symbols(v: SyllableView) -> Seq<char> {
    spec_phonemes_symbols(spec_syl_phonemes(v))
}

/// Appends every phoneme of `src` to `dst`, in order.
pub(crate) fn push_all(dst: &mut Vec<Phoneme>, src: &Vec<Phoneme>)
    ensures
        final(dst)@ == old(dst)@ + src@,
{
    let mut i: usize = 0;
    while i < src.len()
        invariant
            i <= src@.len(),
            dst@ == old(dst)@ + src@.take(i as int),
        decreases src@.len() - i,
    {
        dst.push(src[i]);
        i = i + 1;
        proof {
            assert(src@.take(i as int) =~= src@.take(i - 1).push(src@[i - 1]));
        }
    }
    proof {
        assert(src@.take(src@.len() as int) =~= src@);
    }
}

impl Syllable {
    /// The rhyme is the nucleus and coda of a syllable together.
    pub fn rhyme(&self) -> (r: Vec<Phoneme>)
        ensures
            r@ == spec_rhyme(self@),
    {
        let mut out: Vec<Phoneme> = Vec::new();
        out.push(self.nucleus);
        push_all(&mut out, &self.coda);
        proof {
            assert(out@ =~= spec_rhyme(self@));
        }
        out
    }

    /// phonemes flattens a syllable into a single ordered list of
    /// phonemes.
    pub fn phonemes(&self) -> (r: Vec<Phoneme>)
        ensures
            r@ == spec_syl_phonemes(self@),
    {
        let mut out: Vec<Phoneme> = Vec::new();
        push_all(&mut out, &self.onset);
        out.push(self.nucleus);
        push_all(&mut out, &self.coda);
        proof {
            assert(out@ =~= spec_syl_phonemes(self@));
        }
        out
    }

    /// symbols returns the symbolic representation of a syllable's
    /// phonemes as a single string.
    ///
    /// Because stress is only relevant between syllables, it is not
    /// rendered as part of a syllable's symbols, but instead as part
    /// of a word's symbols.
    pub fn symbols(&self) -> (r: String)
        ensures
            r@ == spec_syl_symbols(self@),
    {
        let ps = self.phonemes();
        let mut out = String::new();
        let mut i: usize = 0;
        proof {
            assert(ps@.skip(0) =~= ps@);
        }
        while i < ps.len()
            invariant
                i <= ps@.len(),
                out@ + spec_phonemes_symbols(ps@.skip(i as int)) == spec_phonemes_symbols(ps@),
            decreases ps@.len() - i,
        {
            let ghost pre = ps@.skip(i as int);
            let sym = ps[i].symbol();
            out.append(sym.as_str());
            i = i + 1;
            proof {
                assert(pre.skip(1) =~= ps@.skip(i as int));
                assert(out@ + spec_phonemes_symbols(ps@.skip(i as int)) =~= spec_phonemes_symbols(
                    ps@,
                ));
            }
        }
        proof {
            assert(ps@.skip(ps@.len() as int) =~= Seq::<Phoneme>::empty());
            assert(out@ =~= spec_phonemes_symbols(ps@));
        }
        out
    }
}

} // verus!
