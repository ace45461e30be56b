//! A collection of syllables.
//!
//! A word is an ordered list of syllables. It also provides functions
//! for flattening the sounds and stresses of a word into lists.

use vstd::prelude::*;
use vstd::string::StringExecFns;

use crate::phoneme::Phoneme;
use crate::stress::Stress;
use crate::stress::spec_stress_symbol;
use crate::syllable::Syllable;
use crate::syllable::SyllableView;
use crate::syllable::spec_syl_phonemes;
use crate::syllable::spec_syl_symbols;

verus! {

/// A word is a collection of syllables. It represents a spoken word,
/// or perhaps the pronunciation information that would correspond to
/// a written word.
#[derive(PartialEq, Eq, Debug)]
pub struct Word(pub Vec<Syllable>);

impl View for Word {
    type V = Seq<SyllableView>;

    open spec fn view(&self) -> Seq<SyllableView> {
        self.0@.map_values(|syl: Syllable| syl@)
    }
}

/// All phonemes of a word's syllables, flattened into one sequence.
pub open spec fn spec_word_phonemes(w: Seq<SyllableView>) -> Seq<Phoneme>
    decreases w.len(),
{
    if w.len() == 0 {
        Seq::empty()
    } else {
        spec_syl_phonemes(w[0]) + spec_word_phonemes(w.skip(1))
    }
}

/// The stress levels of a word's syllables, in order, skipping
/// syllables whose stress is absent.
pub open spec fn spec_word_stresses(w: Seq<SyllableView>) -> Seq<Stress>
    decreases w.len(),
{
    if w.len() == 0 {
        Seq::empty()
    } else {
        match w[0].stress {
            Some(stress) => seq![stress] + spec_word_stresses(w.skip(1)),
            None => spec_word_stresses(w.skip(1)),
        }
    }
}

/// The separator rendered before a syllable: the IPA mark of its
/// stress, or '.' when the stress is absent or has no mark.
pub open spec fn spec_separator(v: SyllableView) -> char {
    match v.stress {
        Some(stress) => match spec_stress_symbol(stress) {
            Some(c) => c,
            None => '.',
        },
        None => '.',
    }
}

/// The rendering of a run of syllables, each preceded by its
/// separator.
pub open spec fn spec_render_tail(w: Seq<SyllableView>) -> Seq<char>
    decreases w.len(),
{
    if w.len() == 0 {
        Seq::empty()
    } else {
        seq![spec_separator(w[0])] + spec_syl_symbols(w[0]) + spec_render_tail(w.skip(1))
    }
}

/// The textual rendering of a word: syllables separated by the stress
/// mark of the following syllable, or by '.' where it has none; the
/// first syllable is preceded by its own mark only when it has one.
pub open spec fn spec_word_symbols(w: Seq<SyllableView>) -> Seq<char> {
    if w.len() == 0 {
        Seq::empty()
    } else if spec_separator(w[0]) == '.' {
        spec_syl_symbols(w[0]) + spec_render_tail(w.skip(1))
    } else {
        spec_render_tail(w)
    }
}

impl Word {
    /// phonemes combines the flattened phoneme lists of a word's
    /// syllables into a single vector. The onset-nucleus-coda
    /// structure of the syllables is lost in this transformation.
    pub fn phonemes(self) -> (r: Vec<Phoneme>)
        ensures
            r@ == spec_word_phonemes(self@),
    {
        let mut out: Vec<Phoneme> = Vec::new();
        let mut i: usize = 0;
        proof {
            assert(self@.skip(0) =~= self@);
        }
        while i < self.0.len()
            invariant
                i <= self@.len(),
                self@ == self.0@.map_values(|syl: Syllable| syl@),
                self@.len() == self.0@.len(),
                out@ + spec_word_phonemes(self@.skip(i as int)) == spec_word_phonemes(self@),
            decreases self@.len() - i,
        {
            let ghost pre = self@.skip(i as int);
            let syl_ps = self.0[i].phonemes();
            crate::syllable::push_all(&mut out, &syl_ps);
            i = i + 1;
            proof {
                assert(pre.skip(1) =~= self@.skip(i as int));
            }
        }
        proof {
            assert(self@.skip(self@.len() as int) =~= Seq::<SyllableView>::empty());
            assert(out@ =~= spec_word_phonemes(self@));
        }
        out
    }

    /// stresses provides the list of stress levels corresponding to
    /// each syllable in a word that carries one.
    pub fn stresses(self) -> (r: Vec<Stress>)
        ensures
            r@ == spec_word_stresses(self@),
    {
        let mut out: Vec<Stress> = Vec::new();
        let mut i: usize = 0;
        proof {
            assert(self@.skip(0) =~= self@);
        }
        while i < self.0.len()
            invariant
                i <= self@.len(),
                self@ == self.0@.map_values(|syl: Syllable| syl@),
                self@.len() == self.0@.len(),
                out@ + spec_word_stresses(self@.skip(i as int)) == spec_word_stresses(self@),
            decreases self@.len() - i,
        {
            let ghost pre = self@.skip(i as int);
            match self.0[i].stress {
                Some(stress) => {
                    out.push(stress);
                },
                None => {},
            }
            i = i + 1;
            proof {
                assert(pre.skip(1) =~= self@.skip(i as int));
            }
        }
        proof {
            assert(self@.skip(self@.len() as int) =~= Seq::<SyllableView>::empty());
            assert(out@ =~= spec_word_stresses(self@));
        }
        out
    }

    /// symbols returns a textual representation of a syllabized word.
    ///
    /// Syllables are separated by the '.' character, except for
    /// syllables that begin with an IPA stress mark, which serves as
    /// a syllable separator in place of the dot.
    pub fn symbols(self) -> (r: String)
        ensures
            r@ == spec_word_symbols(self@),
    {
        let mut out = String::new();
        if self.0.len() == 0 {
            return out;
        }
        let first_sep = match self.0[0].stress {
            Some(stress) => match stress.symbol() {
                Some(c) => c,
                None => '.',
            },
            None => '.',
        };
        if first_sep != '.' {
            crate::phoneme::push_char(&mut out, first_sep);
        }
        let first_syms = self.0[0].symbols();
        out.append(first_syms.as_str());
        let mut i: usize = 1;
        proof {
            if spec_separator(self@[0]) == '.' {
                assert(out@ =~= Seq::<char>::empty() + spec_syl_symbols(self@[0]));
                assert(out@ =~= spec_syl_symbols(self@[0]));
            } else {
                assert(out@ =~= seq![spec_separator(self@[0])] + spec_syl_symbols(self@[0]));
            }
        }
        while i < self.0.len()
            invariant
                1 <= i <= self@.len(),
                self@ == self.0@.map_values(|syl: Syllable| syl@),
                self@.len() == self.0@.len(),
                self@.len() > 0,
                out@ + spec_render_tail(self@.skip(i as int)) == spec_word_symbols(self@),
            decreases self@.len() - i,
        {
            let ghost pre = self@.skip(i as int);
            let sep = match self.0[i].stress {
                Some(stress) => match stress.symbol() {
                    Some(c) => c,
                    None => '.',
                },
                None => '.',
            };
            crate::phoneme::push_char(&mut out, sep);
            let syms = self.0[i].symbols();
            out.append(syms.as_str());
            i = i + 1;
            proof {
                assert(pre.skip(1) =~= self@.skip(i as int));
                assert(out@ + spec_render_tail(self@.skip(i as int)) =~= spec_word_symbols(self@));
            }
        }
        proof {
            assert(self@.skip(self@.len() as int) =~= Seq::<SyllableView>::empty());
            assert(out@ =~= spec_word_symbols(self@));
        }
        out
    }
}

impl From<Vec<Syllable>> for Word {
    fn from(syls: Vec<Syllable>) -> (w: Word) {
        Word(syls)
    }
}

impl vstd::std_specs::convert::FromSpecImpl<Vec<Syllable>> for Word {
    open spec fn obeys_from_spec() -> bool {
        true
    }

    open spec fn from_spec(syls: Vec<Syllable>) -> Word {
        Word(syls)
    }
}

} // verus!
