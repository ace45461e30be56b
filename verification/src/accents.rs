//! Per-accent phoneme inventories.
//!
//! An accent supplies the word parser with a lookup table from IPA
//! symbols to phonemes. Tables are immutable once constructed and are
//! consulted in order: the first entry whose symbol matches wins.

pub mod genam;

use vstd::prelude::*;

use crate::phoneme::Phoneme;

verus! {

/// A symbol-to-phoneme lookup table for one accent.
pub struct Accent {
    entries: Vec<(String, Phoneme)>,
}

impl View for Accent {
    type V = Seq<(Seq<char>, Phoneme)>;

    closed spec fn view(&self) -> Seq<(Seq<char>, Phoneme)> {
        self.entries@.map_values(|e: (String, Phoneme)| (e.0@, e.1))
    }
}

/// The phoneme associated with a symbol by a table: the first entry
/// whose symbol matches, or `None` when no entry matches.
pub open spec fn spec_lookup(entries: Seq<(Seq<char>, Phoneme)>, key: Seq<char>) -> Option<
    Phoneme,
>
    decreases entries.len(),
{
    if entries.len() == 0 {
        None
    } else if entries[0].0 == key {
        Some(entries[0].1)
    } else {
        spec_lookup(entries.skip(1), key)
    }
}

impl Accent {
    /// Builds an accent from its symbol-to-phoneme entries, kept in
    /// the given order.
    pub fn new(entries: Vec<(String, Phoneme)>) -> (a: Accent)
        ensures
            a@ == entries@.map_values(|e: (String, Phoneme)| (e.0@, e.1)),
    {
        Accent { entries }
    }

    /// The phoneme this accent associates with a symbol, if any.
    pub fn lookup(&self, symbol: &String) -> (r: Option<Phoneme>)
        ensures
            r == spec_lookup(self@, symbol@),
    {
        let mut i: usize = 0;
        proof {
            assert(self@.skip(0) =~= self@);
        }
        while i < self.entries.len()
            invariant
                i <= self@.len(),
                self@.len() == self.entries@.len(),
                self@ == self.entries@.map_values(|e: (String, Phoneme)| (e.0@, e.1)),
                spec_lookup(self@, symbol@) == spec_lookup(self@.skip(i as int), symbol@),
            decreases self@.len() - i,
        {
            let ghost pre = self@.skip(i as int);
            if self.entries[i].0 == *symbol {
                proof {
                    assert(pre[0] == self@[i as int]);
                }
                return Some(self.entries[i].1);
            }
            i = i + 1;
            proof {
                assert(pre[0] == self@[i - 1]);
                assert(pre.skip(1) =~= self@.skip(i as int));
            }
        }
        proof {
            assert(self@.skip(self@.len() as int) =~= Seq::<(Seq<char>, Phoneme)>::empty());
        }
        None
    }

    /// The symbols of this accent's entries, in table order.
    pub fn symbols(&self) -> (r: Vec<String>)
        ensures
            r@.map_values(|s: String| s@) == self@.map_values(|e: (Seq<char>, Phoneme)| e.0),
    {
        let mut out: Vec<String> = Vec::new();
        let mut i: usize = 0;
        while i < self.entries.len()
            invariant
                i <= self.entries@.len(),
                self@ == self.entries@.map_values(|e: (String, Phoneme)| (e.0@, e.1)),
                out@.len() == i,
                forall|j: int| 0 <= j < i ==> out@[j]@ == self@[j].0,
            decreases self.entries@.len() - i,
        {
            out.push(self.entries[i].0.clone());
            i = i + 1;
        }
        proof {
            assert(out@.map_values(|s: String| s@) =~= self@.map_values(
                |e: (Seq<char>, Phoneme)| e.0,
            ));
        }
        out
    }

    /// The phonemes of this accent's entries, in table order.
    pub fn phonemes(&self) -> (r: Vec<Phoneme>)
        ensures
            r@ == self@.map_values(|e: (Seq<char>, Phoneme)| e.1),
    {
        let mut out: Vec<Phoneme> = Vec::new();
        let mut i: usize = 0;
        while i < self.entries.len()
            invariant
                i <= self.entries@.len(),
                self@ == self.entries@.map_values(|e: (String, Phoneme)| (e.0@, e.1)),
                out@.len() == i,
                forall|j: int| 0 <= j < i ==> out@[j] == self@[j].1,
            decreases self.entries@.len() - i,
        {
            out.push(self.entries[i].1);
            i = i + 1;
        }
        proof {
            assert(out@ =~= self@.map_values(|e: (Seq<char>, Phoneme)| e.1));
        }
        out
    }
}

} // verus!
