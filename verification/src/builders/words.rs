//! Constructor for words.
//!
//! A word description mirrors dictionary (IPA) pronunciation
//! notation. Stress information is given with IPA stress marks
//! (ˈ ˌ .) or with the digits 1–4, which also separate syllables; a
//! description that does not open with a stress mark gets an implicit
//! unstressed first syllable. The combining tie bar joins the two
//! characters around it into one symbol, and the combining right hook
//! attaches to the preceding character. Each resolved symbol is
//! looked up in an accent table, and every syllable must contain
//! exactly one vowel, which becomes its nucleus.

use vstd::prelude::*;
use vstd::string::StrSliceExecFns;
use vstd::string::StringExecFns;

use crate::accents::Accent;
use crate::accents::spec_lookup;
use crate::feature_classes::spec_is_vowel;
use crate::phoneme::Phoneme;
use crate::phoneme::push_char;
use crate::phoneme::spec_symbol;
use crate::phoneme::tie_bar;
use crate::stress::Stress;
use crate::syllable::Syllable;
use crate::syllable::SyllableView;
use crate::syllable::spec_phonemes_symbols;
use crate::syllable::spec_syl_phonemes;
use crate::syllable::spec_syl_symbols;
use crate::word::Word;
use crate::word::spec_render_tail;
use crate::word::spec_separator;
use crate::word::spec_word_symbols;

verus! {

/// The combining right hook that marks a rhotic vowel.
pub open spec fn rhotic_hook() -> char {
    '\u{02DE}'
}

/// Whether a character is one of the three IPA stress marks.
pub open spec fn is_ipa_stress_mark(c: char) -> bool {
    c == 'ˈ' || c == 'ˌ' || c == '.'
}

/// Whether a character is a stress digit.
pub open spec fn is_stress_digit(c: char) -> bool {
    c == '1' || c == '2' || c == '3' || c == '4'
}

/// An IPA stress mark normalized to its stress digit; any other
/// character is left unchanged.
pub open spec fn normalize_stress_mark(c: char) -> char {
    if c == 'ˈ' {
        '1'
    } else if c == 'ˌ' {
        '2'
    } else if c == '.' {
        '3'
    } else {
        c
    }
}

/// One scanned symbol of a word description: the characters that form
/// one lookup key (with stress marks normalized to digits), and
/// whether the symbol opens a new syllable.
pub ghost struct SymbolUnit {
    /// Whether the symbol is a stress mark or digit, which closes the
    /// current syllable.
    pub boundary: bool,
    /// The characters of the symbol.
    pub sym: Seq<char>,
}

/// The symbols of a word description from position `i` on, or `None`
/// when a tie bar stands without a following character. Each step
/// reads one character, normalizes a stress mark to its digit, and
/// absorbs a following tie bar together with the character after it,
/// or a following right hook alone.
pub open spec fn spec_units(s: Seq<char>, i: int) -> Option<Seq<SymbolUnit>>
    decreases s.len() - i,
{
    if i < 0 || i >= s.len() {
        Some(Seq::empty())
    } else {
        let boundary = is_ipa_stress_mark(s[i]) || is_stress_digit(s[i]);
        let c0 = normalize_stress_mark(s[i]);
        if i + 1 < s.len() && s[i + 1] == tie_bar() {
            if i + 2 < s.len() {
                match spec_units(s, i + 3) {
                    Some(units) => Some(
                        seq![SymbolUnit { boundary, sym: seq![c0, s[i + 1], s[i + 2]] }] + units,
                    ),
                    None => None,
                }
            } else {
                None
            }
        } else if i + 1 < s.len() && s[i + 1] == rhotic_hook() {
            match spec_units(s, i + 2) {
                Some(units) => Some(
                    seq![SymbolUnit { boundary, sym: seq![c0, s[i + 1]] }] + units,
                ),
                None => None,
            }
        } else {
            match spec_units(s, i + 1) {
                Some(units) => Some(seq![SymbolUnit { boundary, sym: seq![c0] }] + units),
                None => None,
            }
        }
    }
}

/// Groups scanned symbols into syllables: a boundary symbol closes
/// the syllable under construction and opens a new one that starts
/// with the boundary symbol itself.
pub open spec fn spec_group(units: Seq<SymbolUnit>, cur: Seq<Seq<char>>) -> Seq<Seq<Seq<char>>>
    decreases units.len(),
{
    if units.len() == 0 {
        seq![cur]
    } else if units[0].boundary {
        seq![cur] + spec_group(units.skip(1), seq![units[0].sym])
    } else {
        spec_group(units.skip(1), cur.push(units[0].sym))
    }
}

/// The ways the construction of a word from a description can fail.
pub ghost enum ParseError {
    /// The description is empty.
    EmptyDescription,
    /// A tie bar stands at the end of the description with no
    /// character to join.
    DanglingTie,
    /// A syllable does not open with a plain stress digit.
    MissingStress,
    /// A symbol is not known to the accent.
    UnknownSymbol(Seq<char>),
    /// A second vowel stands in a syllable that already has its
    /// nucleus.
    DuplicateNucleus(Phoneme, Seq<char>),
    /// A syllable contains no vowel.
    MissingNucleus,
}

/// The symbols of a word description, grouped into syllables, each
/// opening with its stress digit; or the failure the scan runs into.
/// A description that does not open with a stress mark or digit gets
/// an implicit unstressed marker.
pub open spec fn spec_split(s: Seq<char>) -> Result<Seq<Seq<Seq<char>>>, ParseError> {
    if s.len() == 0 {
        Err(ParseError::EmptyDescription)
    } else {
        let opened = is_ipa_stress_mark(s[0]) || is_stress_digit(s[0]);
        let digit = if opened {
            normalize_stress_mark(s[0])
        } else {
            '3'
        };
        let start = if opened {
            1int
        } else {
            0int
        };
        match spec_units(s, start) {
            Some(units) => Ok(spec_group(units, seq![seq![digit]])),
            None => Err(ParseError::DanglingTie),
        }
    }
}

/// The stress level named by a syllable's opening symbol, which must
/// be a single stress digit.
pub open spec fn spec_stress_of_head(sym: Seq<char>) -> Option<Stress> {
    if sym.len() == 1 {
        if sym[0] == '1' {
            Some(Stress::Stressed)
        } else if sym[0] == '2' {
            Some(Stress::SecondaryStress)
        } else if sym[0] == '3' {
            Some(Stress::Unstressed)
        } else if sym[0] == '4' {
            Some(Stress::ReducedStress)
        } else {
            None
        }
    } else {
        None
    }
}

/// Builds one syllable from its symbols (after the stress digit),
/// carrying the onset, nucleus and coda assembled so far: a vowel
/// becomes the nucleus, at most once; a consonant goes to the onset
/// before the nucleus and to the coda after it.
pub open spec fn spec_build_syllable(
    syms: Seq<Seq<char>>,
    i: int,
    acc: Seq<(Seq<char>, Phoneme)>,
    onset: Seq<Phoneme>,
    nucleus: Option<Phoneme>,
    coda: Seq<Phoneme>,
) -> Result<(Seq<Phoneme>, Phoneme, Seq<Phoneme>), ParseError>
    decreases syms.len() - i,
{
    if i < 0 || i >= syms.len() {
        match nucleus {
            Some(n) => Ok((onset, n, coda)),
            None => Err(ParseError::MissingNucleus),
        }
    } else {
        match spec_lookup(acc, syms[i]) {
            None => Err(ParseError::UnknownSymbol(syms[i])),
            Some(p) => if spec_is_vowel(p) {
                match nucleus {
                    Some(n) => Err(ParseError::DuplicateNucleus(n, syms[i])),
                    None => spec_build_syllable(syms, i + 1, acc, onset, Some(p), coda),
                }
            } else if nucleus is None {
                spec_build_syllable(syms, i + 1, acc, onset.push(p), nucleus, coda)
            } else {
                spec_build_syllable(syms, i + 1, acc, onset, nucleus, coda.push(p))
            },
        }
    }
}

/// Builds the syllables of a word from the grouped symbols, in order;
/// the first failure wins. Stress is recorded only when the word has
/// more than one syllable.
pub open spec fn spec_build_word(
    syls: Seq<Seq<Seq<char>>>,
    i: int,
    acc: Seq<(Seq<char>, Phoneme)>,
    multi: bool,
) -> Result<Seq<SyllableView>, ParseError>
    decreases syls.len() - i,
{
    if i < 0 || i >= syls.len() {
        Ok(Seq::empty())
    } else if syls[i].len() == 0 {
        Err(ParseError::MissingStress)
    } else {
        match spec_stress_of_head(syls[i][0]) {
            None => Err(ParseError::MissingStress),
            Some(stress) => match spec_build_syllable(
                syls[i],
                1,
                acc,
                Seq::empty(),
                None,
                Seq::empty(),
            ) {
                Err(e) => Err(e),
                Ok(parts) => match spec_build_word(syls, i + 1, acc, multi) {
                    Err(e) => Err(e),
                    Ok(rest) => Ok(
                        seq![
                            SyllableView {
                                onset: parts.0,
                                nucleus: parts.1,
                                coda: parts.2,
                                stress: if multi {
                                    Some(stress)
                                } else {
                                    None
                                },
                            },
                        ] + rest,
                    ),
                },
            },
        }
    }
}

/// The word a description denotes under an accent, or the first
/// failure of the single forward scan.
pub open spec fn spec_parse(acc: Seq<(Seq<char>, Phoneme)>, desc: Seq<char>) -> Result<
    Seq<SyllableView>,
    ParseError,
> {
    match spec_split(desc) {
        Err(e) => Err(e),
        Ok(syls) => spec_build_word(syls, 0, acc, syls.len() > 1),
    }
}

/// The human-readable message reported for each failure.
pub open spec fn spec_error_message(e: ParseError) -> Seq<char> {
    match e {
        ParseError::EmptyDescription => "BadSylStructure: empty string"@,
        ParseError::DanglingTie => "BadWordDesc: connector u/0361 given without following symbol"@,
        ParseError::MissingStress => "BadSylStructure: no stress information for syllable"@,
        ParseError::UnknownSymbol(sym) => "UnknownSymbol: "@ + sym + " not recognized in accent"@,
        ParseError::DuplicateNucleus(p, sym) => "BadSylStructure: two phonemes in syl: "@
            + spec_symbol(p) + "/"@ + sym,
        ParseError::MissingNucleus => "BadSylStructure: no nucleus in syllable"@,
    }
}

/// An error created during the construction of a word from a word
/// description string. The errors are contained in a single type and
/// differentiated by their message: the resolution to all of them is
/// to examine the input string.
#[derive(Debug)]
pub struct WordConstructorError {
    msg: String,
}

impl View for WordConstructorError {
    type V = Seq<char>;

    closed spec fn view(&self) -> Seq<char> {
        self.msg@
    }
}

impl WordConstructorError {
    /// Wraps a message into an error value.
    pub fn new(msg: &str) -> (r: WordConstructorError)
        ensures
            r@ == msg@,
    {
        WordConstructorError { msg: msg.to_owned() }
    }

    /// The human-readable description of the error.
    pub fn message(&self) -> (r: &str)
        ensures
            r@ == self@,
    {
        self.msg.as_str()
    }
}

/// Reads a string into the vector of its characters.
fn to_char_vec(s: &str) -> (r: Vec<char>)
    ensures
        r@ == s@,
{
    let n = s.unicode_len();
    let mut out: Vec<char> = Vec::new();
    let mut i: usize = 0;
    while i < n
        invariant
            i <= n,
            n == s@.len(),
            out@ == s@.take(i as int),
        decreases n - i,
    {
        out.push(s.get_char(i));
        i = i + 1;
        proof {
            assert(s@.take(i as int) =~= s@.take(i - 1).push(s@[i - 1]));
        }
    }
    proof {
        assert(s@.take(n as int) =~= s@);
    }
    out
}

/// The unit view of one scanned (boundary, symbol) pair.
pub open spec fn unit_view(u: (bool, String)) -> SymbolUnit {
    SymbolUnit { boundary: u.0, sym: u.1@ }
}

fn is_stress_char(c: char) -> (r: bool)
    ensures
        r == (is_ipa_stress_mark(c) || is_stress_digit(c)),
{
    c == 'ˈ' || c == 'ˌ' || c == '.' || c == '1' || c == '2' || c == '3' || c == '4'
}

fn normalize_stress_char(c: char) -> (r: char)
    ensures
        r == normalize_stress_mark(c),
{
    if c == 'ˈ' {
        '1'
    } else if c == 'ˌ' {
        '2'
    } else if c == '.' {
        '3'
    } else {
        c
    }
}

/// Splits a word description into its syllables, each a vector of
/// symbol strings opening with the syllable's stress digit; stress
/// marks are normalized to digits, and combining characters are
/// joined to their neighbors.
pub fn split_word_desc(word_desc: &str) -> (r: Result<Vec<Vec<String>>, WordConstructorError>)
    ensures
        match spec_split(word_desc@) {
            Ok(syls) => r matches Ok(v) && v.deep_view() == syls,
            Err(e) => r matches Err(er) && er@ == spec_error_message(e),
        },
{
    let chars = to_char_vec(word_desc);
    let n = chars.len();
    if n == 0 {
        return Err(WordConstructorError::new("BadSylStructure: empty string"));
    }
    let c0 = chars[0];
    let opened = is_stress_char(c0);
    let digit = if opened {
        normalize_stress_char(c0)
    } else {
        '3'
    };
    let mut i: usize = if opened {
        1
    } else {
        0
    };
    let ghost start = i as int;

    // Scan the description into symbol units.
    let mut units: Vec<(bool, String)> = Vec::new();
    proof {
        assert(units@.map_values(|u: (bool, String)| unit_view(u)) =~= Seq::<SymbolUnit>::empty());
    }
    while i < n
        invariant
            start <= i <= n,
            n == chars@.len(),
            chars@ == word_desc@,
            n > 0,
            start == (if is_ipa_stress_mark(chars@[0]) || is_stress_digit(chars@[0]) {
                1int
            } else {
                0int
            }),
            ({
                let done = units@.map_values(|u: (bool, String)| unit_view(u));
                match spec_units(chars@, i as int) {
                    Some(rest) => spec_units(chars@, start) == Some(done + rest),
                    None => spec_units(chars@, start) is None,
                }
            }),
        decreases n - i,
    {
        let ghost done_pre = units@.map_values(|u: (bool, String)| unit_view(u));
        let ghost i0 = i as int;
        let c = chars[i];
        let boundary = is_stress_char(c);
        let c_norm = normalize_stress_char(c);
        let ghost mut spec_unit = SymbolUnit { boundary: false, sym: Seq::empty() };
        let mut sym = String::new();
        push_char(&mut sym, c_norm);
        if i + 1 < n && chars[i + 1] == '\u{0361}' {
            if i + 2 < n {
                push_char(&mut sym, chars[i + 1]);
                push_char(&mut sym, chars[i + 2]);
                proof {
                    spec_unit = SymbolUnit {
                        boundary: is_ipa_stress_mark(chars@[i0]) || is_stress_digit(chars@[i0]),
                        sym: seq![
                            normalize_stress_mark(chars@[i0]),
                            chars@[i0 + 1],
                            chars@[i0 + 2],
                        ],
                    };
                    assert(sym@ =~= spec_unit.sym);
                }
                units.push((boundary, sym));
                i = i + 3;
            } else {
                proof {
                    assert(spec_units(chars@, i0) is None);
                }
                return Err(
                    WordConstructorError::new(
                        "BadWordDesc: connector u/0361 given without following symbol",
                    ),
                );
            }
        } else if i + 1 < n && chars[i + 1] == '\u{02DE}' {
            push_char(&mut sym, chars[i + 1]);
            proof {
                spec_unit = SymbolUnit {
                    boundary: is_ipa_stress_mark(chars@[i0]) || is_stress_digit(chars@[i0]),
                    sym: seq![normalize_stress_mark(chars@[i0]), chars@[i0 + 1]],
                };
                assert(sym@ =~= spec_unit.sym);
            }
            units.push((boundary, sym));
            i = i + 2;
        } else {
            proof {
                spec_unit = SymbolUnit {
                    boundary: is_ipa_stress_mark(chars@[i0]) || is_stress_digit(chars@[i0]),
                    sym: seq![normalize_stress_mark(chars@[i0])],
                };
                assert(sym@ =~= spec_unit.sym);
            }
            units.push((boundary, sym));
            i = i + 1;
        }
        proof {
            let done_post = units@.map_values(|u: (bool, String)| unit_view(u));
            let u_new = unit_view(units@.last());
            assert(u_new == spec_unit);
            assert(done_post =~= done_pre.push(u_new));
            match spec_units(chars@, i as int) {
                Some(rest) => {
                    assert(spec_units(chars@, i0) == Some(seq![spec_unit] + rest));
                    assert(done_pre + (seq![u_new] + rest) =~= done_post + rest);
                },
                None => {
                    assert(spec_units(chars@, i0) is None);
                },
            }
        }
    }
    proof {
        assert(spec_units(chars@, n as int) == Some(Seq::<SymbolUnit>::empty()));
        let done = units@.map_values(|u: (bool, String)| unit_view(u));
        assert(done + Seq::<SymbolUnit>::empty() =~= done);
        assert(spec_units(chars@, start) == Some(done));
    }

    // Group the units into syllables at the boundary symbols.
    let ghost all_units = units@.map_values(|u: (bool, String)| unit_view(u));
    let mut syls: Vec<Vec<String>> = Vec::new();
    let mut cur: Vec<String> = Vec::new();
    let mut digit_sym = String::new();
    push_char(&mut digit_sym, digit);
    cur.push(digit_sym);
    let mut j: usize = 0;
    proof {
        assert(cur.deep_view() =~= seq![seq![digit]]);
        assert(all_units.skip(0) =~= all_units);
        assert(syls.deep_view() + spec_group(all_units, cur.deep_view()) =~= spec_group(
            all_units,
            seq![seq![digit]],
        ));
    }
    while j < units.len()
        invariant
            j <= units@.len(),
            all_units == units@.map_values(|u: (bool, String)| unit_view(u)),
            all_units.len() == units@.len(),
            syls.deep_view() + spec_group(all_units.skip(j as int), cur.deep_view())
                == spec_group(all_units, seq![seq![digit]]),
        decreases units@.len() - j,
    {
        let ghost pre = all_units.skip(j as int);
        let ghost syls_pre = syls.deep_view();
        let ghost cur_pre = cur.deep_view();
        let boundary = units[j].0;
        let sym = units[j].1.clone();
        proof {
            assert(pre[0] == unit_view(units@[j as int]));
        }
        if boundary {
            syls.push(cur);
            cur = Vec::new();
            cur.push(sym);
            proof {
                assert(syls.deep_view() =~= syls_pre.push(cur_pre));
                assert(cur.deep_view() =~= seq![unit_view(units@[j as int]).sym]);
                assert(spec_group(pre, cur_pre) == seq![cur_pre] + spec_group(
                    pre.skip(1),
                    seq![unit_view(units@[j as int]).sym],
                ));
                assert(syls_pre.push(cur_pre) =~= syls_pre + seq![cur_pre]);
                assert((syls_pre + seq![cur_pre]) + spec_group(pre.skip(1), cur.deep_view())
                    =~= syls_pre + (seq![cur_pre] + spec_group(pre.skip(1), cur.deep_view())));
            }
        } else {
            cur.push(sym);
            proof {
                assert(cur.deep_view() =~= cur_pre.push(unit_view(units@[j as int]).sym));
                assert(spec_group(pre, cur_pre) == spec_group(pre.skip(1), cur.deep_view()));
            }
        }
        j = j + 1;
        proof {
            assert(pre.skip(1) =~= all_units.skip(j as int));
        }
    }
    syls.push(cur);
    proof {
        let ghost tail = all_units.skip(units@.len() as int);
        assert(tail =~= Seq::<SymbolUnit>::empty());
        assert(spec_group(tail, cur.deep_view()) == seq![cur.deep_view()]);
        assert(syls.deep_view() =~= spec_group(all_units, seq![seq![digit]]));
    }
    Ok(syls)
}

fn stress_of_head(head: &String) -> (r: Option<Stress>)
    ensures
        r == spec_stress_of_head(head@),
{
    let hs = head.as_str();
    if hs.unicode_len() != 1 {
        return None;
    }
    let c = hs.get_char(0);
    if c == '1' {
        Some(Stress::Stressed)
    } else if c == '2' {
        Some(Stress::SecondaryStress)
    } else if c == '3' {
        Some(Stress::Unstressed)
    } else if c == '4' {
        Some(Stress::ReducedStress)
    } else {
        None
    }
}

fn unknown_symbol_error(symbol: &String) -> (r: WordConstructorError)
    ensures
        r@ == spec_error_message(ParseError::UnknownSymbol(symbol@)),
{
    let mut msg = "UnknownSymbol: ".to_owned();
    msg.append(symbol.as_str());
    msg.append(" not recognized in accent");
    proof {
        assert(msg@ =~= spec_error_message(ParseError::UnknownSymbol(symbol@)));
    }
    WordConstructorError { msg }
}

fn duplicate_nucleus_error(existing: Phoneme, symbol: &String) -> (r: WordConstructorError)
    ensures
        r@ == spec_error_message(ParseError::DuplicateNucleus(existing, symbol@)),
{
    let mut msg = "BadSylStructure: two phonemes in syl: ".to_owned();
    let existing_sym = existing.symbol();
    msg.append(existing_sym.as_str());
    msg.append("/");
    msg.append(symbol.as_str());
    proof {
        assert(msg@ =~= spec_error_message(ParseError::DuplicateNucleus(existing, symbol@)));
    }
    WordConstructorError { msg }
}

/// from_accent constructs a word from a word description using an
/// accent's lookup table.
///
/// Stress information may be given with IPA stress marks (ˈ ˌ .) or
/// the digits 1–4 to mark stress levels and separate syllables. The
/// absence of a stress mark on the first syllable of a word is
/// interpreted as unstressed. Because there is no IPA symbol for
/// reduced stress, it must be marked with the digit 4.
///
/// For syllabization to work, every syllable of the description must
/// contain exactly one vowel, which becomes its nucleus.
///
/// Because lexical stress is only useful as a comparison between
/// syllables of the same word, a single-syllable word carries no
/// stress information.
#[verifier::loop_isolation(false)]
pub fn from_accent(accent: &Accent, word_desc: &str) -> (r: Result<Word, WordConstructorError>)
    ensures
        match spec_parse(accent@, word_desc@) {
            Ok(w) => r matches Ok(word) && word@ == w,
            Err(e) => r matches Err(er) && er@ == spec_error_message(e),
        },
{
    let syls_as_symbols = match split_word_desc(word_desc) {
        Ok(v) => v,
        Err(e) => {
            return Err(e);
        },
    };
    let ghost gsyls = syls_as_symbols.deep_view();
    let multi = syls_as_symbols.len() > 1;
    let mut syls: Vec<Syllable> = Vec::new();
    let mut k: usize = 0;
    proof {
        assert(syls@.map_values(|s: Syllable| s@) =~= Seq::<SyllableView>::empty());
    }
    while k < syls_as_symbols.len()
        invariant
            k <= gsyls.len(),
            gsyls == syls_as_symbols.deep_view(),
            gsyls.len() == syls_as_symbols@.len(),
            multi == (gsyls.len() > 1),
            spec_split(word_desc@) == Ok::<Seq<Seq<Seq<char>>>, ParseError>(gsyls),
            ({
                let built = syls@.map_values(|s: Syllable| s@);
                match spec_build_word(gsyls, k as int, accent@, multi) {
                    Ok(rest) => spec_build_word(gsyls, 0, accent@, multi) == Ok::<
                        Seq<SyllableView>,
                        ParseError,
                    >(built + rest),
                    Err(e) => spec_build_word(gsyls, 0, accent@, multi) == Err::<
                        Seq<SyllableView>,
                        ParseError,
                    >(e),
                }
            }),
        decreases gsyls.len() - k,
    {
        let ghost built_pre = syls@.map_values(|s: Syllable| s@);
        let ghost gsyl = gsyls[k as int];
        let syl = &syls_as_symbols[k];
        proof {
            assert(syl.deep_view() == gsyl);
            assert(syl@.len() == gsyl.len());
        }
        if syl.len() == 0 {
            return Err(WordConstructorError::new("BadSylStructure: no stress information for syllable"));
        }
        let stress = match stress_of_head(&syl[0]) {
            Some(stress) => stress,
            None => {
                proof {
                    assert(syl[0int]@ == gsyl[0]);
                }
                return Err(
                    WordConstructorError::new("BadSylStructure: no stress information for syllable"),
                );
            },
        };
        proof {
            assert(syl[0int]@ == gsyl[0]);
        }

        let mut onset: Vec<Phoneme> = Vec::new();
        let mut nucleus_maybe: Option<Phoneme> = None;
        let mut coda: Vec<Phoneme> = Vec::new();
        let mut m: usize = 1;
        while m < syl.len()
            invariant
                1 <= m <= gsyl.len(),
                gsyl == syl.deep_view(),
                gsyl.len() == syl@.len(),
                spec_build_syllable(gsyl, 1, accent@, Seq::empty(), None, Seq::empty())
                    == spec_build_syllable(
                    gsyl,
                    m as int,
                    accent@,
                    onset@,
                    nucleus_maybe,
                    coda@,
                ),
            decreases gsyl.len() - m,
        {
            let symbol = &syl[m];
            proof {
                assert(symbol@ == gsyl[m as int]);
            }
            let phoneme = match accent.lookup(symbol) {
                Some(phoneme) => phoneme,
                None => {
                    return Err(unknown_symbol_error(symbol));
                },
            };
            if crate::feature_classes::is_vowel(phoneme) {
                match nucleus_maybe {
                    Some(existing) => {
                        return Err(duplicate_nucleus_error(existing, symbol));
                    },
                    None => {
                        nucleus_maybe = Some(phoneme);
                    },
                }
            } else if nucleus_maybe.is_none() {
                onset.push(phoneme);
            } else {
                coda.push(phoneme);
            }
            m = m + 1;
        }
        let nucleus = match nucleus_maybe {
            Some(nucleus) => nucleus,
            None => {
                return Err(WordConstructorError::new("BadSylStructure: no nucleus in syllable"));
            },
        };
        let ghost parts = (onset@, nucleus, coda@);
        let new_syl = Syllable {
            onset,
            nucleus,
            coda,
            stress: if multi {
                Some(stress)
            } else {
                None
            },
        };
        proof {
            assert(spec_build_syllable(gsyl, 1, accent@, Seq::empty(), None, Seq::empty()) == Ok::<
                (Seq<Phoneme>, Phoneme, Seq<Phoneme>),
                ParseError,
            >(parts));
        }
        syls.push(new_syl);
        k = k + 1;
        proof {
            let built_post = syls@.map_values(|s: Syllable| s@);
            assert(built_post =~= built_pre.push(new_syl@));
            match spec_build_word(gsyls, k as int, accent@, multi) {
                Ok(rest) => {
                    assert(spec_build_word(gsyls, k - 1, accent@, multi) == Ok::<
                        Seq<SyllableView>,
                        ParseError,
                    >(seq![new_syl@] + rest));
                    assert(built_pre + (seq![new_syl@] + rest) =~= built_post + rest);
                },
                Err(_) => {},
            }
        }
    }
    proof {
        assert(spec_build_word(gsyls, gsyls.len() as int, accent@, multi) == Ok::<
            Seq<SyllableView>,
            ParseError,
        >(Seq::empty()));
        let built = syls@.map_values(|s: Syllable| s@);
        assert(built + Seq::<SyllableView>::empty() =~= built);
    }
    Ok(Word(syls))
}

proof fn lemma_build_word_shape(
    syls: Seq<Seq<Seq<char>>>,
    i: int,
    acc: Seq<(Seq<char>, Phoneme)>,
    multi: bool,
)
    requires
        0 <= i <= syls.len(),
    ensures
        spec_build_word(syls, i, acc, multi) matches Ok(rest) ==> {
            &&& rest.len() == syls.len() - i
            &&& forall|j: int|
                0 <= j < rest.len() ==> (#[trigger] rest[j].stress) == (if multi {
                    Some(spec_stress_of_head(syls[i + j][0]).unwrap())
                } else {
                    None::<Stress>
                })
        },
    decreases syls.len() - i,
{
    if i < syls.len() {
        lemma_build_word_shape(syls, i + 1, acc, multi);
    }
}

/// Lexical stress is a relative property across the syllables of one
/// word: a successfully parsed word of a single syllable carries no
/// stress, and every syllable of a longer word carries one.
pub proof fn lemma_single_syllable_stress_suppressed(
    acc: Seq<(Seq<char>, Phoneme)>,
    desc: Seq<char>,
)
    requires
        spec_parse(acc, desc) is Ok,
    ensures
        forall|j: int|
            0 <= j < spec_parse(acc, desc)->Ok_0.len() ==> ((#[trigger] spec_parse(
                acc,
                desc,
            )->Ok_0[j].stress) is Some <==> spec_parse(acc, desc)->Ok_0.len() > 1),
{
    let syls = spec_split(desc)->Ok_0;
    lemma_build_word_shape(syls, 0, acc, syls.len() > 1);
}

proof fn lemma_vowel_after_nucleus_fails(
    syms: Seq<Seq<char>>,
    i: int,
    acc: Seq<(Seq<char>, Phoneme)>,
    onset: Seq<Phoneme>,
    nucleus: Option<Phoneme>,
    coda: Seq<Phoneme>,
    k: int,
)
    requires
        0 <= i <= k < syms.len(),
        nucleus is Some,
        forall|m: int| i <= m < k ==> (#[trigger] spec_lookup(acc, syms[m])) is Some,
        spec_lookup(acc, syms[k]) is Some,
        spec_is_vowel(spec_lookup(acc, syms[k]).unwrap()),
    ensures
        spec_build_syllable(syms, i, acc, onset, nucleus, coda) matches Err(e) && e
            is DuplicateNucleus,
    decreases k - i,
{
    match spec_lookup(acc, syms[i]) {
        None => {
            assert(i < k);
            assert(spec_lookup(acc, syms[i]) is Some);
        },
        Some(p) => {
            if spec_is_vowel(p) {
            } else if i < k {
                lemma_vowel_after_nucleus_fails(syms, i + 1, acc, onset, nucleus, coda.push(p), k);
            }
        },
    }
}

/// A description whose syllable carries two vowel symbols cannot
/// parse: once a nucleus is set, a second vowel in the same syllable
/// is rejected as bad syllable structure.
pub proof fn lemma_duplicate_nucleus_rejected(
    syms: Seq<Seq<char>>,
    i: int,
    acc: Seq<(Seq<char>, Phoneme)>,
    onset: Seq<Phoneme>,
    nucleus: Option<Phoneme>,
    coda: Seq<Phoneme>,
    j: int,
    k: int,
)
    requires
        0 <= i <= j < k < syms.len(),
        forall|m: int| i <= m < k ==> (#[trigger] spec_lookup(acc, syms[m])) is Some,
        spec_lookup(acc, syms[j]) is Some,
        spec_is_vowel(spec_lookup(acc, syms[j]).unwrap()),
        spec_lookup(acc, syms[k]) is Some,
        spec_is_vowel(spec_lookup(acc, syms[k]).unwrap()),
    ensures
        spec_build_syllable(syms, i, acc, onset, nucleus, coda) matches Err(e) && e
            is DuplicateNucleus,
    decreases j - i,
{
    match spec_lookup(acc, syms[i]) {
        None => {
            assert(spec_lookup(acc, syms[i]) is Some);
        },
        Some(p) => {
            if spec_is_vowel(p) {
                match nucleus {
                    Some(_) => {},
                    None => {
                        if i == j {
                            lemma_vowel_after_nucleus_fails(
                                syms,
                                i + 1,
                                acc,
                                onset,
                                Some(p),
                                coda,
                                k,
                            );
                        } else {
                            lemma_vowel_after_nucleus_fails(
                                syms,
                                i + 1,
                                acc,
                                onset,
                                Some(p),
                                coda,
                                j,
                            );
                        }
                    },
                }
            } else {
                if i < j {
                    if nucleus is None {
                        lemma_duplicate_nucleus_rejected(
                            syms,
                            i + 1,
                            acc,
                            onset.push(p),
                            nucleus,
                            coda,
                            j,
                            k,
                        );
                    } else {
                        lemma_duplicate_nucleus_rejected(
                            syms,
                            i + 1,
                            acc,
                            onset,
                            nucleus,
                            coda.push(p),
                            j,
                            k,
                        );
                    }
                }
            }
        },
    }
}

/// A syllable that names a symbol absent from the accent cannot
/// build: the scan fails at or before the unknown symbol, and no
/// partial syllable is returned.
pub proof fn lemma_unknown_symbol_rejected(
    syms: Seq<Seq<char>>,
    i: int,
    acc: Seq<(Seq<char>, Phoneme)>,
    onset: Seq<Phoneme>,
    nucleus: Option<Phoneme>,
    coda: Seq<Phoneme>,
    u: int,
)
    requires
        0 <= i <= u < syms.len(),
        spec_lookup(acc, syms[u]) is None,
    ensures
        !(spec_build_syllable(syms, i, acc, onset, nucleus, coda) is Ok),
    decreases u - i,
{
    match spec_lookup(acc, syms[i]) {
        None => {},
        Some(p) => {
            if i < u {
                if spec_is_vowel(p) {
                    match nucleus {
                        Some(_) => {},
                        None => {
                            lemma_unknown_symbol_rejected(
                                syms,
                                i + 1,
                                acc,
                                onset,
                                Some(p),
                                coda,
                                u,
                            );
                        },
                    }
                } else if nucleus is None {
                    lemma_unknown_symbol_rejected(syms, i + 1, acc, onset.push(p), nucleus, coda, u);
                } else {
                    lemma_unknown_symbol_rejected(syms, i + 1, acc, onset, nucleus, coda.push(p), u);
                }
            }
        },
    }
}

proof fn lemma_build_word_syllable_fails(
    syls: Seq<Seq<Seq<char>>>,
    i: int,
    acc: Seq<(Seq<char>, Phoneme)>,
    multi: bool,
    si: int,
)
    requires
        0 <= i <= si < syls.len(),
        !(spec_build_syllable(syls[si], 1, acc, Seq::empty(), None, Seq::empty()) is Ok),
    ensures
        !(spec_build_word(syls, i, acc, multi) is Ok),
    decreases si - i,
{
    if i < si {
        lemma_build_word_syllable_fails(syls, i + 1, acc, multi, si);
    } else {
        if syls[i].len() == 0 {
        } else {
            match spec_stress_of_head(syls[i][0]) {
                None => {},
                Some(_) => {},
            }
        }
    }
}

/// A description containing a symbol that the accent does not know
/// cannot parse into a word: the parse fails, and no partial word is
/// returned.
pub proof fn lemma_unknown_symbol_fails_word(
    acc: Seq<(Seq<char>, Phoneme)>,
    desc: Seq<char>,
    si: int,
    u: int,
)
    requires
        spec_split(desc) is Ok,
        0 <= si < spec_split(desc)->Ok_0.len(),
        1 <= u < spec_split(desc)->Ok_0[si].len(),
        spec_lookup(acc, spec_split(desc)->Ok_0[si][u]) is None,
    ensures
        !(spec_parse(acc, desc) is Ok),
{
    let syls = spec_split(desc)->Ok_0;
    lemma_unknown_symbol_rejected(
        syls[si],
        1,
        acc,
        Seq::empty(),
        None,
        Seq::empty(),
        u,
    );
    lemma_build_word_syllable_fails(syls, 0, acc, syls.len() > 1, si);
}

/// Whether a character plays no special role in a word description:
/// it is not a stress mark, not a stress digit, and not a combining
/// character.
pub open spec fn clean_char(c: char) -> bool {
    !is_ipa_stress_mark(c) && !is_stress_digit(c) && c != tie_bar() && c != rhotic_hook()
}

/// Whether every character of a phoneme's own symbol is clean.
pub open spec fn clean_phoneme(p: Phoneme) -> bool {
    match p {
        Phoneme::Monosegment(s) => clean_char(s.symbol),
        Phoneme::Disegment(s1, s2) => clean_char(s1.symbol) && clean_char(s2.symbol),
    }
}

/// Whether a phoneme survives a round trip through its accent: its
/// symbol is made of clean characters, and looking that symbol up in
/// the accent yields the phoneme itself.
pub open spec fn phoneme_round_trips(acc: Seq<(Seq<char>, Phoneme)>, p: Phoneme) -> bool {
    clean_phoneme(p) && spec_lookup(acc, spec_symbol(p)) == Some(p)
}

/// Whether a parsed syllable renders back faithfully: its nucleus is
/// a vowel, its onset and coda are consonants, and every phoneme in
/// it round-trips through the accent.
pub open spec fn syllable_round_trips(acc: Seq<(Seq<char>, Phoneme)>, v: SyllableView) -> bool {
    &&& spec_is_vowel(v.nucleus)
    &&& phoneme_round_trips(acc, v.nucleus)
    &&& forall|q: int|
        0 <= q < v.onset.len() ==> !spec_is_vowel(#[trigger] v.onset[q]) && phoneme_round_trips(
            acc,
            v.onset[q],
        )
    &&& forall|q: int|
        0 <= q < v.coda.len() ==> !spec_is_vowel(#[trigger] v.coda[q]) && phoneme_round_trips(
            acc,
            v.coda[q],
        )
}

proof fn lemma_units_shift(s1: Seq<char>, s2: Seq<char>, i: int)
    requires
        0 <= i,
    ensures
        spec_units(s1 + s2, s1.len() + i) == spec_units(s2, i),
    decreases s2.len() - i,
{
    let s = s1 + s2;
    if i < s2.len() {
        if i + 1 < s2.len() && s2[i + 1] == tie_bar() {
            if i + 2 < s2.len() {
                lemma_units_shift(s1, s2, i + 3);
            }
        } else if i + 1 < s2.len() && s2[i + 1] == rhotic_hook() {
            lemma_units_shift(s1, s2, i + 2);
        } else {
            lemma_units_shift(s1, s2, i + 1);
        }
    }
}

proof fn lemma_units_concat(a: Seq<char>, b: Seq<char>)
    requires
        spec_units(a, 0) is Some,
        b.len() > 0 ==> b[0] != tie_bar() && b[0] != rhotic_hook(),
    ensures
        spec_units(a + b, 0) == match spec_units(b, 0) {
            Some(ub) => Some(spec_units(a, 0).unwrap() + ub),
            None => None::<Seq<SymbolUnit>>,
        },
    decreases a.len(),
{
    let s = a + b;
    if a.len() == 0 {
        assert(s =~= b);
        match spec_units(b, 0) {
            Some(ub) => {
                assert(spec_units(a, 0).unwrap() + ub =~= ub);
            },
            None => {},
        }
    } else {
        let consumed: int = if a.len() >= 2 && a[1] == tie_bar() {
            3
        } else if a.len() >= 2 && a[1] == rhotic_hook() {
            2
        } else {
            1
        };
        if a.len() >= 2 && a[1] == tie_bar() && a.len() == 2 {
            // a standalone scan would be dangling, contradicting the
            // precondition
            assert(!(spec_units(a, 0) is Some));
        }
        assert(consumed <= a.len());
        // the two scans read the same characters and form the same
        // first unit
        assert(s.len() == a.len() + b.len());
        if a.len() == 1 {
            if b.len() > 0 {
                assert(s[1] == b[0]);
            }
        }
        let a_rest = a.skip(consumed);
        // align the remainder of the standalone scan
        assert(a =~= a.take(consumed) + a_rest);
        lemma_units_shift(a.take(consumed), a_rest, 0);
        assert(a.take(consumed).len() == consumed);
        assert(spec_units(a, consumed) == spec_units(a_rest, 0));
        // align the remainder of the combined scan
        assert(s =~= a.take(consumed) + (a_rest + b));
        lemma_units_shift(a.take(consumed), a_rest + b, 0);
        assert(spec_units(s, consumed) == spec_units(a_rest + b, 0));
        lemma_units_concat(a_rest, b);
        let ua = spec_units(a, 0).unwrap();
        let ra = spec_units(a_rest, 0).unwrap();
        let u0 = ua[0];
        assert(ua =~= seq![ua[0]] + ra);
        match spec_units(b, 0) {
            Some(ub) => {
                assert(spec_units(a_rest + b, 0) == Some(ra + ub));
                assert(seq![u0] + (ra + ub) =~= (seq![u0] + ra) + ub);
                assert(spec_units(s, 0) == Some(ua + ub));
            },
            None => {
                assert(spec_units(a_rest + b, 0) is None);
                assert(spec_units(s, 0) is None);
            },
        }
    }
}

/// The single scanned unit of one clean phoneme's symbol.
pub open spec fn phoneme_unit(p: Phoneme) -> SymbolUnit {
    SymbolUnit { boundary: false, sym: spec_symbol(p) }
}

proof fn lemma_units_of_symbol(p: Phoneme)
    requires
        clean_phoneme(p),
    ensures
        spec_units(spec_symbol(p), 0) == Some(seq![phoneme_unit(p)]),
        spec_symbol(p).len() > 0,
        clean_char(spec_symbol(p)[0]),
{
    let s = spec_symbol(p);
    match p {
        Phoneme::Monosegment(seg) => {
            assert(s.len() == 1);
            assert(normalize_stress_mark(s[0]) == s[0]);
            assert(spec_units(s, 1) == Some(Seq::<SymbolUnit>::empty()));
            assert(seq![normalize_stress_mark(s[0])] =~= s);
            assert(seq![SymbolUnit { boundary: false, sym: s }] + Seq::<SymbolUnit>::empty()
                =~= seq![phoneme_unit(p)]);
        },
        Phoneme::Disegment(s1, s2) => {
            assert(s.len() == 3);
            assert(s[1] == tie_bar());
            assert(normalize_stress_mark(s[0]) == s[0]);
            assert(spec_units(s, 3) == Some(Seq::<SymbolUnit>::empty()));
            assert(seq![normalize_stress_mark(s[0]), s[1], s[2]] =~= s);
            assert(seq![SymbolUnit { boundary: false, sym: s }] + Seq::<SymbolUnit>::empty()
                =~= seq![phoneme_unit(p)]);
        },
    }
}

/// The scanned units of a run of clean phonemes' symbols.
pub open spec fn phoneme_units(ps: Seq<Phoneme>) -> Seq<SymbolUnit> {
    ps.map_values(|p: Phoneme| phoneme_unit(p))
}

proof fn lemma_units_of_phonemes(ps: Seq<Phoneme>)
    requires
        forall|q: int| 0 <= q < ps.len() ==> clean_phoneme(#[trigger] ps[q]),
    ensures
        spec_units(spec_phonemes_symbols(ps), 0) == Some(phoneme_units(ps)),
        ps.len() > 0 ==> spec_phonemes_symbols(ps).len() > 0 && clean_char(
            spec_phonemes_symbols(ps)[0],
        ),
    decreases ps.len(),
{
    if ps.len() == 0 {
        assert(phoneme_units(ps) =~= Seq::<SymbolUnit>::empty());
    } else {
        let p0 = ps[0];
        let rest = ps.skip(1);
        lemma_units_of_symbol(p0);
        lemma_units_of_phonemes(rest);
        let rest_syms = spec_phonemes_symbols(rest);
        lemma_units_concat(spec_symbol(p0), rest_syms);
        assert(spec_phonemes_symbols(ps) == spec_symbol(p0) + rest_syms);
        assert(seq![phoneme_unit(p0)] + phoneme_units(rest) =~= phoneme_units(ps));
        assert(spec_phonemes_symbols(ps)[0] == spec_symbol(p0)[0]);
    }
}

/// The digit a syllable's separator normalizes to when the rendering
/// is read back.
pub open spec fn reparsed_digit(v: SyllableView) -> char {
    normalize_stress_mark(spec_separator(v))
}

/// The scanned units of a rendered run of syllables, each preceded by
/// its separator.
pub open spec fn tail_units(w: Seq<SyllableView>) -> Seq<SymbolUnit>
    decreases w.len(),
{
    if w.len() == 0 {
        Seq::empty()
    } else {
        seq![SymbolUnit { boundary: true, sym: seq![reparsed_digit(w[0])] }] + phoneme_units(
            spec_syl_phonemes(w[0]),
        ) + tail_units(w.skip(1))
    }
}

proof fn lemma_units_of_tail(acc: Seq<(Seq<char>, Phoneme)>, w: Seq<SyllableView>)
    requires
        forall|i: int| 0 <= i < w.len() ==> syllable_round_trips(acc, #[trigger] w[i]),
    ensures
        spec_units(spec_render_tail(w), 0) == Some(tail_units(w)),
        spec_render_tail(w).len() > 0 ==> is_ipa_stress_mark(spec_render_tail(w)[0]),
    decreases w.len(),
{
    if w.len() == 0 {
    } else {
        let v = w[0];
        let sep = spec_separator(v);
        let ps = spec_syl_phonemes(v);
        let syl_syms = spec_syl_symbols(v);
        let rest_render = spec_render_tail(w.skip(1));
        assert(is_ipa_stress_mark(sep));
        assert forall|q: int| 0 <= q < ps.len() implies clean_phoneme(#[trigger] ps[q]) by {
            assert(ps =~= v.onset + seq![v.nucleus] + v.coda);
            if q < v.onset.len() {
                assert(ps[q] == v.onset[q]);
            } else if q == v.onset.len() {
                assert(ps[q] == v.nucleus);
            } else {
                assert(ps[q] == v.coda[q - v.onset.len() - 1]);
            }
        }
        assert(ps.len() > 0) by {
            assert(ps =~= v.onset + seq![v.nucleus] + v.coda);
        }
        lemma_units_of_phonemes(ps);
        lemma_units_of_tail(acc, w.skip(1));
        // scan of the separator alone
        let sep_seq = seq![sep];
        let sep_unit = SymbolUnit { boundary: true, sym: seq![reparsed_digit(v)] };
        assert(spec_units(sep_seq, 1) == Some(Seq::<SymbolUnit>::empty()));
        assert(seq![normalize_stress_mark(sep)] =~= seq![reparsed_digit(v)]);
        assert(spec_units(sep_seq, 0) == Some(seq![sep_unit] + Seq::<SymbolUnit>::empty()));
        assert(seq![sep_unit] + Seq::<SymbolUnit>::empty() =~= seq![sep_unit]);
        // the phoneme symbols followed by the rendering of the rest
        if w.skip(1).len() > 0 {
            assert(rest_render.len() > 0);
            assert(!(rest_render[0] == tie_bar()) && !(rest_render[0] == rhotic_hook()));
        }
        lemma_units_concat(syl_syms, rest_render);
        let mid_units = phoneme_units(ps) + tail_units(w.skip(1));
        assert(spec_units(syl_syms + rest_render, 0) == Some(mid_units));
        // and the separator in front of everything
        assert(syl_syms.len() > 0);
        assert(clean_char((syl_syms + rest_render)[0]));
        lemma_units_concat(sep_seq, syl_syms + rest_render);
        assert(spec_render_tail(w) == sep_seq + syl_syms + rest_render);
        assert(sep_seq + (syl_syms + rest_render) =~= sep_seq + syl_syms + rest_render);
        assert(spec_units(spec_render_tail(w), 0) == Some(seq![sep_unit] + mid_units));
        assert(seq![sep_unit] + mid_units =~= tail_units(w));
        assert(spec_render_tail(w)[0] == sep);
    }
}

/// The grouped symbols expected when a rendered word is read back:
/// one syllable per rendered syllable, opening with its normalized
/// stress digit, followed by the symbols of its phonemes.
pub open spec fn expected_syllables(w: Seq<SyllableView>) -> Seq<Seq<Seq<char>>> {
    w.map_values(
        |v: SyllableView|
            seq![seq![reparsed_digit(v)]] + spec_syl_phonemes(v).map_values(
                |p: Phoneme| spec_symbol(p),
            ),
    )
}

proof fn lemma_group_phonemes(ps: Seq<Phoneme>, rest: Seq<SymbolUnit>, cur: Seq<Seq<char>>)
    ensures
        spec_group(phoneme_units(ps) + rest, cur) == spec_group(
            rest,
            cur + ps.map_values(|p: Phoneme| spec_symbol(p)),
        ),
    decreases ps.len(),
{
    if ps.len() == 0 {
        assert(phoneme_units(ps) + rest =~= rest);
        assert(cur + ps.map_values(|p: Phoneme| spec_symbol(p)) =~= cur);
    } else {
        let units = phoneme_units(ps) + rest;
        assert(units.len() > 0);
        assert(units[0] == phoneme_unit(ps[0]));
        assert(!units[0].boundary);
        assert(units.skip(1) =~= phoneme_units(ps.skip(1)) + rest);
        lemma_group_phonemes(ps.skip(1), rest, cur.push(spec_symbol(ps[0])));
        assert(cur.push(spec_symbol(ps[0])) + ps.skip(1).map_values(|p: Phoneme| spec_symbol(p))
            =~= cur + ps.map_values(|p: Phoneme| spec_symbol(p)));
    }
}

proof fn lemma_group_tail(w: Seq<SyllableView>, cur: Seq<Seq<char>>)
    ensures
        spec_group(tail_units(w), cur) == seq![cur] + expected_syllables(w),
    decreases w.len(),
{
    if w.len() == 0 {
        assert(seq![cur] + expected_syllables(w) =~= seq![cur]);
    } else {
        let v = w[0];
        let units = tail_units(w);
        let head_sym = seq![reparsed_digit(v)];
        assert(units[0] == SymbolUnit { boundary: true, sym: head_sym });
        assert(units[0].boundary);
        assert(units.skip(1) =~= phoneme_units(spec_syl_phonemes(v)) + tail_units(w.skip(1)));
        lemma_group_phonemes(spec_syl_phonemes(v), tail_units(w.skip(1)), seq![head_sym]);
        lemma_group_tail(w.skip(1), seq![head_sym] + spec_syl_phonemes(v).map_values(
            |p: Phoneme| spec_symbol(p),
        ));
        assert(expected_syllables(w) =~= seq![
            seq![head_sym] + spec_syl_phonemes(v).map_values(|p: Phoneme| spec_symbol(p)),
        ] + expected_syllables(w.skip(1)));
        assert(seq![cur] + (seq![
            seq![head_sym] + spec_syl_phonemes(v).map_values(|p: Phoneme| spec_symbol(p)),
        ] + expected_syllables(w.skip(1))) =~= seq![cur] + expected_syllables(w));
    }
}

proof fn lemma_rebuild_coda(
    syms: Seq<Seq<char>>,
    i: int,
    acc: Seq<(Seq<char>, Phoneme)>,
    onset: Seq<Phoneme>,
    nucleus: Phoneme,
    coda_acc: Seq<Phoneme>,
    coda_rest: Seq<Phoneme>,
)
    requires
        0 <= i,
        syms.len() - i == coda_rest.len(),
        forall|q: int| 0 <= q < coda_rest.len() ==> syms[i + q] == spec_symbol(#[trigger] coda_rest[q]),
        forall|q: int|
            0 <= q < coda_rest.len() ==> !spec_is_vowel(#[trigger] coda_rest[q])
                && phoneme_round_trips(acc, coda_rest[q]),
    ensures
        spec_build_syllable(syms, i, acc, onset, Some(nucleus), coda_acc) == Ok::<
            (Seq<Phoneme>, Phoneme, Seq<Phoneme>),
            ParseError,
        >((onset, nucleus, coda_acc + coda_rest)),
    decreases coda_rest.len(),
{
    if coda_rest.len() == 0 {
        assert(coda_acc + coda_rest =~= coda_acc);
    } else {
        let c0 = coda_rest[0];
        assert(syms[i] == spec_symbol(c0));
        assert(spec_lookup(acc, syms[i]) == Some(c0));
        lemma_rebuild_coda(syms, i + 1, acc, onset, nucleus, coda_acc.push(c0), coda_rest.skip(1));
        assert(coda_acc.push(c0) + coda_rest.skip(1) =~= coda_acc + coda_rest);
    }
}

proof fn lemma_rebuild_onset(
    syms: Seq<Seq<char>>,
    i: int,
    acc: Seq<(Seq<char>, Phoneme)>,
    onset_acc: Seq<Phoneme>,
    onset_rest: Seq<Phoneme>,
    nucleus: Phoneme,
    coda: Seq<Phoneme>,
)
    requires
        0 <= i,
        syms.len() - i == onset_rest.len() + 1 + coda.len(),
        forall|q: int|
            0 <= q < onset_rest.len() ==> syms[i + q] == spec_symbol(#[trigger] onset_rest[q]),
        syms[i + onset_rest.len()] == spec_symbol(nucleus),
        forall|q: int|
            0 <= q < coda.len() ==> syms[i + onset_rest.len() + 1 + q] == spec_symbol(
                #[trigger] coda[q],
            ),
        forall|q: int|
            0 <= q < onset_rest.len() ==> !spec_is_vowel(#[trigger] onset_rest[q])
                && phoneme_round_trips(acc, onset_rest[q]),
        spec_is_vowel(nucleus),
        phoneme_round_trips(acc, nucleus),
        forall|q: int|
            0 <= q < coda.len() ==> !spec_is_vowel(#[trigger] coda[q]) && phoneme_round_trips(
                acc,
                coda[q],
            ),
    ensures
        spec_build_syllable(syms, i, acc, onset_acc, None, Seq::empty()) == Ok::<
            (Seq<Phoneme>, Phoneme, Seq<Phoneme>),
            ParseError,
        >((onset_acc + onset_rest, nucleus, coda)),
    decreases onset_rest.len(),
{
    if onset_rest.len() == 0 {
        assert(syms[i] == spec_symbol(nucleus));
        assert(spec_lookup(acc, syms[i]) == Some(nucleus));
        lemma_rebuild_coda(syms, i + 1, acc, onset_acc, nucleus, Seq::empty(), coda);
        assert(Seq::<Phoneme>::empty() + coda =~= coda);
        assert(onset_acc + onset_rest =~= onset_acc);
    } else {
        let p0 = onset_rest[0];
        assert(syms[i] == spec_symbol(p0));
        assert(spec_lookup(acc, syms[i]) == Some(p0));
        lemma_rebuild_onset(
            syms,
            i + 1,
            acc,
            onset_acc.push(p0),
            onset_rest.skip(1),
            nucleus,
            coda,
        );
        assert(onset_acc.push(p0) + onset_rest.skip(1) =~= onset_acc + onset_rest);
    }
}

/// The stress a rendered syllable reads back as: its separator's
/// digit, so the two high levels survive and both low levels read
/// back as unstressed.
pub open spec fn reparsed_stress(v: SyllableView) -> Stress {
    match v.stress {
        Some(Stress::Stressed) => Stress::Stressed,
        Some(Stress::SecondaryStress) => Stress::SecondaryStress,
        _ => Stress::Unstressed,
    }
}

proof fn lemma_rebuild_syllable(
    acc: Seq<(Seq<char>, Phoneme)>,
    v: SyllableView,
    syl: Seq<Seq<char>>,
)
    requires
        syllable_round_trips(acc, v),
        syl == seq![seq![reparsed_digit(v)]] + spec_syl_phonemes(v).map_values(
            |p: Phoneme| spec_symbol(p),
        ),
    ensures
        syl.len() > 0,
        spec_stress_of_head(syl[0]) == Some(reparsed_stress(v)),
        spec_build_syllable(syl, 1, acc, Seq::empty(), None, Seq::empty()) == Ok::<
            (Seq<Phoneme>, Phoneme, Seq<Phoneme>),
            ParseError,
        >((v.onset, v.nucleus, v.coda)),
{
    let ps = spec_syl_phonemes(v);
    let psyms = ps.map_values(|p: Phoneme| spec_symbol(p));
    assert(syl[0] == seq![reparsed_digit(v)]);
    assert(syl[0].len() == 1);
    assert(spec_stress_of_head(syl[0]) == Some(reparsed_stress(v)));
    assert(ps =~= v.onset + seq![v.nucleus] + v.coda);
    assert forall|q: int| 0 <= q < v.onset.len() implies syl[1 + q] == spec_symbol(
        #[trigger] v.onset[q],
    ) by {
        assert(psyms[q] == spec_symbol(ps[q]));
        assert(ps[q] == v.onset[q]);
    }
    assert(syl[1 + v.onset.len() as int] == spec_symbol(v.nucleus)) by {
        assert(psyms[v.onset.len() as int] == spec_symbol(ps[v.onset.len() as int]));
        assert(ps[v.onset.len() as int] == v.nucleus);
    }
    assert forall|q: int| 0 <= q < v.coda.len() implies syl[1 + v.onset.len() as int + 1 + q]
        == spec_symbol(#[trigger] v.coda[q]) by {
        assert(psyms[v.onset.len() + 1 + q] == spec_symbol(ps[v.onset.len() + 1 + q]));
        assert(ps[v.onset.len() + 1 + q] == v.coda[q]);
    }
    lemma_rebuild_onset(syl, 1, acc, Seq::empty(), v.onset, v.nucleus, v.coda);
    assert(Seq::<Phoneme>::empty() + v.onset =~= v.onset);
}

/// A syllable view with its stress replaced by what the rendering
/// reads back: the rendered mark's stress when the word is
/// multi-syllabic, nothing otherwise.
pub open spec fn with_reparsed_stress(v: SyllableView, multi: bool) -> SyllableView {
    SyllableView {
        stress: if multi {
            Some(reparsed_stress(v))
        } else {
            None
        },
        ..v
    }
}

proof fn lemma_rebuild_word(
    acc: Seq<(Seq<char>, Phoneme)>,
    w: Seq<SyllableView>,
    i: int,
    multi: bool,
)
    requires
        0 <= i <= w.len(),
        forall|j: int| 0 <= j < w.len() ==> syllable_round_trips(acc, #[trigger] w[j]),
    ensures
        spec_build_word(expected_syllables(w), i, acc, multi) matches Ok(rest) && rest.len()
            == w.len() - i && (forall|j: int|
            0 <= j < w.len() - i ==> (#[trigger] rest[j]) == with_reparsed_stress(
                w[i + j],
                multi,
            )),
    decreases w.len() - i,
{
    let syls = expected_syllables(w);
    assert(syls.len() == w.len());
    if i < w.len() {
        let v = w[i];
        assert(syls[i] == seq![seq![reparsed_digit(v)]] + spec_syl_phonemes(v).map_values(
            |p: Phoneme| spec_symbol(p),
        ));
        lemma_rebuild_syllable(acc, v, syls[i]);
        lemma_rebuild_word(acc, w, i + 1, multi);
        let rest_next = spec_build_word(syls, i + 1, acc, multi)->Ok_0;
        let built = SyllableView {
            onset: v.onset,
            nucleus: v.nucleus,
            coda: v.coda,
            stress: if multi {
                Some(reparsed_stress(v))
            } else {
                None
            },
        };
        let rest = spec_build_word(syls, i, acc, multi)->Ok_0;
        assert(rest =~= seq![built] + rest_next);
        assert(built == with_reparsed_stress(v, multi));
        assert forall|j: int| 0 <= j < w.len() - i implies (#[trigger] rest[j])
            == with_reparsed_stress(w[i + j], multi) by {
            if j == 0 {
            } else {
                assert(rest[j] == rest_next[j - 1]);
            }
        }
    }
}

/// Rendering a well-formed word of at least two syllables and parsing
/// the rendering back yields a word with the same number of
/// syllables, the same onset, nucleus and coda in each, and each
/// stress read back from the rendered mark (so both low stress levels
/// read back as unstressed).
pub proof fn lemma_symbols_round_trip(acc: Seq<(Seq<char>, Phoneme)>, w: Seq<SyllableView>)
    requires
        w.len() >= 2,
        forall|i: int| 0 <= i < w.len() ==> syllable_round_trips(acc, #[trigger] w[i]),
    ensures
        spec_parse(acc, spec_word_symbols(w)) matches Ok(w2) && w2.len() == w.len() && forall|
            i: int,
        |
            0 <= i < w.len() ==> (#[trigger] w2[i]).onset == w[i].onset && w2[i].nucleus
                == w[i].nucleus && w2[i].coda == w[i].coda && w2[i].stress == Some(
                reparsed_stress(w[i]),
            ),
{
    let rendered = spec_word_symbols(w);
    let v0 = w[0];
    let ps0 = spec_syl_phonemes(v0);
    let syl0_syms = spec_syl_symbols(v0);
    let rest_render = spec_render_tail(w.skip(1));
    assert(ps0 =~= v0.onset + seq![v0.nucleus] + v0.coda);
    assert forall|q: int| 0 <= q < ps0.len() implies clean_phoneme(#[trigger] ps0[q]) by {
        if q < v0.onset.len() {
            assert(ps0[q] == v0.onset[q]);
        } else if q == v0.onset.len() {
            assert(ps0[q] == v0.nucleus);
        } else {
            assert(ps0[q] == v0.coda[q - v0.onset.len() - 1]);
        }
    }
    lemma_units_of_phonemes(ps0);
    assert forall|j: int| 0 <= j < w.skip(1).len() implies syllable_round_trips(
        acc,
        #[trigger] w.skip(1)[j],
    ) by {
        assert(w.skip(1)[j] == w[j + 1]);
    }
    lemma_units_of_tail(acc, w.skip(1));
    assert(w.skip(1).len() > 0);
    assert(rest_render.len() > 0) by {
        assert(spec_render_tail(w.skip(1)) == seq![spec_separator(w.skip(1)[0])]
            + spec_syl_symbols(w.skip(1)[0]) + spec_render_tail(w.skip(1).skip(1)));
    }
    assert(!(rest_render[0] == tie_bar()) && !(rest_render[0] == rhotic_hook()));
    lemma_units_concat(syl0_syms, rest_render);
    let mid_units = phoneme_units(ps0) + tail_units(w.skip(1));
    assert(spec_units(syl0_syms + rest_render, 0) == Some(mid_units));
    let sep0 = spec_separator(v0);
    let digit0 = reparsed_digit(v0);

    if sep0 == '.' {
        assert(rendered == syl0_syms + rest_render);
        assert(rendered.len() > 0);
        assert(syl0_syms.len() > 0);
        assert(rendered[0] == syl0_syms[0]);
        assert(clean_char(rendered[0]));
        assert(!(is_ipa_stress_mark(rendered[0]) || is_stress_digit(rendered[0])));
        assert(spec_units(rendered, 0) == Some(mid_units));
        assert(digit0 == '3');
        lemma_group_phonemes(ps0, tail_units(w.skip(1)), seq![seq![digit0]]);
        lemma_group_tail(w.skip(1), seq![seq![digit0]] + ps0.map_values(
            |p: Phoneme| spec_symbol(p),
        ));
        assert(spec_split(rendered) == Ok::<Seq<Seq<Seq<char>>>, ParseError>(
            spec_group(mid_units, seq![seq!['3']]),
        ));
        assert(seq![seq!['3']] =~= seq![seq![digit0]]);
        assert(spec_group(mid_units, seq![seq![digit0]]) == seq![
            seq![seq![digit0]] + ps0.map_values(|p: Phoneme| spec_symbol(p)),
        ] + expected_syllables(w.skip(1)));
        assert(seq![seq![seq![digit0]] + ps0.map_values(|p: Phoneme| spec_symbol(p))]
            + expected_syllables(w.skip(1)) =~= expected_syllables(w));
    } else {
        assert(is_ipa_stress_mark(sep0));
        assert(rendered == spec_render_tail(w));
        assert(spec_render_tail(w) == seq![sep0] + syl0_syms + rest_render);
        assert(rendered.len() > 0);
        assert(rendered[0] == sep0);
        assert(seq![sep0] + syl0_syms + rest_render =~= seq![sep0] + (syl0_syms + rest_render));
        lemma_units_shift(seq![sep0], syl0_syms + rest_render, 0);
        assert(spec_units(rendered, 1) == Some(mid_units));
        lemma_group_phonemes(ps0, tail_units(w.skip(1)), seq![seq![digit0]]);
        lemma_group_tail(w.skip(1), seq![seq![digit0]] + ps0.map_values(
            |p: Phoneme| spec_symbol(p),
        ));
        assert(normalize_stress_mark(rendered[0]) == digit0);
        assert(spec_split(rendered) == Ok::<Seq<Seq<Seq<char>>>, ParseError>(
            spec_group(mid_units, seq![seq![digit0]]),
        ));
        assert(spec_group(mid_units, seq![seq![digit0]]) == seq![
            seq![seq![digit0]] + ps0.map_values(|p: Phoneme| spec_symbol(p)),
        ] + expected_syllables(w.skip(1)));
        assert(seq![seq![seq![digit0]] + ps0.map_values(|p: Phoneme| spec_symbol(p))]
            + expected_syllables(w.skip(1)) =~= expected_syllables(w));
    }
    assert(spec_split(rendered) == Ok::<Seq<Seq<Seq<char>>>, ParseError>(expected_syllables(w)));
    assert(expected_syllables(w).len() == w.len());
    lemma_rebuild_word(acc, w, 0, true);
    let w2 = spec_parse(acc, rendered)->Ok_0;
    assert forall|i: int| 0 <= i < w.len() implies (#[trigger] w2[i]).onset == w[i].onset
        && w2[i].nucleus == w[i].nucleus && w2[i].coda == w[i].coda && w2[i].stress == Some(
        reparsed_stress(w[i]),
    ) by {
        assert(w2[i] == with_reparsed_stress(w[0 + i], true));
    }
}

proof fn lemma_build_syllable_classified(
    syms: Seq<Seq<char>>,
    i: int,
    acc: Seq<(Seq<char>, Phoneme)>,
    onset: Seq<Phoneme>,
    nucleus: Option<Phoneme>,
    coda: Seq<Phoneme>,
)
    requires
        0 <= i,
        forall|q: int| 0 <= q < onset.len() ==> !spec_is_vowel(#[trigger] onset[q]),
        nucleus matches Some(n) ==> spec_is_vowel(n),
        forall|q: int| 0 <= q < coda.len() ==> !spec_is_vowel(#[trigger] coda[q]),
    ensures
        spec_build_syllable(syms, i, acc, onset, nucleus, coda) matches Ok(parts) ==> {
            &&& spec_is_vowel(parts.1)
            &&& forall|q: int| 0 <= q < parts.0.len() ==> !spec_is_vowel(#[trigger] parts.0[q])
            &&& forall|q: int| 0 <= q < parts.2.len() ==> !spec_is_vowel(#[trigger] parts.2[q])
        },
    decreases syms.len() - i,
{
    if i < syms.len() {
        match spec_lookup(acc, syms[i]) {
            None => {},
            Some(p) => {
                if spec_is_vowel(p) {
                    match nucleus {
                        Some(_) => {},
                        None => {
                            lemma_build_syllable_classified(syms, i + 1, acc, onset, Some(p), coda);
                        },
                    }
                } else if nucleus is None {
                    lemma_build_syllable_classified(syms, i + 1, acc, onset.push(p), nucleus, coda);
                } else {
                    lemma_build_syllable_classified(syms, i + 1, acc, onset, nucleus, coda.push(p));
                }
            },
        }
    }
}

proof fn lemma_build_word_classified(
    syls: Seq<Seq<Seq<char>>>,
    i: int,
    acc: Seq<(Seq<char>, Phoneme)>,
    multi: bool,
)
    requires
        0 <= i <= syls.len(),
    ensures
        spec_build_word(syls, i, acc, multi) matches Ok(rest) ==> (forall|j: int|
            0 <= j < rest.len() ==> {
                &&& spec_is_vowel((#[trigger] rest[j]).nucleus)
                &&& forall|q: int|
                    0 <= q < rest[j].onset.len() ==> !spec_is_vowel(#[trigger] rest[j].onset[q])
                &&& forall|q: int|
                    0 <= q < rest[j].coda.len() ==> !spec_is_vowel(#[trigger] rest[j].coda[q])
            }),
    decreases syls.len() - i,
{
    if i < syls.len() {
        lemma_build_word_classified(syls, i + 1, acc, multi);
        if syls[i].len() > 0 {
            lemma_build_syllable_classified(syls[i], 1, acc, Seq::empty(), None, Seq::empty());
        }
    }
}

/// Every syllable of a successfully parsed word is well-formed: its
/// nucleus is a vowel and its onset and coda hold only consonants.
pub proof fn lemma_parsed_word_classified(acc: Seq<(Seq<char>, Phoneme)>, desc: Seq<char>)
    requires
        spec_parse(acc, desc) is Ok,
    ensures
        forall|j: int|
            0 <= j < spec_parse(acc, desc)->Ok_0.len() ==> {
                &&& spec_is_vowel((#[trigger] spec_parse(acc, desc)->Ok_0[j]).nucleus)
                &&& forall|q: int|
                    0 <= q < spec_parse(acc, desc)->Ok_0[j].onset.len() ==> !spec_is_vowel(
                        #[trigger] spec_parse(acc, desc)->Ok_0[j].onset[q],
                    )
                &&& forall|q: int|
                    0 <= q < spec_parse(acc, desc)->Ok_0[j].coda.len() ==> !spec_is_vowel(
                        #[trigger] spec_parse(acc, desc)->Ok_0[j].coda[q],
                    )
            },
{
    let syls = spec_split(desc)->Ok_0;
    lemma_build_word_classified(syls, 0, acc, syls.len() > 1);
}

/// Whether every phoneme of a word round-trips through the accent:
/// its symbol is clean and looks up to the phoneme itself.
pub open spec fn word_round_trips(acc: Seq<(Seq<char>, Phoneme)>, w: Seq<SyllableView>) -> bool {
    forall|i: int|
        0 <= i < w.len() ==> {
            &&& phoneme_round_trips(acc, (#[trigger] w[i]).nucleus)
            &&& forall|q: int|
                0 <= q < w[i].onset.len() ==> phoneme_round_trips(acc, #[trigger] w[i].onset[q])
            &&& forall|q: int|
                0 <= q < w[i].coda.len() ==> phoneme_round_trips(acc, #[trigger] w[i].coda[q])
        }
}

/// Round trip: when a description parses into a word of at least two
/// syllables whose phonemes all round-trip through the accent,
/// rendering the word and parsing the rendering back yields a word
/// with the same syllable count and the same onset, nucleus and coda
/// in every syllable. Stress marks may normalize: each stress is
/// read back from its rendered mark, so both low levels come back
/// unstressed.
pub proof fn lemma_parse_round_trip(acc: Seq<(Seq<char>, Phoneme)>, desc: Seq<char>)
    requires
        spec_parse(acc, desc) is Ok,
        spec_parse(acc, desc)->Ok_0.len() >= 2,
        word_round_trips(acc, spec_parse(acc, desc)->Ok_0),
    ensures
        ({
            let w = spec_parse(acc, desc)->Ok_0;
            &&& spec_parse(acc, spec_word_symbols(w)) is Ok
            &&& spec_parse(acc, spec_word_symbols(w))->Ok_0.len() == w.len()
            &&& forall|i: int|
                0 <= i < w.len() ==> {
                    &&& (#[trigger] spec_parse(acc, spec_word_symbols(w))->Ok_0[i]).onset == w[i].onset
                    &&& spec_parse(acc, spec_word_symbols(w))->Ok_0[i].nucleus == w[i].nucleus
                    &&& spec_parse(acc, spec_word_symbols(w))->Ok_0[i].coda == w[i].coda
                    &&& spec_parse(acc, spec_word_symbols(w))->Ok_0[i].stress == Some(
                        reparsed_stress(w[i]),
                    )
                }
        }),
{
    let w = spec_parse(acc, desc)->Ok_0;
    lemma_parsed_word_classified(acc, desc);
    assert forall|i: int| 0 <= i < w.len() implies syllable_round_trips(acc, #[trigger] w[i]) by {
        assert(phoneme_round_trips(acc, w[i].nucleus));
    }
    lemma_symbols_round_trip(acc, w);
}

/// A description with two vowel symbols inside one syllable cannot
/// parse into a word.
pub proof fn lemma_duplicate_nucleus_fails_word(
    acc: Seq<(Seq<char>, Phoneme)>,
    desc: Seq<char>,
    si: int,
    j: int,
    k: int,
)
    requires
        spec_split(desc) is Ok,
        0 <= si < spec_split(desc)->Ok_0.len(),
        1 <= j < k < spec_split(desc)->Ok_0[si].len(),
        forall|m: int|
            1 <= m < k ==> (#[trigger] spec_lookup(acc, spec_split(desc)->Ok_0[si][m])) is Some,
        spec_lookup(acc, spec_split(desc)->Ok_0[si][j]) is Some,
        spec_is_vowel(spec_lookup(acc, spec_split(desc)->Ok_0[si][j]).unwrap()),
        spec_lookup(acc, spec_split(desc)->Ok_0[si][k]) is Some,
        spec_is_vowel(spec_lookup(acc, spec_split(desc)->Ok_0[si][k]).unwrap()),
    ensures
        !(spec_parse(acc, desc) is Ok),
{
    let syls = spec_split(desc)->Ok_0;
    lemma_duplicate_nucleus_rejected(
        syls[si],
        1,
        acc,
        Seq::empty(),
        None,
        Seq::empty(),
        j,
        k,
    );
    lemma_build_word_syllable_fails(syls, 0, acc, syls.len() > 1, si);
}

} // verus!
