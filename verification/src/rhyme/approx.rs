//! Similarity between phoneme collections.
//!
//! The similarity of two phoneme collections is the fraction of
//! feature tokens shared by the two collections over the total number
//! of distinct feature tokens in them (the Jaccard index). This
//! module computes the two integer counts — shared tokens and total
//! tokens — exactly; forming their quotient is a floating-point
//! concern left to callers.

use vstd::prelude::*;
use vstd::set_lib::lemma_len_subset;
use vstd::set_lib::lemma_set_intersect_union_lens;

use crate::feature_set::Feature;
use crate::feature_set::all_features;
use crate::feature_set::lemma_all_features_complete;
use crate::feature_set::phoneme_has_feature;
use crate::feature_set::spec_all_features;
use crate::feature_set::spec_phoneme_has_feature;
use crate::phoneme::Phoneme;

verus! {

/// Whether any phoneme of a collection carries a feature token.
pub open spec fn spec_collection_has_feature(ps: Seq<Phoneme>, f: Feature) -> bool {
    exists|i: int| 0 <= i < ps.len() && spec_phoneme_has_feature(ps[i], f)
}

/// The union of the feature-token sets of a collection of phonemes.
pub open spec fn spec_gathered_features(ps: Seq<Phoneme>) -> Set<Feature> {
    Set::new(|f: Feature| spec_collection_has_feature(ps, f))
}

/// The number of feature tokens shared by two collections.
pub open spec fn spec_shared_count(a: Seq<Phoneme>, b: Seq<Phoneme>) -> nat {
    spec_gathered_features(a).intersect(spec_gathered_features(b)).len()
}

/// The number of distinct feature tokens in two collections together.
pub open spec fn spec_total_count(a: Seq<Phoneme>, b: Seq<Phoneme>) -> nat {
    spec_gathered_features(a).union(spec_gathered_features(b)).len()
}

/// The gathered feature set of any collection is finite and no larger
/// than the full token inventory.
pub proof fn lemma_gathered_finite(ps: Seq<Phoneme>)
    ensures
        spec_gathered_features(ps).finite(),
        spec_gathered_features(ps).len() <= spec_all_features().len(),
{
    let gathered = spec_gathered_features(ps);
    let all = spec_all_features().to_set();
    assert forall|f: Feature| gathered.contains(f) implies all.contains(f) by {
        lemma_all_features_complete(f);
    }
    spec_all_features().lemma_cardinality_of_set();
    assert(gathered.subset_of(all));
    vstd::set_lib::lemma_set_subset_finite(all, gathered);
    lemma_len_subset(gathered, all);
}

fn collection_has(ps: &[Phoneme], f: Feature) -> (r: bool)
    ensures
        r == spec_collection_has_feature(ps@, f),
{
    let mut i: usize = 0;
    while i < ps.len()
        invariant
            i <= ps@.len(),
            forall|j: int| 0 <= j < i ==> !spec_phoneme_has_feature(ps@[j], f),
        decreases ps@.len() - i,
    {
        if phoneme_has_feature(ps[i], f) {
            return true;
        }
        i = i + 1;
    }
    false
}

/// Gathers the distinct feature tokens of a collection of phonemes
/// into one vector: a token stands in the result exactly when some
/// phoneme of the collection has it, and no token is repeated.
pub fn gather_features(phonemes: &[Phoneme]) -> (r: Vec<Feature>)
    ensures
        r@.no_duplicates(),
        forall|f: Feature| r@.contains(f) <==> spec_collection_has_feature(phonemes@, f),
        r@.to_set() == spec_gathered_features(phonemes@),
{
    let all = all_features();
    let mut out: Vec<Feature> = Vec::new();
    let mut i: usize = 0;
    while i < all.len()
        invariant
            i <= all@.len(),
            all@ == spec_all_features(),
            all@.no_duplicates(),
            out@.no_duplicates(),
            forall|f: Feature|
                #![trigger out@.contains(f)]
                #![trigger spec_collection_has_feature(phonemes@, f)]
                out@.contains(f) <==> (all@.take(i as int).contains(f)
                    && spec_collection_has_feature(phonemes@, f)),
        decreases all@.len() - i,
    {
        let ghost prev = out@;
        let ghost prev_take = all@.take(i as int);
        let ghost cur = all@[i as int];
        if collection_has(phonemes, all[i]) {
            proof {
                if prev.contains(cur) {
                    let k = choose|k: int| 0 <= k < prev_take.len() && #[trigger] prev_take[k]
                        == cur;
                    assert(all@[k] == cur);
                    assert(false);
                }
            }
            out.push(all[i]);
        }
        i = i + 1;
        proof {
            let next_take = all@.take(i as int);
            assert(next_take =~= prev_take.push(cur));
            assert forall|f: Feature|
                #![trigger out@.contains(f)]
                #![trigger spec_collection_has_feature(phonemes@, f)]
                out@.contains(f) <==> (all@.take(i as int).contains(f)
                    && spec_collection_has_feature(phonemes@, f)) by {
                if out@.contains(f) {
                    let j = choose|j: int| 0 <= j < out@.len() && #[trigger] out@[j] == f;
                    if j < prev.len() {
                        assert(prev[j] == f);
                        assert(prev.contains(f));
                        assert(prev_take.contains(f));
                        let k = choose|k: int| 0 <= k < prev_take.len() && #[trigger] prev_take[k]
                            == f;
                        assert(next_take[k] == f);
                        assert(next_take.contains(f));
                    } else {
                        assert(f == cur);
                        assert(next_take[next_take.len() - 1] == f);
                        assert(next_take.contains(f));
                    }
                }
                if next_take.contains(f) && spec_collection_has_feature(phonemes@, f) {
                    let k = choose|k: int| 0 <= k < next_take.len() && #[trigger] next_take[k]
                        == f;
                    if k < prev_take.len() {
                        assert(prev_take[k] == f);
                        assert(prev_take.contains(f));
                        assert(prev.contains(f));
                        let j = choose|j: int| 0 <= j < prev.len() && #[trigger] prev[j] == f;
                        assert(out@[j] == f);
                        assert(out@.contains(f));
                    } else {
                        assert(f == cur);
                        assert(out@[out@.len() - 1] == f);
                        assert(out@.contains(f));
                    }
                }
            }
        }
    }
    proof {
        assert(all@.take(all@.len() as int) =~= all@);
        assert forall|f: Feature| #[trigger]
            spec_collection_has_feature(phonemes@, f) implies all@.contains(f) by {
            lemma_all_features_complete(f);
        }
        assert(out@.to_set() =~= spec_gathered_features(phonemes@));
    }
    out
}

proof fn lemma_push_to_set<A>(s: Seq<A>, x: A)
    ensures
        s.push(x).to_set() =~= s.to_set().insert(x),
{
    assert forall|y: A| s.push(x).to_set().contains(y) implies s.to_set().insert(x).contains(
        y,
    ) by {
        let j = choose|j: int| 0 <= j < s.push(x).len() && #[trigger] s.push(x)[j] == y;
        if j < s.len() {
            assert(s[j] == y);
            assert(s.contains(y));
        } else {
            assert(y == x);
        }
    }
    assert forall|y: A| s.to_set().insert(x).contains(y) implies s.push(x).to_set().contains(
        y,
    ) by {
        if y == x {
            assert(s.push(x)[s.len() as int] == y);
        } else {
            let j = choose|j: int| 0 <= j < s.len() && #[trigger] s[j] == y;
            assert(s.push(x)[j] == y);
        }
    }
}

fn vec_contains(fs: &Vec<Feature>, f: Feature) -> (r: bool)
    ensures
        r == fs@.contains(f),
{
    let mut i: usize = 0;
    while i < fs.len()
        invariant
            i <= fs@.len(),
            forall|j: int| 0 <= j < i ==> fs@[j] != f,
        decreases fs@.len() - i,
    {
        if fs[i] == f {
            return true;
        }
        i = i + 1;
    }
    false
}

/// The two integer measures behind the similarity of two phoneme
/// collections: the number of feature tokens the collections share,
/// and the total number of distinct feature tokens across both. The
/// similarity (Jaccard index) of the collections is their quotient.
pub fn similarity_counts(s1: &[Phoneme], s2: &[Phoneme]) -> (r: (usize, usize))
    ensures
        r.0 == spec_shared_count(s1@, s2@),
        r.1 == spec_total_count(s1@, s2@),
        r.0 <= r.1,
{
    let fs1 = gather_features(s1);
    let fs2 = gather_features(s2);
    let ghost a = spec_gathered_features(s1@);
    let ghost b = spec_gathered_features(s2@);
    proof {
        lemma_gathered_finite(s1@);
        lemma_gathered_finite(s2@);
        fs1@.unique_seq_to_set();
        fs2@.unique_seq_to_set();
    }
    let mut shared: usize = 0;
    let mut i: usize = 0;
    proof {
        assert(fs1@.take(0).to_set() =~= Set::<Feature>::empty());
        assert(fs1@.take(0).to_set().intersect(b) =~= Set::<Feature>::empty());
    }
    while i < fs1.len()
        invariant
            i <= fs1@.len(),
            b == spec_gathered_features(s2@),
            fs1@.no_duplicates(),
            fs2@.no_duplicates(),
            fs2@.to_set() == b,
            b.finite(),
            shared == fs1@.take(i as int).to_set().intersect(b).len(),
            shared <= i,
            fs1@.take(i as int).to_set().intersect(b).finite(),
        decreases fs1@.len() - i,
    {
        let ghost prev_set = fs1@.take(i as int).to_set().intersect(b);
        let hit = vec_contains(&fs2, fs1[i]);
        proof {
            let next_set = fs1@.take(i + 1).to_set().intersect(b);
            assert(fs1@.take(i + 1) =~= fs1@.take(i as int).push(fs1@[i as int]));
            lemma_push_to_set(fs1@.take(i as int), fs1@[i as int]);
            assert(fs1@.take(i + 1).to_set() =~= fs1@.take(i as int).to_set().insert(
                fs1@[i as int],
            ));
            if hit {
                assert(b.contains(fs1@[i as int]));
                assert(next_set =~= prev_set.insert(fs1@[i as int]));
                if fs1@.take(i as int).to_set().contains(fs1@[i as int]) {
                    let k = choose|k: int| 0 <= k < i && #[trigger] fs1@.take(i as int)[k]
                        == fs1@[i as int];
                    assert(fs1@[k] == fs1@[i as int]);
                    assert(false);
                }
                assert(!prev_set.contains(fs1@[i as int]));
                assert(next_set.len() == prev_set.len() + 1);
            } else {
                assert(!b.contains(fs1@[i as int]));
                assert(next_set =~= prev_set);
            }
        }
        if hit {
            shared = shared + 1;
        }
        i = i + 1;
    }
    proof {
        assert(fs1@.take(fs1@.len() as int) =~= fs1@);
        assert(fs1@.to_set() =~= a);
        assert(fs2@.to_set() =~= b);
        assert(shared == a.intersect(b).len());
        lemma_set_intersect_union_lens(a, b);
        assert(a.len() == fs1@.len());
        assert(b.len() == fs2@.len());
        assert(a.intersect(b).subset_of(a));
        vstd::set_lib::lemma_set_subset_finite(a, a.intersect(b));
        lemma_len_subset(a.intersect(b), a);
        lemma_gathered_finite(s1@);
        lemma_gathered_finite(s2@);
    }
    let total = fs1.len() + fs2.len() - shared;
    proof {
        assert(a.union(b).len() == a.len() + b.len() - a.intersect(b).len());
        assert(a.intersect(b).subset_of(a.union(b)));
        vstd::set_lib::lemma_set_subset_finite(a.union(b), a.intersect(b));
        lemma_len_subset(a.intersect(b), a.union(b));
    }
    (shared, total)
}

/// The two similarity counts do not depend on the order of the two
/// collections.
pub proof fn lemma_similarity_symmetric(a: Seq<Phoneme>, b: Seq<Phoneme>)
    ensures
        spec_shared_count(a, b) == spec_shared_count(b, a),
        spec_total_count(a, b) == spec_total_count(b, a),
{
    assert(spec_gathered_features(a).intersect(spec_gathered_features(b))
        =~= spec_gathered_features(b).intersect(spec_gathered_features(a)));
    assert(spec_gathered_features(a).union(spec_gathered_features(b))
        =~= spec_gathered_features(b).union(spec_gathered_features(a)));
}

/// The shared count never exceeds the total count, and two non-empty
/// collections always have at least one feature token between them,
/// so the similarity quotient lies between zero and one.
pub proof fn lemma_similarity_bounds(a: Seq<Phoneme>, b: Seq<Phoneme>)
    ensures
        spec_shared_count(a, b) <= spec_total_count(a, b),
        a.len() > 0 ==> spec_total_count(a, b) >= 1,
{
    let ga = spec_gathered_features(a);
    let gb = spec_gathered_features(b);
    lemma_gathered_finite(a);
    lemma_gathered_finite(b);
    assert(ga.intersect(gb).subset_of(ga.union(gb)));
    vstd::set_lib::lemma_set_subset_finite(ga.union(gb), ga.intersect(gb));
    lemma_len_subset(ga.intersect(gb), ga.union(gb));
    if a.len() > 0 {
        let f = match a[0] {
            Phoneme::Monosegment(seg) => if seg.root_features.syllabic
                == crate::features::BinaryFeature::Marked {
                Feature::PlusSyllabic
            } else {
                Feature::MinusSyllabic
            },
            Phoneme::Disegment(seg1, _) => if seg1.root_features.syllabic
                == crate::features::BinaryFeature::Marked {
                Feature::PlusSyllabic
            } else {
                Feature::MinusSyllabic
            },
        };
        assert(spec_phoneme_has_feature(a[0], f));
        assert(ga.contains(f));
        assert(ga.union(gb).contains(f));
        assert(Set::<Feature>::empty().insert(f).subset_of(ga.union(gb)));
        vstd::set_lib::lemma_set_subset_finite(ga.union(gb), Set::<Feature>::empty().insert(f));
        lemma_len_subset(Set::<Feature>::empty().insert(f), ga.union(gb));
    }
}

/// Comparing a collection with itself shares every token: the two
/// counts coincide, so the similarity quotient is one.
pub proof fn lemma_similarity_reflexive(a: Seq<Phoneme>)
    ensures
        spec_shared_count(a, a) == spec_total_count(a, a),
{
    assert(spec_gathered_features(a).intersect(spec_gathered_features(a))
        =~= spec_gathered_features(a).union(spec_gathered_features(a)));
}

} // verus!
