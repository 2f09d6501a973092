//! Fuzzy scoring of entry names and the order it induces on a listing.
use vstd::prelude::*;

use fuzzy_matcher::FuzzyMatcher;

use crate::filesystem::read::File;

verus! {

/// What the skim fuzzy matcher, in its default configuration, returns for a
/// choice and a pattern: a score and the matched character positions, or
/// nothing when the pattern does not match.
pub uninterp spec fn skim_indices(choice: Seq<char>, pattern: Seq<char>) -> Option<(i64, Seq<usize>)>;

/// A matcher result with its positions seen as a sequence.
pub open spec fn indices_view(r: Option<(i64, Vec<usize>)>) -> Option<(i64, Seq<usize>)> {
    match r {
        Some(p) => Some((p.0, p.1@)),
        None => None,
    }
}

/// Relies on `fuzzy_matcher::skim::SkimMatcherV2::default()` and its
/// `FuzzyMatcher::fuzzy_indices`: the result depends on the two strings
/// alone, and an empty pattern matches with score 0 and no positions.
#[verifier::external_body]
pub(crate) fn skim_fuzzy_indices(choice: &str, pattern: &str) -> (r: Option<(i64, Vec<usize>)>)
    ensures
        indices_view(r) == skim_indices(choice@, pattern@),
        pattern@.len() == 0 ==> indices_view(r) == Some((0i64, Seq::<usize>::empty())),
{
    fuzzy_matcher::skim::SkimMatcherV2::default().fuzzy_indices(choice, pattern)
}

/// The fuzzy score of a name against a query, if it matches.
pub open spec fn score_of(name: Seq<char>, query: Seq<char>) -> Option<i64> {
    match skim_indices(name, query) {
        Some(p) => Some(p.0),
        None => None,
    }
}

/// The scores of a listing's names against a query.
pub open spec fn scores(files: Seq<File>, query: Seq<char>) -> Seq<Option<i64>> {
    files.map_values(|f: File| score_of(f.name@, query))
}

/// Entry `a` comes before entry `b`: both match, and `a` scores higher, or
/// scores the same and stands earlier in the listing.
pub open spec fn precedes(keys: Seq<Option<i64>>, a: int, b: int) -> bool {
    &&& keys[a] is Some
    &&& keys[b] is Some
    &&& (keys[a]->0 > keys[b]->0 || (keys[a]->0 == keys[b]->0 && a < b))
}

/// `idx` lists, by position in the listing, exactly the matching entries at
/// or after `lo`, best score first and ties in listing order.
pub open spec fn ranks_from(keys: Seq<Option<i64>>, idx: Seq<int>, lo: int) -> bool {
    &&& forall|k: int| 0 <= k < idx.len() ==> lo <= #[trigger] idx[k] < keys.len() && keys[idx[k]] is Some
    &&& forall|i: int| lo <= i < keys.len() && #[trigger] keys[i] is Some ==> idx.contains(i)
    &&& forall|a: int, b: int| 0 <= a < b < idx.len() ==> precedes(keys, #[trigger] idx[a], #[trigger] idx[b])
}

/// `idx` lists exactly the matching entries, best score first and ties in
/// listing order.
pub open spec fn ranks(keys: Seq<Option<i64>>, idx: Seq<int>) -> bool {
    ranks_from(keys, idx, 0)
}

/// The ranking of a key sequence: the one sequence of positions that
/// `ranks` accepts.
pub open spec fn ranking(keys: Seq<Option<i64>>) -> Seq<int> {
    choose|idx: Seq<int>| #[trigger] ranks(keys, idx)
}

/// A listing ordered by the ranking of its keys.
pub open spec fn ranked(files: Seq<File>, keys: Seq<Option<i64>>) -> Seq<File> {
    ranking(keys).map_values(|i: int| files[i])
}

/// The listing in fuzzy order: the entries whose names match the query,
/// by descending score, entries of equal score in their listing order.
pub open spec fn fuzzy_order(files: Seq<File>, query: Seq<char>) -> Seq<File> {
    ranked(files, scores(files, query))
}

/// First position in `idx` whose key is at most `s`, or the length.
pub open spec fn insert_pos(keys: Seq<Option<i64>>, idx: Seq<int>, s: i64) -> int
    decreases idx.len(),
{
    if idx.len() == 0 {
        0
    } else if keys[idx[0]]->0 <= s {
        0
    } else {
        1 + insert_pos(keys, idx.drop_first(), s)
    }
}

proof fn lemma_insert_pos(keys: Seq<Option<i64>>, idx: Seq<int>, s: i64)
    requires
        forall|k: int| 0 <= k < idx.len() ==> 0 <= #[trigger] idx[k] < keys.len() && keys[idx[k]] is Some,
    ensures
        0 <= insert_pos(keys, idx, s) <= idx.len(),
        forall|k: int| 0 <= k < insert_pos(keys, idx, s) ==> keys[#[trigger] idx[k]]->0 > s,
        insert_pos(keys, idx, s) < idx.len() ==> keys[idx[insert_pos(keys, idx, s)]]->0 <= s,
    decreases idx.len(),
{
    if idx.len() > 0 && keys[idx[0]]->0 > s {
        let t = idx.drop_first();
        assert forall|k: int| 0 <= k < t.len() implies 0 <= #[trigger] t[k] < keys.len() && keys[t[k]] is Some by {
            assert(t[k] == idx[k + 1]);
        }
        lemma_insert_pos(keys, t, s);
        assert forall|k: int| 0 <= k < insert_pos(keys, idx, s) implies keys[#[trigger] idx[k]]->0 > s by {
            if k > 0 {
                assert(idx[k] == t[k - 1]);
            }
        }
    }
}

/// Inserting entry `lo` at its place extends a ranking of the entries after
/// `lo` to a ranking of the entries from `lo` on.
proof fn lemma_rank_insert(keys: Seq<Option<i64>>, idx: Seq<int>, lo: int, p: int)
    requires
        0 <= lo < keys.len(),
        keys[lo] is Some,
        ranks_from(keys, idx, lo + 1),
        0 <= p <= idx.len(),
        forall|k: int| 0 <= k < p ==> keys[#[trigger] idx[k]]->0 > keys[lo]->0,
        p < idx.len() ==> keys[idx[p]]->0 <= keys[lo]->0,
    ensures
        ranks_from(keys, idx.insert(p, lo), lo),
{
    let n = idx.insert(p, lo);
    let s = keys[lo]->0;
    assert forall|k: int| p <= k < idx.len() implies keys[#[trigger] idx[k]]->0 <= s by {
        if k > p {
            assert(precedes(keys, idx[p], idx[k]));
        }
    }
    assert forall|k: int| 0 <= k < n.len() implies lo <= #[trigger] n[k] < keys.len() && keys[n[k]] is Some by {
        if k < p {
            assert(n[k] == idx[k]);
        } else if k > p {
            assert(n[k] == idx[k - 1]);
        }
    }
    assert forall|i: int| lo <= i < keys.len() && #[trigger] keys[i] is Some implies n.contains(i) by {
        if i == lo {
            assert(n[p] == lo);
        } else {
            assert(idx.contains(i));
            let k = choose|k: int| 0 <= k < idx.len() && idx[k] == i;
            if k < p {
                assert(n[k] == i);
            } else {
                assert(n[k + 1] == i);
            }
        }
    }
    assert forall|a: int, b: int| 0 <= a < b < n.len() implies precedes(keys, #[trigger] n[a], #[trigger] n[b]) by {
        if b < p {
            assert(n[a] == idx[a] && n[b] == idx[b]);
        } else if b == p {
            assert(n[a] == idx[a]);
        } else if a < p {
            assert(n[a] == idx[a] && n[b] == idx[b - 1]);
        } else if a == p {
            assert(n[b] == idx[b - 1]);
            assert(idx[b - 1] > lo);
        } else {
            assert(n[a] == idx[a - 1] && n[b] == idx[b - 1]);
        }
    }
}

/// Every key sequence has a ranking of its entries from `lo` on.
proof fn lemma_ranking_exists_from(keys: Seq<Option<i64>>, lo: int)
    requires
        0 <= lo <= keys.len(),
    ensures
        exists|idx: Seq<int>| #[trigger] ranks_from(keys, idx, lo),
    decreases keys.len() - lo,
{
    if lo == keys.len() {
        assert(ranks_from(keys, Seq::<int>::empty(), lo));
    } else {
        lemma_ranking_exists_from(keys, lo + 1);
        let idx = choose|idx: Seq<int>| #[trigger] ranks_from(keys, idx, lo + 1);
        if keys[lo] is Some {
            lemma_insert_pos(keys, idx, keys[lo]->0);
            lemma_rank_insert(keys, idx, lo, insert_pos(keys, idx, keys[lo]->0));
        } else {
            assert(ranks_from(keys, idx, lo));
        }
    }
}

/// Two sequences ordered by `precedes` that hold the same positions are
/// the same sequence.
proof fn lemma_sorted_unique(keys: Seq<Option<i64>>, s: Seq<int>, t: Seq<int>)
    requires
        forall|a: int, b: int| 0 <= a < b < s.len() ==> precedes(keys, #[trigger] s[a], #[trigger] s[b]),
        forall|a: int, b: int| 0 <= a < b < t.len() ==> precedes(keys, #[trigger] t[a], #[trigger] t[b]),
        forall|x: int| s.contains(x) <==> t.contains(x),
    ensures
        s == t,
    decreases s.len(),
{
    if s.len() == 0 {
        if t.len() > 0 {
            assert(t.contains(t[0]));
        }
        assert(s =~= t);
    } else {
        assert(s.contains(s[0]));
        let j = choose|j: int| 0 <= j < t.len() && t[j] == s[0];
        assert(t.contains(t[0]));
        let m = choose|m: int| 0 <= m < s.len() && s[m] == t[0];
        if j > 0 && m > 0 {
            assert(precedes(keys, t[0], t[j]));
            assert(precedes(keys, s[0], s[m]));
        }
        assert(s[0] == t[0]);
        let s1 = s.drop_first();
        let t1 = t.drop_first();
        assert forall|a: int, b: int| 0 <= a < b < s1.len() implies precedes(keys, #[trigger] s1[a], #[trigger] s1[b]) by {
            assert(s1[a] == s[a + 1] && s1[b] == s[b + 1]);
        }
        assert forall|a: int, b: int| 0 <= a < b < t1.len() implies precedes(keys, #[trigger] t1[a], #[trigger] t1[b]) by {
            assert(t1[a] == t[a + 1] && t1[b] == t[b + 1]);
        }
        assert forall|x: int| s1.contains(x) <==> t1.contains(x) by {
            if s1.contains(x) {
                let k = choose|k: int| 0 <= k < s1.len() && s1[k] == x;
                assert(s.contains(x) && s[k + 1] == x);
                assert(precedes(keys, s[0], s[k + 1]));
                let i = choose|i: int| 0 <= i < t.len() && t[i] == x;
                assert(i != 0);
                assert(t1[i - 1] == x);
            }
            if t1.contains(x) {
                let k = choose|k: int| 0 <= k < t1.len() && t1[k] == x;
                assert(t.contains(x) && t[k + 1] == x);
                assert(precedes(keys, t[0], t[k + 1]));
                let i = choose|i: int| 0 <= i < s.len() && s[i] == x;
                assert(i != 0);
                assert(s1[i - 1] == x);
            }
        }
        lemma_sorted_unique(keys, s1, t1);
        assert(s =~= seq![s[0]].add(s1));
        assert(t =~= seq![t[0]].add(t1));
    }
}

/// A key sequence has exactly one ranking.
pub proof fn lemma_ranking_unique(keys: Seq<Option<i64>>, idx: Seq<int>, other: Seq<int>)
    requires
        ranks(keys, idx),
        ranks(keys, other),
    ensures
        idx == other,
{
    assert forall|x: int| idx.contains(x) <==> other.contains(x) by {
        if idx.contains(x) {
            let k = choose|k: int| 0 <= k < idx.len() && idx[k] == x;
            assert(0 <= idx[k] < keys.len());
        }
        if other.contains(x) {
            let k = choose|k: int| 0 <= k < other.len() && other[k] == x;
            assert(0 <= other[k] < keys.len());
        }
    }
    lemma_sorted_unique(keys, idx, other);
}

/// The ranking of a key sequence ranks it, and is its only ranking.
pub proof fn lemma_ranking(keys: Seq<Option<i64>>)
    ensures
        ranks(keys, ranking(keys)),
        forall|idx: Seq<int>| #[trigger] ranks(keys, idx) ==> idx == ranking(keys),
{
    lemma_ranking_exists_from(keys, 0);
    let w = choose|idx: Seq<int>| #[trigger] ranks_from(keys, idx, 0);
    assert(ranks(keys, w));
    assert forall|idx: Seq<int>| #[trigger] ranks(keys, idx) implies idx == ranking(keys) by {
        lemma_ranking_unique(keys, idx, ranking(keys));
    }
}

/// Ordering a listing that is already in fuzzy order, with the same query,
/// leaves it as it is.
pub proof fn lemma_fuzzy_order_idempotent(files: Seq<File>, query: Seq<char>)
    ensures
        fuzzy_order(fuzzy_order(files, query), query) == fuzzy_order(files, query),
{
    let keys = scores(files, query);
    lemma_ranking(keys);
    let idx = ranking(keys);
    let ys = fuzzy_order(files, query);
    let keys2 = scores(ys, query);
    let id = Seq::new(ys.len(), |i: int| i);
    assert forall|k: int| 0 <= k < ys.len() implies keys2[k] == keys[idx[k]] by {
        assert(ys[k] == files[idx[k]]);
    }
    assert forall|a: int, b: int| 0 <= a < b < id.len() implies precedes(keys2, #[trigger] id[a], #[trigger] id[b]) by {
        assert(precedes(keys, idx[a], idx[b]));
    }
    assert forall|i: int| 0 <= i < keys2.len() && #[trigger] keys2[i] is Some implies id.contains(i) by {
        assert(id[i] == i);
    }
    assert(ranks(keys2, id));
    lemma_ranking(keys2);
    assert(ranking(keys2) == id);
    assert(fuzzy_order(ys, query) =~= ys);
}

/// Orders a listing by its keys: the entries with a key, by descending
/// key, entries with equal keys in their listing order.
pub fn order_by_scores(files: Vec<File>, keys: Vec<Option<i64>>) -> (r: Vec<File>)
    requires
        files@.len() == keys@.len(),
    ensures
        r@ == ranked(files@, keys@),
{
    let mut rest = files;
    let ghost files0 = rest@;
    let ghost k0 = keys@;
    let mut out: Vec<File> = Vec::new();
    let mut out_scores: Vec<i64> = Vec::new();
    let ghost mut idx: Seq<int> = Seq::empty();
    assert(rest@.subrange(0, rest@.len() as int) =~= files0);
    while rest.len() > 0
        invariant
            rest@ == files0.subrange(0, rest@.len() as int),
            rest@.len() <= files0.len(),
            k0 == keys@,
            files0.len() == k0.len(),
            ranks_from(k0, idx, rest@.len() as int),
            out@.len() == idx.len(),
            out_scores@.len() == idx.len(),
            forall|k: int| 0 <= k < idx.len() ==> #[trigger] out@[k] == files0[idx[k]],
            forall|k: int| 0 <= k < idx.len() ==> #[trigger] out_scores@[k] == k0[idx[k]]->0,
        decreases rest@.len(),
    {
        let f = rest.pop().unwrap();
        let i = rest.len();
        assert(f == files0[i as int]);
        match keys[i] {
            Some(s) => {
                let mut pos: usize = 0;
                while pos < out_scores.len() && out_scores[pos] > s
                    invariant
                        0 <= pos <= out_scores@.len(),
                        forall|k: int| 0 <= k < pos ==> k0[#[trigger] idx[k]]->0 > s,
                        out_scores@.len() == idx.len(),
                        forall|k: int| 0 <= k < idx.len() ==> #[trigger] out_scores@[k] == k0[idx[k]]->0,
                    decreases out_scores@.len() - pos,
                {
                    assert(out_scores@[pos as int] == k0[idx[pos as int]]->0);
                    pos = pos + 1;
                }
                proof {
                    if pos < out_scores@.len() {
                        assert(out_scores@[pos as int] == k0[idx[pos as int]]->0);
                    }
                    lemma_rank_insert(k0, idx, i as int, pos as int);
                }
                let ghost old_out = out@;
                let ghost old_scores = out_scores@;
                let ghost old_idx = idx;
                out.insert(pos, f);
                out_scores.insert(pos, s);
                proof {
                    idx = idx.insert(pos as int, i as int);
                    assert forall|k: int| 0 <= k < idx.len() implies #[trigger] out@[k] == files0[idx[k]] by {
                        if k < pos {
                            assert(out@[k] == old_out[k] && idx[k] == old_idx[k]);
                        } else if k > pos {
                            assert(out@[k] == old_out[k - 1] && idx[k] == old_idx[k - 1]);
                        }
                    }
                    assert forall|k: int| 0 <= k < idx.len() implies #[trigger] out_scores@[k] == k0[idx[k]]->0 by {
                        if k < pos {
                            assert(out_scores@[k] == old_scores[k] && idx[k] == old_idx[k]);
                        } else if k > pos {
                            assert(out_scores@[k] == old_scores[k - 1] && idx[k] == old_idx[k - 1]);
                        }
                    }
                }
            },
            None => {
                assert(ranks_from(k0, idx, i as int));
            },
        }
        assert(rest@ =~= files0.subrange(0, rest@.len() as int));
    }
    proof {
        assert(ranks(k0, idx));
        lemma_ranking(k0);
        assert(out@ =~= ranked(files0, k0));
    }
    out
}

} // verus!
