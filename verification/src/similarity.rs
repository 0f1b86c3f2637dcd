//! Similarity search over a snapshot of the store: the documents in order of
//! falling similarity to the query, equal scores in the order of insertion,
//! cut off after the first `top_k`.
//!
//! A score is the cosine similarity of two embeddings, a single-precision
//! number. The caller computes it and hands over its IEEE 754 bits; ranking
//! works on an integer that orders the bits as the numbers are ordered.

use crate::vector_store::{StoredCommand, StoredCommandView, command_views};
use vstd::prelude::*;

verus! {

/// The integer by which a score is ranked. For the bits of a number `x` that
/// is no NaN it is the magnitude bits of `x` with the sign of `x`, so that
/// `x < y` exactly if the key of `x` is less than the key of `y`, and both
/// zeros have key 0. A NaN, which compares with nothing, ranks as zero: as
/// a pair of embeddings without similarity.
pub open spec fn score_key(bits: u32) -> int {
    let magnitude = bits % 0x8000_0000;
    if magnitude > 0x7f80_0000 {
        0
    } else if bits >= 0x8000_0000 {
        -magnitude
    } else {
        magnitude as int
    }
}

/// Item `i` comes before item `j`: its score is higher, or the scores are
/// equal and it was inserted earlier.
pub open spec fn precedes(scores: Seq<u32>, i: int, j: int) -> bool {
    score_key(scores[i]) > score_key(scores[j]) || (score_key(scores[i]) == score_key(scores[j])
        && i < j)
}

/// Every item of `order` comes before item `j`.
pub open spec fn all_precede(scores: Seq<u32>, order: Seq<usize>, j: int) -> bool {
    forall|p: int| 0 <= p < order.len() ==> precedes(scores, #[trigger] order[p] as int, j)
}

/// `order` lists the first `top_k` of the items `0..limit` by rank: it is
/// as long as `top_k` allows, each item in it comes before the next, and an
/// item is left out only when `order` is full and all of `order` comes
/// before it.
pub open spec fn is_ranking_of(
    scores: Seq<u32>,
    limit: int,
    top_k: nat,
    order: Seq<usize>,
) -> bool {
    &&& order.len() == if limit < top_k {
        limit
    } else {
        top_k as int
    }
    &&& forall|p: int| 0 <= p < order.len() ==> #[trigger] order[p] < limit
    &&& forall|p: int, q: int|
        0 <= p < q < order.len() ==> precedes(
            scores,
            #[trigger] order[p] as int,
            #[trigger] order[q] as int,
        )
    &&& forall|j: usize|
        j < limit && !#[trigger] order.contains(j) ==> order.len() == top_k && all_precede(
            scores,
            order,
            j as int,
        )
}

/// `order` lists the positions of the `top_k` best of `scores`, best first.
pub open spec fn is_ranking(scores: Seq<u32>, top_k: nat, order: Seq<usize>) -> bool {
    is_ranking_of(scores, scores.len() as int, top_k, order)
}

/// The positions of the `top_k` best of `scores`, best first.
pub open spec fn ranking(scores: Seq<u32>, top_k: nat) -> Seq<usize> {
    choose|order: Seq<usize>| is_ranking(scores, top_k, order)
}

proof fn lemma_later_in(scores: Seq<u32>, top_k: nat, a: Seq<usize>, b: Seq<usize>, p: int)
    requires
        is_ranking(scores, top_k, a),
        is_ranking(scores, top_k, b),
        0 <= p < a.len(),
        forall|q: int| 0 <= q < p ==> a[q] == b[q],
        a[p] != b[p],
    ensures
        precedes(scores, b[p] as int, a[p] as int),
{
    if b.contains(a[p]) {
        let q = choose|q: int| 0 <= q < b.len() && b[q] == a[p];
        assert(b[q] == a[p]);
    }
}

proof fn lemma_same_at(scores: Seq<u32>, top_k: nat, a: Seq<usize>, b: Seq<usize>, p: int)
    requires
        is_ranking(scores, top_k, a),
        is_ranking(scores, top_k, b),
        0 <= p < a.len(),
    ensures
        a[p] == b[p],
    decreases p,
{
    assert forall|q: int| 0 <= q < p implies a[q] == b[q] by {
        lemma_same_at(scores, top_k, a, b, q);
    }
    if a[p] != b[p] {
        lemma_later_in(scores, top_k, a, b, p);
        lemma_later_in(scores, top_k, b, a, p);
    }
}

/// There is at most one ranking: `is_ranking` fixes every position of it.
pub proof fn lemma_ranking_unique(scores: Seq<u32>, top_k: nat, a: Seq<usize>, b: Seq<usize>)
    requires
        is_ranking(scores, top_k, a),
        is_ranking(scores, top_k, b),
    ensures
        a == b,
{
    assert forall|p: int| 0 <= p < a.len() implies a[p] == b[p] by {
        lemma_same_at(scores, top_k, a, b, p);
    }
}

/// The ranking of no items is empty, and so is the ranking cut off at zero.
pub proof fn lemma_ranking_empty(scores: Seq<u32>, top_k: nat)
    requires
        scores.len() == 0 || top_k == 0,
    ensures
        ranking(scores, top_k) == Seq::<usize>::empty(),
{
    let none = Seq::<usize>::empty();
    lemma_ranking_unique(scores, top_k, none, ranking(scores, top_k));
}

/// The integer by which the score with these bits is ranked.
pub fn order_key(bits: u32) -> (key: i64)
    ensures
        key == score_key(bits),
{
    let magnitude: u32 = bits % 0x8000_0000;
    if magnitude > 0x7f80_0000 {
        0
    } else if bits >= 0x8000_0000 {
        -(magnitude as i64)
    } else {
        magnitude as i64
    }
}

proof fn lemma_insert_contains(s: Seq<usize>, p: int, v: usize, x: usize)
    requires
        0 <= p <= s.len(),
    ensures
        s.insert(p, v).contains(x) <==> (x == v || s.contains(x)),
{
    let t = s.insert(p, v);
    if x == v {
        assert(t[p] == x);
    }
    if s.contains(x) {
        let q = choose|q: int| 0 <= q < s.len() && s[q] == x;
        if q < p {
            assert(t[q] == x);
        } else {
            assert(t[q + 1] == x);
        }
    }
}

proof fn lemma_drop_last_contains(s: Seq<usize>, x: usize)
    requires
        s.len() > 0,
    ensures
        s.contains(x) <==> (x == s.last() || s.drop_last().contains(x)),
{
    let t = s.drop_last();
    if s.contains(x) && x != s.last() {
        let q = choose|q: int| 0 <= q < s.len() && s[q] == x;
        assert(t[q] == x);
    }
}

/// Taking item `i` into a ranking of the items before it, at place `p`,
/// gives the ranking of the items up to `i`.
proof fn lemma_take_in(scores: Seq<u32>, top_k: nat, order: Seq<usize>, i: usize, p: int)
    requires
        i < scores.len(),
        is_ranking_of(scores, i as int, top_k, order),
        0 <= p <= order.len(),
        p < top_k,
        forall|q: int|
            p <= q < order.len() ==> score_key(scores[#[trigger] order[q] as int]) < score_key(
                scores[i as int],
            ),
        p > 0 ==> score_key(scores[order[p - 1] as int]) >= score_key(scores[i as int]),
    ensures
        is_ranking_of(
            scores,
            i + 1,
            top_k,
            (if order.len() == top_k {
                order.drop_last()
            } else {
                order
            }).insert(p, i),
        ),
{
    let kept = if order.len() == top_k {
        order.drop_last()
    } else {
        order
    };
    let next = kept.insert(p, i);
    assert forall|a: int, b: int| 0 <= a < b < next.len() implies precedes(
        scores,
        #[trigger] next[a] as int,
        #[trigger] next[b] as int,
    ) by {
    }
    assert forall|j: usize| j < i + 1 && !#[trigger] next.contains(j) implies next.len() == top_k
        && all_precede(scores, next, j as int) by {
        lemma_insert_contains(kept, p, i, j);
        if order.len() == top_k {
            lemma_drop_last_contains(order, j);
            assert forall|q: int| 0 <= q < next.len() implies precedes(
                scores,
                #[trigger] next[q] as int,
                j as int,
            ) by {
            }
        }
    }
}

/// The place of item `i` in a ranking of earlier items: behind the last
/// item that scores at least as high.
proof fn lemma_place(scores: Seq<u32>, order: Seq<usize>, i: usize, p: int) -> (place: int)
    requires
        0 <= p <= order.len(),
        forall|q: int|
            p <= q < order.len() ==> score_key(scores[#[trigger] order[q] as int]) < score_key(
                scores[i as int],
            ),
    ensures
        0 <= place <= p,
        forall|q: int|
            place <= q < order.len() ==> score_key(scores[#[trigger] order[q] as int])
                < score_key(scores[i as int]),
        place > 0 ==> score_key(scores[order[place - 1] as int]) >= score_key(scores[i as int]),
    decreases p,
{
    if p > 0 && score_key(scores[order[p - 1] as int]) < score_key(scores[i as int]) {
        lemma_place(scores, order, i, p - 1)
    } else {
        p
    }
}

proof fn lemma_ranking_of(scores: Seq<u32>, limit: nat, top_k: nat) -> (order: Seq<usize>)
    requires
        limit <= scores.len() <= usize::MAX,
    ensures
        is_ranking_of(scores, limit as int, top_k, order),
    decreases limit,
{
    if limit == 0 {
        Seq::<usize>::empty()
    } else {
        let before = lemma_ranking_of(scores, (limit - 1) as nat, top_k);
        let i = (limit - 1) as usize;
        let p = lemma_place(scores, before, i, before.len() as int);
        if p < top_k {
            lemma_take_in(scores, top_k, before, i, p);
            (if before.len() == top_k {
                before.drop_last()
            } else {
                before
            }).insert(p, i)
        } else {
            before
        }
    }
}

/// Every sequence of scores has a ranking, so `ranking` names it.
pub proof fn lemma_ranking_exists(scores: Seq<u32>, top_k: nat)
    requires
        scores.len() <= usize::MAX,
    ensures
        is_ranking(scores, top_k, ranking(scores, top_k)),
{
    let order = lemma_ranking_of(scores, scores.len(), top_k);
    assert(is_ranking(scores, top_k, order));
}

/// The `top_k` best are the first `top_k` of all items in ranked order.
pub proof fn lemma_ranking_is_prefix(scores: Seq<u32>, top_k: nat)
    requires
        top_k <= scores.len() <= usize::MAX,
    ensures
        ranking(scores, top_k) == ranking(scores, scores.len()).take(top_k as int),
{
    lemma_ranking_exists(scores, scores.len());
    let full = ranking(scores, scores.len());
    let first = full.take(top_k as int);
    assert forall|j: usize| j < scores.len() && !#[trigger] first.contains(j) implies first.len()
        == top_k && all_precede(scores, first, j as int) by {
        assert forall|p: int| 0 <= p < first.len() implies precedes(
            scores,
            #[trigger] first[p] as int,
            j as int,
        ) by {
            if full.contains(j) {
                let q = choose|q: int| 0 <= q < full.len() && full[q] == j;
                assert(q < top_k ==> first[q] == j);
            }
        }
    }
    lemma_ranking_unique(scores, top_k, first, ranking(scores, top_k));
}

/// Ranks `scores`: the positions of the `top_k` highest scores, highest
/// first, equal scores by position. The result is empty when there are no
/// scores.
pub fn rank_top_k(scores: &[u32], top_k: usize) -> (order: Vec<usize>)
    ensures
        is_ranking(scores@, top_k as nat, order@),
        order@ == ranking(scores@, top_k as nat),
{
    let mut order: Vec<usize> = Vec::new();
    let mut i: usize = 0;
    while i < scores.len()
        invariant
            i <= scores.len(),
            is_ranking_of(scores@, i as int, top_k as nat, order@),
        decreases scores.len() - i,
    {
        let key = order_key(scores[i]);
        let mut p: usize = order.len();
        while p > 0 && order_key(scores[order[p - 1]]) < key
            invariant
                p <= order.len(),
                i < scores.len(),
                key == score_key(scores@[i as int]),
                forall|q: int| 0 <= q < order@.len() ==> #[trigger] order@[q] < i,
                forall|q: int|
                    p <= q < order@.len() ==> score_key(scores@[#[trigger] order@[q] as int])
                        < key,
            decreases p,
        {
            p = p - 1;
        }
        if p < top_k {
            proof {
                lemma_take_in(scores@, top_k as nat, order@, i, p as int);
            }
            if order.len() == top_k {
                order.pop();
            }
            order.insert(p, i);
        }
        i = i + 1;
    }
    proof {
        lemma_ranking_unique(scores@, top_k as nat, order@, ranking(scores@, top_k as nat));
    }
    order
}

/// A document with the score of its embedding against the query, as the
/// bits of a single-precision number.
#[derive(Debug)]
pub struct ScoredCommand {
    pub score_bits: u32,
    pub command: StoredCommand,
}

/// The scores of `scored`, in order.
pub open spec fn scores_of(scored: Seq<ScoredCommand>) -> Seq<u32> {
    scored.map_values(|s: ScoredCommand| s.score_bits)
}

/// The documents of `scored` at the positions `order`, in that order.
pub open spec fn selected(scored: Seq<ScoredCommand>, order: Seq<usize>) -> Seq<StoredCommandView> {
    order.map_values(|i: usize| scored[i as int].command@)
}

/// The `top_k` documents most similar to the query, most similar first;
/// documents with equal scores come in the order they were inserted. For an
/// empty store the result is empty.
pub fn search_similar(scored: &[ScoredCommand], top_k: usize) -> (found: Vec<StoredCommand>)
    ensures
        command_views(found@) == selected(scored@, ranking(scores_of(scored@), top_k as nat)),
        scored@.len() == 0 ==> found@.len() == 0,
        found@.len() <= top_k,
        found@.len() <= scored@.len(),
{
    let mut scores: Vec<u32> = Vec::new();
    let mut i: usize = 0;
    while i < scored.len()
        invariant
            i <= scored.len(),
            scores@.len() == i,
            forall|j: int| 0 <= j < i ==> scores@[j] == scored@[j].score_bits,
        decreases scored.len() - i,
    {
        scores.push(scored[i].score_bits);
        i = i + 1;
    }
    proof {
        assert(scores@ =~= scores_of(scored@));
    }
    let order = rank_top_k(scores.as_slice(), top_k);
    let mut found: Vec<StoredCommand> = Vec::new();
    let mut p: usize = 0;
    while p < order.len()
        invariant
            p <= order.len(),
            is_ranking(scores_of(scored@), top_k as nat, order@),
            found@.len() == p,
            forall|q: int|
                0 <= q < p ==> (#[trigger] found@[q])@ == scored@[order@[q] as int].command@,
        decreases order.len() - p,
    {
        let position = order[p];
        found.push(scored[position].command.clone());
        p = p + 1;
    }
    found
}

} // verus!
