//! Properties of the extractor, proved once and for all over the
//! mathematical model in [`crate::extract`].

use vstd::prelude::*;

verus! {

use crate::extract::{
    context_groups,
    group_of,
    lemma_match_indices_below_bounds,
    match_indices,
    match_indices_below,
    window_hi,
    window_lo,
};
use crate::predicate::LinePredicate;

/// The result has exactly one context group per match index.
pub proof fn lemma_one_group_per_match<P: LinePredicate>(
    pred: P,
    lines: Seq<Seq<char>>,
    ctx: int,
)
    ensures
        context_groups(pred, lines, ctx).len() == match_indices(pred, lines).len(),
{
}

/// Every match index is a valid index into the lines, and its line
/// satisfies the predicate.
pub proof fn lemma_matches_sound<P: LinePredicate>(pred: P, lines: Seq<Seq<char>>)
    ensures
        forall|j: int|
            0 <= j < match_indices(pred, lines).len() ==> {
                let m = #[trigger] match_indices(pred, lines)[j];
                0 <= m < lines.len() && pred.holds(lines[m])
            },
{
    lemma_match_indices_below_bounds(pred, lines, lines.len() as int);
}

proof fn lemma_below_complete<P: LinePredicate>(pred: P, lines: Seq<Seq<char>>, n: int)
    requires
        n <= lines.len(),
    ensures
        forall|i: int|
            0 <= i < n && pred.holds(lines[i]) ==> match_indices_below(pred, lines, n).contains(i),
    decreases n,
{
    if n > 0 {
        lemma_below_complete(pred, lines, n - 1);
        let prev = match_indices_below(pred, lines, n - 1);
        let cur = match_indices_below(pred, lines, n);
        assert forall|i: int| 0 <= i < n && pred.holds(lines[i]) implies cur.contains(i) by {
            if pred.holds(lines[n - 1]) {
                assert(cur == prev.push(n - 1));
                if i == n - 1 {
                    assert(cur[prev.len() as int] == i);
                } else {
                    assert(prev.contains(i));
                    let j = choose|j: int| 0 <= j < prev.len() && prev[j] == i;
                    assert(cur[j] == i);
                }
            } else {
                assert(cur == prev);
                assert(i < n - 1);
            }
        }
    }
}

/// Every valid index whose line satisfies the predicate appears in the
/// match index set: no matching line is skipped.
pub proof fn lemma_matches_complete<P: LinePredicate>(pred: P, lines: Seq<Seq<char>>)
    ensures
        forall|i: int|
            0 <= i < lines.len() && pred.holds(lines[i]) ==> match_indices(
                pred,
                lines,
            ).contains(i),
{
    lemma_below_complete(pred, lines, lines.len() as int);
}

proof fn lemma_below_ascending<P: LinePredicate>(pred: P, lines: Seq<Seq<char>>, n: int)
    requires
        n <= lines.len(),
    ensures
        forall|a: int, b: int|
            0 <= a < b < match_indices_below(pred, lines, n).len() ==> #[trigger] match_indices_below(
                pred,
                lines,
                n,
            )[a] < #[trigger] match_indices_below(pred, lines, n)[b],
    decreases n,
{
    if n > 0 {
        lemma_below_ascending(pred, lines, n - 1);
        lemma_match_indices_below_bounds(pred, lines, n - 1);
        let prev = match_indices_below(pred, lines, n - 1);
        let cur = match_indices_below(pred, lines, n);
        assert forall|a: int, b: int| 0 <= a < b < cur.len() implies cur[a] < cur[b] by {
            if pred.holds(lines[n - 1]) {
                assert(cur == prev.push(n - 1));
                assert(cur[a] == prev[a]);
                if b < prev.len() {
                    assert(cur[b] == prev[b]);
                } else {
                    assert(cur[b] == n - 1);
                    assert(prev[a] < n - 1);
                }
            } else {
                assert(cur == prev);
            }
        }
    }
}

/// Match indices come in strictly ascending order, so in particular the
/// match index set holds no duplicates.
pub proof fn lemma_matches_ascending<P: LinePredicate>(pred: P, lines: Seq<Seq<char>>)
    ensures
        forall|a: int, b: int|
            0 <= a < b < match_indices(pred, lines).len() ==> #[trigger] match_indices(
                pred,
                lines,
            )[a] < #[trigger] match_indices(pred, lines)[b],
{
    lemma_below_ascending(pred, lines, lines.len() as int);
}

/// No context group holds more than `2 * ctx + 1` pairs.
pub proof fn lemma_group_size_bound<P: LinePredicate>(pred: P, lines: Seq<Seq<char>>, ctx: int)
    requires
        0 <= ctx,
    ensures
        forall|j: int|
            0 <= j < context_groups(pred, lines, ctx).len() ==> #[trigger] context_groups(
                pred,
                lines,
                ctx,
            )[j].len() <= 2 * ctx + 1,
{
    assert forall|j: int| 0 <= j < context_groups(pred, lines, ctx).len() implies context_groups(
        pred,
        lines,
        ctx,
    )[j].len() <= 2 * ctx + 1 by {
        let m = match_indices(pred, lines)[j];
        assert(context_groups(pred, lines, ctx)[j] == group_of(lines, m, ctx));
    }
}

/// Every pair `(i, text)` in the group derived from match `m` has its index
/// inside the clamped window around `m`, and its text is the line at that
/// index.
pub proof fn lemma_group_contents<P: LinePredicate>(pred: P, lines: Seq<Seq<char>>, ctx: int)
    ensures
        forall|j: int, k: int|
            #![trigger context_groups(pred, lines, ctx)[j][k]]
            (0 <= j < context_groups(pred, lines, ctx).len() && 0 <= k < context_groups(
                pred,
                lines,
                ctx,
            )[j].len()) ==> {
                let m = match_indices(pred, lines)[j];
                let p = context_groups(pred, lines, ctx)[j][k];
                &&& window_lo(m, ctx) <= p.0 <= window_hi(m, ctx, lines.len() as int)
                &&& p.1 == lines[p.0]
            },
{
    assert forall|j: int, k: int|
        #![trigger context_groups(pred, lines, ctx)[j][k]]
        (0 <= j < context_groups(pred, lines, ctx).len() && 0 <= k < context_groups(
            pred,
            lines,
            ctx,
        )[j].len()) implies {
        let m = match_indices(pred, lines)[j];
        let p = context_groups(pred, lines, ctx)[j][k];
        &&& window_lo(m, ctx) <= p.0 <= window_hi(m, ctx, lines.len() as int)
        &&& p.1 == lines[p.0]
    } by {
        let m = match_indices(pred, lines)[j];
        assert(context_groups(pred, lines, ctx)[j] == group_of(lines, m, ctx));
    }
}

/// An empty line sequence yields an empty result, whatever the predicate
/// and the context radius.
pub proof fn lemma_empty_lines<P: LinePredicate>(pred: P, lines: Seq<Seq<char>>, ctx: int)
    requires
        lines.len() == 0,
    ensures
        context_groups(pred, lines, ctx) == Seq::<Seq<(int, Seq<char>)>>::empty(),
{
    assert(context_groups(pred, lines, ctx) =~= Seq::<Seq<(int, Seq<char>)>>::empty());
}

/// If no line satisfies the predicate, the result is empty.
pub proof fn lemma_no_matches<P: LinePredicate>(pred: P, lines: Seq<Seq<char>>, ctx: int)
    requires
        forall|i: int| 0 <= i < lines.len() ==> !pred.holds(#[trigger] lines[i]),
    ensures
        context_groups(pred, lines, ctx) == Seq::<Seq<(int, Seq<char>)>>::empty(),
{
    lemma_matches_sound(pred, lines);
    if match_indices(pred, lines).len() > 0 {
        let m = match_indices(pred, lines)[0];
        assert(pred.holds(lines[m]));
        assert(false);
    }
    assert(context_groups(pred, lines, ctx) =~= Seq::<Seq<(int, Seq<char>)>>::empty());
}

/// With a context radius of zero, every group holds exactly one pair:
/// the matched line itself.
pub proof fn lemma_zero_context<P: LinePredicate>(pred: P, lines: Seq<Seq<char>>)
    ensures
        forall|j: int|
            0 <= j < context_groups(pred, lines, 0).len() ==> {
                let m = match_indices(pred, lines)[j];
                let g = #[trigger] context_groups(pred, lines, 0)[j];
                g.len() == 1 && g[0] == (m, lines[m])
            },
{
    lemma_matches_sound(pred, lines);
    assert forall|j: int|
        #![trigger context_groups(pred, lines, 0)[j]]
        0 <= j < context_groups(pred, lines, 0).len() implies {
        let m = match_indices(pred, lines)[j];
        let g = context_groups(pred, lines, 0)[j];
        g.len() == 1 && g[0] == (m, lines[m])
    } by {
        let m = match_indices(pred, lines)[j];
        assert(0 <= m < lines.len());
        assert(context_groups(pred, lines, 0)[j] == group_of(lines, m, 0));
        assert(window_lo(m, 0) == m);
        assert(window_hi(m, 0, lines.len() as int) == m);
    }
}

} // verus!
