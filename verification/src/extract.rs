//! The context-window extractor: find every line satisfying a predicate,
//! then collect the window of lines around each match.

use vstd::prelude::*;

verus! {

use crate::predicate::LinePredicate;

/// The views of a sequence of owned lines.
pub open spec fn lines_view(lines: Seq<String>) -> Seq<Seq<char>> {
    lines.map_values(|s: String| s@)
}

/// The ascending indices below `n` whose line satisfies the predicate.
pub open spec fn match_indices_below<P: LinePredicate>(
    pred: P,
    lines: Seq<Seq<char>>,
    n: int,
) -> Seq<int>
    decreases n,
{
    if n <= 0 {
        Seq::empty()
    } else if pred.holds(lines[n - 1]) {
        match_indices_below(pred, lines, n - 1).push(n - 1)
    } else {
        match_indices_below(pred, lines, n - 1)
    }
}

/// The match index set: all indices whose line satisfies the predicate,
/// in ascending order.
pub open spec fn match_indices<P: LinePredicate>(pred: P, lines: Seq<Seq<char>>) -> Seq<int> {
    match_indices_below(pred, lines, lines.len() as int)
}

/// Lower bound of the context window around match `m`: `max(0, m - ctx)`.
pub open spec fn window_lo(m: int, ctx: int) -> int {
    vstd::math::max(0, m - ctx)
}

/// Upper bound of the context window around match `m` in a sequence of
/// `len` lines: `min(len - 1, m + ctx)`.
pub open spec fn window_hi(m: int, ctx: int, len: int) -> int {
    vstd::math::min(len - 1, m + ctx)
}

/// The context group for a match at `m`: the `(index, line)` pairs for every
/// index in the window around `m`, clamped to the valid indices of `lines`.
pub open spec fn group_of(lines: Seq<Seq<char>>, m: int, ctx: int) -> Seq<(int, Seq<char>)> {
    let lo = window_lo(m, ctx);
    let hi = window_hi(m, ctx, lines.len() as int);
    Seq::new(
        if lo <= hi {
            (hi - lo + 1) as nat
        } else {
            0
        },
        |k: int| (lo + k, lines[lo + k]),
    )
}

/// The full result of extraction: one context group per match, in match order.
pub open spec fn context_groups<P: LinePredicate>(
    pred: P,
    lines: Seq<Seq<char>>,
    ctx: int,
) -> Seq<Seq<(int, Seq<char>)>> {
    match_indices(pred, lines).map_values(|m: int| group_of(lines, m, ctx))
}

/// An owned `(index, line)` pair denotes the given mathematical pair.
pub open spec fn pair_matches(p: (usize, String), q: (int, Seq<char>)) -> bool {
    p.0 as int == q.0 && p.1@ == q.1
}

/// An owned group denotes the given mathematical group, pair for pair.
pub open spec fn group_matches(g: Seq<(usize, String)>, q: Seq<(int, Seq<char>)>) -> bool {
    g.len() == q.len() && forall|k: int| 0 <= k < g.len() ==> pair_matches(g[k], q[k])
}

/// An owned result denotes the given sequence of groups, group for group.
pub open spec fn groups_match(gs: Seq<Vec<(usize, String)>>, qs: Seq<Seq<(int, Seq<char>)>>) -> bool {
    gs.len() == qs.len() && forall|j: int| 0 <= j < gs.len() ==> group_matches(gs[j]@, qs[j])
}

/// Every element of the match index set is a valid index whose line
/// satisfies the predicate.
pub(crate) proof fn lemma_match_indices_below_bounds<P: LinePredicate>(
    pred: P,
    lines: Seq<Seq<char>>,
    n: int,
)
    requires
        n <= lines.len(),
    ensures
        forall|j: int|
            0 <= j < match_indices_below(pred, lines, n).len() ==> {
                let m = #[trigger] match_indices_below(pred, lines, n)[j];
                0 <= m < n && pred.holds(lines[m])
            },
    decreases n,
{
    if n > 0 {
        lemma_match_indices_below_bounds(pred, lines, n - 1);
        let prev = match_indices_below(pred, lines, n - 1);
        let cur = match_indices_below(pred, lines, n);
        assert forall|j: int| 0 <= j < cur.len() implies {
            let m = #[trigger] cur[j];
            0 <= m < n && pred.holds(lines[m])
        } by {
            if pred.holds(lines[n - 1]) {
                assert(cur == prev.push(n - 1));
                if j < prev.len() {
                    assert(cur[j] == prev[j]);
                } else {
                    assert(cur[j] == n - 1);
                }
            } else {
                assert(cur == prev);
            }
        }
    }
}

/// Scans the lines once and returns the index of every line satisfying the
/// predicate, in ascending order.
pub fn find_matches<P: LinePredicate>(lines: &Vec<String>, pred: &P) -> (tags: Vec<usize>)
    ensures
        tags@.map_values(|t: usize| t as int) == match_indices(*pred, lines_view(lines@)),
{
    let ghost all_lines = lines_view(lines@);
    let mut tags: Vec<usize> = Vec::new();
    let n = lines.len();
    let mut i: usize = 0;
    while i < n
        invariant
            n == lines@.len(),
            all_lines == lines_view(lines@),
            0 <= i <= n,
            tags@.map_values(|t: usize| t as int) == match_indices_below(*pred, all_lines, i as int),
        decreases n - i,
    {
        let line: &String = &lines[i];
        assert(all_lines[i as int] == line@);
        if pred.test(line.as_str()) {
            tags.push(i);
        }
        assert(tags@.map_values(|t: usize| t as int) =~= match_indices_below(
            *pred,
            all_lines,
            i + 1,
        ));
        i += 1;
    }
    tags
}

/// Collects, for one match at `m`, the `(index, line)` pairs of the context
/// window around `m`.
fn collect_group(lines: &Vec<String>, m: usize, ctx_lines: usize) -> (group: Vec<(usize, String)>)
    requires
        m < lines@.len(),
    ensures
        group_matches(group@, group_of(lines_view(lines@), m as int, ctx_lines as int)),
{
    let ghost all_lines = lines_view(lines@);
    let n = lines.len();
    let lo: usize = if m >= ctx_lines {
        m - ctx_lines
    } else {
        0
    };
    let hi: usize = if ctx_lines <= n - 1 - m {
        m + ctx_lines
    } else {
        n - 1
    };
    assert(lo == window_lo(m as int, ctx_lines as int));
    assert(hi == window_hi(m as int, ctx_lines as int, all_lines.len() as int));
    let mut group: Vec<(usize, String)> = Vec::new();
    let mut i: usize = lo;
    while i <= hi
        invariant
            n == lines@.len(),
            all_lines == lines_view(lines@),
            lo == window_lo(m as int, ctx_lines as int),
            hi == window_hi(m as int, ctx_lines as int, all_lines.len() as int),
            lo <= hi < n,
            lo <= i <= hi + 1,
            group@.len() == i - lo,
            forall|k: int|
                0 <= k < group@.len() ==> pair_matches(
                    #[trigger] group@[k],
                    (lo + k, all_lines[lo + k]),
                ),
        decreases hi + 1 - i,
    {
        let line: String = lines[i].clone();
        assert(all_lines[i as int] == lines@[i as int]@);
        group.push((i, line));
        i += 1;
    }
    group
}

/// Extracts the context groups: one group per line satisfying the predicate,
/// each holding the `(index, line)` pairs of the window of up to `ctx_lines`
/// lines on either side of the match, clamped at the sequence boundaries.
/// Overlapping windows are reported independently, without merging.
pub fn extract<P: LinePredicate>(lines: &Vec<String>, pred: &P, ctx_lines: usize) -> (groups: Vec<
    Vec<(usize, String)>,
>)
    ensures
        groups_match(groups@, context_groups(*pred, lines_view(lines@), ctx_lines as int)),
{
    let ghost all_lines = lines_view(lines@);
    let tags = find_matches(lines, pred);
    let ghost spec_tags = match_indices(*pred, all_lines);
    proof {
        lemma_match_indices_below_bounds(*pred, all_lines, all_lines.len() as int);
    }
    let mut groups: Vec<Vec<(usize, String)>> = Vec::new();
    if tags.is_empty() {
        return groups;
    }
    let mut j: usize = 0;
    while j < tags.len()
        invariant
            all_lines == lines_view(lines@),
            spec_tags == match_indices(*pred, all_lines),
            tags@.map_values(|t: usize| t as int) == spec_tags,
            forall|j2: int|
                0 <= j2 < spec_tags.len() ==> 0 <= #[trigger] spec_tags[j2] < all_lines.len(),
            0 <= j <= tags@.len(),
            groups@.len() == j,
            forall|j2: int|
                0 <= j2 < j ==> group_matches(
                    #[trigger] groups@[j2]@,
                    group_of(all_lines, spec_tags[j2], ctx_lines as int),
                ),
        decreases tags@.len() - j,
    {
        let m = tags[j];
        assert(m as int == spec_tags[j as int]);
        let group = collect_group(lines, m, ctx_lines);
        groups.push(group);
        j += 1;
    }
    groups
}

} // verus!
