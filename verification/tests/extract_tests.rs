use line_context::extract::{extract, find_matches};
use line_context::predicate::ContainsPredicate;

fn to_lines(v: &[&str]) -> Vec<String> {
    let mut out: Vec<String> = Vec::new();
    for s in v {
        out.push((*s).to_string());
    }
    out
}

fn group(pairs: &[(usize, &str)]) -> Vec<(usize, String)> {
    let mut out: Vec<(usize, String)> = Vec::new();
    for (i, s) in pairs {
        out.push((*i, (*s).to_string()));
    }
    out
}

#[test]
fn overlapping_windows_are_duplicated() {
    let lines = to_lines(&["a", "boo", "c", "foo", "e"]);
    let pred = ContainsPredicate::new("oo");
    let tags = find_matches(&lines, &pred);
    assert_eq!(tags, vec![1, 3]);
    let groups = extract(&lines, &pred, 1);
    assert_eq!(groups.len(), 2);
    assert_eq!(groups[0], group(&[(0, "a"), (1, "boo"), (2, "c")]));
    assert_eq!(groups[1], group(&[(2, "c"), (3, "foo"), (4, "e")]));
}

#[test]
fn no_match_with_wide_context_is_empty() {
    let lines = to_lines(&["x"]);
    let pred = ContainsPredicate::new("zz");
    let groups = extract(&lines, &pred, 5);
    assert!(groups.is_empty());
}

#[test]
fn empty_lines_give_empty_result() {
    let lines: Vec<String> = Vec::new();
    let pred = ContainsPredicate::new("");
    let groups = extract(&lines, &pred, 3);
    assert!(groups.is_empty());
}

#[test]
fn no_matches_give_empty_result() {
    let lines = to_lines(&["alpha", "beta", "gamma"]);
    let pred = ContainsPredicate::new("delta");
    assert!(find_matches(&lines, &pred).is_empty());
    assert!(extract(&lines, &pred, 2).is_empty());
}

#[test]
fn zero_context_yields_singleton_groups() {
    let lines = to_lines(&["a", "boo", "c", "foo", "e"]);
    let pred = ContainsPredicate::new("oo");
    let groups = extract(&lines, &pred, 0);
    assert_eq!(groups.len(), 2);
    assert_eq!(groups[0], group(&[(1, "boo")]));
    assert_eq!(groups[1], group(&[(3, "foo")]));
}

#[test]
fn wide_context_is_clamped_to_bounds() {
    let lines = to_lines(&["one", "two", "three"]);
    let pred = ContainsPredicate::new("two");
    let groups = extract(&lines, &pred, 10);
    assert_eq!(groups.len(), 1);
    assert_eq!(groups[0], group(&[(0, "one"), (1, "two"), (2, "three")]));
}

#[test]
fn group_size_never_exceeds_window() {
    let lines = to_lines(&["m", "m", "m", "m", "m", "m"]);
    let pred = ContainsPredicate::new("m");
    let ctx_lines: usize = 2;
    let groups = extract(&lines, &pred, ctx_lines);
    assert_eq!(groups.len(), 6);
    for g in &groups {
        assert!(g.len() <= 2 * ctx_lines + 1);
    }
}

#[test]
fn every_match_gets_a_group_in_order() {
    let quote = "\
 Every face, every shop,
 bedroom window, public-house, and
 dark square is a picture
 feverishly turned--in search of what?
 It is the same with books.
 What do we seek
 through millions of pages?";
    let lines: Vec<String> = quote.lines().map(|l| l.to_string()).collect();
    let pred = ContainsPredicate::new("oo");
    let tags = find_matches(&lines, &pred);
    assert_eq!(tags, vec![1, 4]);
    let groups = extract(&lines, &pred, 2);
    assert_eq!(groups.len(), 2);
    assert_eq!(
        groups[0],
        group(&[
            (0, "Every face, every shop,"),
            (1, " bedroom window, public-house, and"),
            (2, " dark square is a picture"),
            (3, " feverishly turned--in search of what?"),
        ])
    );
    assert_eq!(
        groups[1],
        group(&[
            (2, " dark square is a picture"),
            (3, " feverishly turned--in search of what?"),
            (4, " It is the same with books."),
            (5, " What do we seek"),
            (6, " through millions of pages?"),
        ])
    );
}

#[test]
fn match_on_first_and_last_lines_clamps() {
    let lines = to_lines(&["edge", "mid", "edge"]);
    let pred = ContainsPredicate::new("edge");
    let groups = extract(&lines, &pred, 1);
    assert_eq!(groups.len(), 2);
    assert_eq!(groups[0], group(&[(0, "edge"), (1, "mid")]));
    assert_eq!(groups[1], group(&[(1, "mid"), (2, "edge")]));
}
