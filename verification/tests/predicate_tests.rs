use line_context::predicate::{contains_pattern, ContainsPredicate, LinePredicate};

#[test]
fn substring_found_in_middle() {
    assert!(contains_pattern("bedroom window", "room"));
}

#[test]
fn substring_found_at_start_and_end() {
    assert!(contains_pattern("books", "boo"));
    assert!(contains_pattern("books", "oks"));
    assert!(contains_pattern("books", "books"));
}

#[test]
fn substring_absent() {
    assert!(!contains_pattern("bedroom window", "picture"));
}

#[test]
fn empty_needle_always_matches() {
    assert!(contains_pattern("anything", ""));
    assert!(contains_pattern("", ""));
}

#[test]
fn needle_longer_than_text_never_matches() {
    assert!(!contains_pattern("oo", "books"));
    assert!(!contains_pattern("", "a"));
}

#[test]
fn repeated_prefix_needle_is_found() {
    assert!(contains_pattern("aaab", "aab"));
    assert!(!contains_pattern("aaac", "aab"));
}

#[test]
fn non_ascii_text_is_searched_by_character() {
    assert!(contains_pattern("Gr\u{fc}\u{df} Gott!", "\u{fc}\u{df}"));
    assert!(!contains_pattern("Gr\u{fc}\u{df} Gott!", "\u{f6}"));
}

#[test]
fn contains_predicate_agrees_with_search() {
    let pred = ContainsPredicate::new("oo");
    assert!(pred.test("books"));
    assert!(!pred.test("pages"));
}
