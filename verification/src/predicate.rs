//! Line predicates: the capability interface the extractor is parameterized
//! over, and a verified substring-containment predicate.

use vstd::prelude::*;

verus! {

/// A predicate on text lines. `holds` is the mathematical meaning; `test`
/// is the executable decision procedure, proved to agree with it.
pub trait LinePredicate {
    /// Whether the predicate holds of a line, as a mathematical statement.
    spec fn holds(&self, line: Seq<char>) -> bool;

    /// Decides the predicate on an actual line of text.
    fn test(&self, line: &str) -> (r: bool)
        ensures
            r == self.holds(line@),
    ;
}

/// The pattern occurs in `text` starting at position `k`.
pub open spec fn occurs_at(text: Seq<char>, pat: Seq<char>, k: int) -> bool {
    &&& 0 <= k
    &&& k + pat.len() <= text.len()
    &&& forall|j: int| 0 <= j < pat.len() ==> text[k + j] == pat[j]
}

/// The pattern occurs somewhere in `text`.
pub open spec fn occurs_in(text: Seq<char>, pat: Seq<char>) -> bool {
    exists|k: int| occurs_at(text, pat, k)
}

/// Whether `pat` occurs in `text` starting exactly at position `k`.
fn occurs_at_exec(text: &str, pat: &str, k: usize, text_len: usize, pat_len: usize) -> (r: bool)
    requires
        text_len == text@.len(),
        pat_len == pat@.len(),
        k + pat_len <= text_len,
    ensures
        r == occurs_at(text@, pat@, k as int),
{
    let mut j: usize = 0;
    while j < pat_len
        invariant
            text_len == text@.len(),
            pat_len == pat@.len(),
            k + pat_len <= text_len,
            0 <= j <= pat_len,
            forall|j2: int| 0 <= j2 < j ==> text@[k + j2] == pat@[j2],
        decreases pat_len - j,
    {
        if text.get_char(k + j) != pat.get_char(j) {
            return false;
        }
        j += 1;
    }
    true
}

/// Whether `pat` occurs anywhere in `text`, by naive scan over all
/// candidate start positions.
pub fn contains_pattern(text: &str, pat: &str) -> (r: bool)
    ensures
        r == occurs_in(text@, pat@),
{
    let text_len = text.unicode_len();
    let pat_len = pat.unicode_len();
    if pat_len > text_len {
        assert(forall|k: int| !occurs_at(text@, pat@, k));
        return false;
    }
    let mut k: usize = 0;
    while k <= text_len - pat_len
        invariant
            text_len == text@.len(),
            pat_len == pat@.len(),
            pat_len <= text_len,
            0 <= k <= text_len - pat_len + 1,
            forall|k2: int| 0 <= k2 < k ==> !occurs_at(text@, pat@, k2),
        decreases text_len - pat_len + 1 - k,
    {
        if occurs_at_exec(text, pat, k, text_len, pat_len) {
            return true;
        }
        k += 1;
    }
    assert(forall|k2: int| !occurs_at(text@, pat@, k2));
    false
}

/// Matches every line that contains `needle` as a contiguous substring.
pub struct ContainsPredicate {
    pub needle: String,
}

impl ContainsPredicate {
    /// Builds the predicate for a needle given as a string slice.
    pub fn new(needle: &str) -> (r: ContainsPredicate)
        ensures
            r.needle@ == needle@,
    {
        ContainsPredicate { needle: needle.to_owned() }
    }
}

impl LinePredicate for ContainsPredicate {
    open spec fn holds(&self, line: Seq<char>) -> bool {
        occurs_in(line, self.needle@)
    }

    fn test(&self, line: &str) -> (r: bool)
        ensures
            r == self.holds(line@),
    {
        contains_pattern(line, self.needle.as_str())
    }
}

} // verus!
