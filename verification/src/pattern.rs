//! Regular-expression line predicates, delegated to the `regex` crate
//! behind trusted declarations.

use vstd::prelude::*;

verus! {

use crate::predicate::LinePredicate;

#[verifier::external_type_specification]
#[verifier::external_body]
pub struct ExRegex(regex::Regex);

/// Whether `regex::Regex::new` accepts `pattern`: a well-formed regular
/// expression whose compiled form stays within the default size limit.
pub uninterp spec fn regex_valid(pattern: Seq<char>) -> bool;

/// Whether the regular expression `pattern` matches somewhere in `text`,
/// as `regex::Regex::is_match` decides it.
pub uninterp spec fn regex_matches(pattern: Seq<char>, text: Seq<char>) -> bool;

/// A regular expression together with the pattern text it was compiled from.
/// Matches every line in which the expression finds a match.
pub struct RegexPredicate {
    pattern: String,
    regex: regex::Regex,
}

impl RegexPredicate {
    /// The pattern text this predicate was compiled from.
    pub closed spec fn pattern_spec(&self) -> Seq<char> {
        self.pattern@
    }

    /// Relies on `regex::Regex::new`: with the default configuration its
    /// success depends on the pattern text alone, and on success the
    /// returned value matches as the pattern prescribes.
    #[verifier::external_body]
    fn compile_raw(pattern: &str) -> (r: Option<RegexPredicate>)
        ensures
            r is Some <==> regex_valid(pattern@),
            r is Some ==> r->Some_0.pattern_spec() == pattern@,
    {
        match regex::Regex::new(pattern) {
            Ok(regex) => Some(RegexPredicate { pattern: pattern.to_owned(), regex }),
            Err(_) => None,
        }
    }

    /// Compiles `pattern`; returns `None` exactly when `regex::Regex::new`
    /// rejects it.
    pub fn compile(pattern: &str) -> (r: Option<RegexPredicate>)
        ensures
            r is Some <==> regex_valid(pattern@),
            r is Some ==> r->Some_0.pattern_spec() == pattern@,
    {
        RegexPredicate::compile_raw(pattern)
    }

    /// Relies on `regex::Regex::is_match`: its result is a function of the
    /// compiled pattern and the text alone.
    #[verifier::external_body]
    fn is_match(&self, text: &str) -> (r: bool)
        ensures
            r == regex_matches(self.pattern_spec(), text@),
    {
        self.regex.is_match(text)
    }
}

impl LinePredicate for RegexPredicate {
    open spec fn holds(&self, line: Seq<char>) -> bool {
        regex_matches(self.pattern_spec(), line)
    }

    fn test(&self, line: &str) -> (r: bool)
        ensures
            r == self.holds(line@),
    {
        self.is_match(line)
    }
}

} // verus!
