//! Context-window extraction over sequences of text lines.
//!
//! The heart of the crate is [`extract::extract`]: given a sequence of lines,
//! a predicate on lines, and a context radius, it returns one group of
//! `(index, line)` pairs per matching line, each group covering the window of
//! lines around the match, clamped at the sequence boundaries. Predicates can
//! be substring containment (verified here) or a compiled regular expression
//! (delegated to the `regex` crate).

pub mod arith;
pub mod extract;
pub mod laws;
pub mod pattern;
pub mod predicate;
