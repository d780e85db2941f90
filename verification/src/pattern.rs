//! The pattern-matching engine, as far as the monitor needs it: compiling a
//! pattern once and applying it to one line at a time.
//!
//! Matching itself is done by the `regex` crate. What it finds is a function
//! of the pattern's text and of the line alone, so each result has a name
//! that the contracts of this library are stated over.

use vstd::prelude::*;

verus! {

/// `regex::Regex`: a compiled pattern, carried through as it is.
#[verifier::external_type_specification]
#[verifier::external_body]
pub struct ExRegex(regex::Regex);

/// `regex::Error`: why a pattern did not compile. It is never looked into.
#[verifier::external_type_specification]
#[verifier::external_body]
pub struct ExRegexError(regex::Error);

/// A pattern that compiled, together with the text it was compiled from. A
/// value is only ever made by compiling its text with the engine's default
/// options, so what it finds in a line depends on that text and the line
/// alone.
#[derive(Debug)]
pub struct MetricPattern {
    source: String,
    compiled: regex::Regex,
}

impl View for MetricPattern {
    type V = Seq<char>;

    /// The text that the pattern was compiled from.
    closed spec fn view(&self) -> Seq<char> {
        self.source@
    }
}

/// The number of capture groups in the pattern `source`, the implicit group
/// of the whole match included.
pub uninterp spec fn pattern_group_count(source: Seq<char>) -> nat;

/// What the pattern `source` finds in `line`: `None` where it does not match;
/// where it does, the text of the first capture group, or `None` in its place
/// where that group took no part in the match.
pub uninterp spec fn first_group(source: Seq<char>, line: Seq<char>) -> Option<Option<Seq<char>>>;

/// `regex::Regex::new`: compiles `source`. Whether it succeeds is left open,
/// since the engine also refuses a pattern that would grow too large; where
/// it does, the pattern is kept together with its text.
#[verifier::external_body]
pub(crate) fn compile_pattern(source: &str) -> (r: Result<MetricPattern, regex::Error>)
    ensures
        r matches Ok(pattern) ==> pattern@ == source@,
{
    match regex::Regex::new(source) {
        Ok(compiled) => Ok(MetricPattern { source: source.to_string(), compiled }),
        Err(error) => Err(error),
    }
}

/// `regex::Regex::captures_len`: the number of capture groups of a compiled
/// pattern, which depends on the pattern's text alone and counts the implicit
/// group of the whole match.
#[verifier::external_body]
pub(crate) fn group_count(pattern: &MetricPattern) -> (n: usize)
    ensures
        n as nat == pattern_group_count(pattern@),
{
    pattern.compiled.captures_len()
}

/// `regex::Regex::captures` followed by `regex::Captures::get(1)`: the
/// leftmost match of the pattern in `line` and the text of its first capture
/// group.
#[verifier::external_body]
pub(crate) fn capture_first(pattern: &MetricPattern, line: &str) -> (r: Option<Option<String>>)
    ensures
        captured_view(r) == first_group(pattern@, line@),
{
    match pattern.compiled.captures(line) {
        Some(found) => match found.get(1) {
            Some(group) => Some(Some(group.as_str().to_string())),
            None => Some(None),
        },
        None => None,
    }
}

/// The view of what matching a line gives.
pub open spec fn captured_view(r: Option<Option<String>>) -> Option<Option<Seq<char>>> {
    match r {
        None => None,
        Some(None) => Some(None),
        Some(Some(text)) => Some(Some(text@)),
    }
}

impl MetricPattern {
    /// The text that the pattern was compiled from.
    pub fn source(&self) -> (text: &str)
        ensures
            text@ == self@,
    {
        self.source.as_str()
    }
}

} // verus!
