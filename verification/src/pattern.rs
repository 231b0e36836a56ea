//! Line patterns: regular expressions compiled by the `regex` crate.
//!
//! The engine never looks inside a compiled expression. It hands the
//! expression and a line to the matcher and reads the capture groups that
//! come back. Everything in this module that touches `regex` is trusted;
//! the rest of the crate is proved against the contracts stated here.

use regex::Regex;
use vstd::prelude::*;

verus! {

/// `regex::Regex`, a compiled expression. Opaque to the engine.
#[verifier::external_type_specification]
#[verifier::external_body]
pub struct ExRegex(regex::Regex);

/// `regex::Error`, the matcher's error. Opaque to the engine, which reads
/// only its text.
#[verifier::external_type_specification]
#[verifier::external_body]
pub struct ExRegexError(regex::Error);

/// The pattern text that a compiled expression was built from: what
/// `Regex::as_str` returns for it.
pub uninterp spec fn pattern_text(re: Regex) -> Seq<char>;

/// The capture groups that `Regex::captures` finds for `line`: `None` when
/// the expression does not match, otherwise one entry per group, group 0
/// being the whole match, each entry the text of the group or `None` for a
/// group that took no part in the match.
pub uninterp spec fn captures_of(re: Regex, line: Seq<char>) -> Option<Seq<Option<Seq<char>>>>;

/// The text that `regex::Error` displays as.
pub uninterp spec fn error_text(err: regex::Error) -> Seq<char>;

/// Whether `re` matches `line`.
pub open spec fn matches_line(re: Regex, line: Seq<char>) -> bool {
    captures_of(re, line) is Some
}

/// `Regex::new`. Trusted: a compiled expression reports the pattern it was
/// given as its text. Whether the pattern compiles is left open; it
/// depends on the syntax and on a size limit measured in bytes of the
/// machine at hand.
#[verifier::external_body]
pub(crate) fn regex_new(pattern: &str) -> (r: Result<Regex, regex::Error>)
    ensures
        r matches Ok(re) ==> pattern_text(re) == pattern@,
{
    Regex::new(pattern)
}

/// `Regex::as_str`. Trusted: the result is the expression's pattern text.
#[verifier::external_body]
pub(crate) fn regex_as_str(re: &Regex) -> (r: String)
    ensures
        r@ == pattern_text(*re),
{
    re.as_str().to_string()
}

/// `Regex::captures`, with every group's match turned into owned text.
/// Trusted: the result is a function of the expression and the line.
#[verifier::external_body]
pub(crate) fn regex_captures(re: &Regex, line: &str) -> (r: Option<Vec<Option<String>>>)
    ensures
        r.deep_view() == captures_of(*re, line@),
{
    re.captures(line).map(|caps| caps.iter().map(|g| g.map(|m| m.as_str().to_string())).collect())
}

/// The `Display` text of a `regex::Error`. Trusted: the result is a
/// function of the error.
#[verifier::external_body]
pub(crate) fn regex_error_text(err: &regex::Error) -> (r: String)
    ensures
        r@ == error_text(*err),
{
    err.to_string()
}

/// A pattern that the matcher refused to compile.
#[derive(Debug)]
pub struct PatternError {
    /// The pattern as it was given.
    pub pattern: String,
    /// The matcher's explanation.
    pub message: String,
}

/// Turns the matcher's answer for `pattern` into the engine's own result.
pub fn compiled_or_error(pattern: &str, compiled: Result<Regex, regex::Error>) -> (r: Result<
    Regex,
    PatternError,
>)
    ensures
        compiled matches Ok(re) ==> r == Ok::<Regex, PatternError>(re),
        compiled matches Err(err) ==> r matches Err(e) && e.pattern@ == pattern@ && e.message@
            == error_text(err),
{
    match compiled {
        Ok(re) => Ok(re),
        Err(err) => {
            let message = regex_error_text(&err);
            Err(PatternError { pattern: pattern.to_owned(), message })
        },
    }
}

/// Compiles `pattern`. Whether it compiles is the matcher's decision; on
/// success the expression is the one for this pattern, on failure the
/// error names the pattern.
pub fn compile_pattern(pattern: &str) -> (r: Result<Regex, PatternError>)
    ensures
        r matches Ok(re) ==> pattern_text(re) == pattern@,
        r matches Err(e) ==> e.pattern@ == pattern@,
{
    compiled_or_error(pattern, regex_new(pattern))
}

} // verus!
