//! Pattern matcher: regular expressions, compiled afresh for every question
//! and never allowed to abort the caller.
//!
//! The regular-expression engine is the `regex` crate. What it computes is
//! not restated here: its answers are given names, and the contracts of
//! this module and of its callers speak of those names.

use regex::NoExpand;
use regex::Regex;
use vstd::prelude::*;

verus! {

/// `regex::Error`, carried from the engine to `describe` and never inspected
/// by verified code.
#[verifier::external_type_specification]
#[verifier::external_body]
pub struct ExRegexError(regex::Error);

/// Whether `Regex::new` accepts `pattern`, under the engine's default limits
/// and on the target that the library is built for: the size limit counts
/// bytes, and a pattern close to it may fit on one pointer width and not on
/// another.
pub uninterp spec fn pattern_compiles(pattern: Seq<char>) -> bool;

/// Whether the regex compiled from `pattern` matches anywhere in `text`: the
/// answer of `Regex::is_match`.
pub uninterp spec fn pattern_found(pattern: Seq<char>, text: Seq<char>) -> bool;

/// `text` with every non-overlapping match of `pattern` replaced by
/// `with`, taken literally: the answer of `Regex::replace_all` when it is
/// handed `NoExpand(with)`.
pub uninterp spec fn pattern_replaced(pattern: Seq<char>, text: Seq<char>, with: Seq<char>) -> Seq<
    char,
>;

/// Compiles `pattern` with `Regex::new` and asks `Regex::is_match` about
/// `text`.
///
/// Trusted: the result is an error exactly when the pattern does not
/// compile, and otherwise it is the engine's answer, which depends on the
/// two strings alone. Neither call panics.
#[verifier::external_body]
fn regex_is_match(pattern: &str, text: &str) -> (r: Result<bool, regex::Error>)
    ensures
        r is Ok == pattern_compiles(pattern@),
        r matches Ok(found) ==> found == pattern_found(pattern@, text@),
{
    match Regex::new(pattern) {
        Ok(re) => Ok(re.is_match(text)),
        Err(e) => Err(e),
    }
}

/// Compiles `pattern` with `Regex::new` and lets `Regex::replace_all`
/// rewrite `text`, the replacement wrapped in `NoExpand` so that no `$name`
/// in it is read as a capture group.
///
/// Trusted: the result is an error exactly when the pattern does not
/// compile, and otherwise it is the engine's rewritten text, which depends
/// on the three strings alone. Neither call panics.
#[verifier::external_body]
fn regex_replace_all(pattern: &str, text: &str, with: &str) -> (r: Result<String, regex::Error>)
    ensures
        r is Ok == pattern_compiles(pattern@),
        r matches Ok(s) ==> s@ == pattern_replaced(pattern@, text@, with@),
{
    match Regex::new(pattern) {
        Ok(re) => Ok(re.replace_all(text, NoExpand(with)).into_owned()),
        Err(e) => Err(e),
    }
}

/// Renders a `regex::Error` with its `Debug` implementation. Nothing is
/// claimed of the text.
#[verifier::external_body]
fn describe(e: &regex::Error) -> String {
    format!("{:?}", e)
}

/// Why a pattern could not be used: the engine's own diagnostic, for the
/// caller to report as it sees fit.
#[derive(Debug)]
pub struct PatternError {
    pub diagnostic: String,
}

/// What `re_contains` answers: the pattern compiles and is found in `line`.
pub open spec fn contains_match(line: Seq<char>, ptn: Seq<char>) -> bool {
    pattern_compiles(ptn) && pattern_found(ptn, line)
}

/// Asks whether `ptn` matches anywhere in `line`, reporting a malformed
/// pattern as an error value instead of aborting.
pub fn try_contains(line: &str, ptn: &str) -> (r: Result<bool, PatternError>)
    ensures
        r is Ok == pattern_compiles(ptn@),
        r matches Ok(found) ==> found == pattern_found(ptn@, line@),
{
    match regex_is_match(ptn, line) {
        Ok(found) => Ok(found),
        Err(e) => Err(PatternError { diagnostic: describe(&e) }),
    }
}

/// Folds the outcome of a match into a plain answer: a pattern that could
/// not be used matches nothing.
pub fn matched(outcome: &Result<bool, PatternError>) -> (b: bool)
    ensures
        b == (outcome matches Ok(found) && *found),
{
    match outcome {
        Ok(found) => *found,
        Err(_) => false,
    }
}

/// Whether `ptn` matches anywhere in `line`. A malformed pattern yields
/// `false`.
pub fn re_contains(line: &str, ptn: &str) -> (b: bool)
    ensures
        b == contains_match(line@, ptn@),
{
    let outcome = try_contains(line, ptn);
    matched(&outcome)
}

/// Replaces every non-overlapping match of `ptn` in `text` by the literal
/// text `with`, reporting a malformed pattern as an error value.
pub fn replace_matches(text: &str, ptn: &str, with: &str) -> (r: Result<String, PatternError>)
    ensures
        r is Ok == pattern_compiles(ptn@),
        r matches Ok(s) ==> s@ == pattern_replaced(ptn@, text@, with@),
{
    match regex_replace_all(ptn, text, with) {
        Ok(s) => Ok(s),
        Err(e) => Err(PatternError { diagnostic: describe(&e) }),
    }
}

} // verus!
