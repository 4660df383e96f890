//! Line classifier: decides from the text of a line alone whether it is an
//! alias definition, an environment assignment, an `export` statement or a
//! purely arithmetic expression.

use crate::pattern::contains_match;
use crate::pattern::re_contains;
use vstd::prelude::*;

verus! {

/// `alias <name>=<anything>`, the name made of word characters, dots and
/// hyphens, with optional leading whitespace of any kind.
pub const ALIAS_PATTERN: &'static str = r"^\s*alias +[a-zA-Z0-9_\.-]+=.*$";

/// `<name>=<anything>`, with nothing before the name.
pub const ENV_PATTERN: &'static str = r"^[a-zA-Z0-9_]+=.*$";

/// `export <name>=<anything>`, with at least one space after `export` and
/// optional spaces before it.
pub const EXPORT_ENV_PATTERN: &'static str = r"^ *export +[a-zA-Z0-9_]+=.*$";

/// At least one digit.
pub const DIGIT_PATTERN: &'static str = r"[0-9]+";

/// Nothing but digits, whitespace of any kind, dots, parentheses and the
/// four operators.
pub const ARITHMETIC_PATTERN: &'static str = r"^[\s0-9\.\(\)\+\-\*/]+$";

/// A brace group with at least one comma and no space or quote inside.
pub const BRACE_PATTERN: &'static str = r#"\{[^ "']+,[^ "']+,?[^ "']*\}"#;

/// What `is_alias` answers.
pub open spec fn alias_line(line: Seq<char>) -> bool {
    contains_match(line, ALIAS_PATTERN@)
}

/// What `is_env` answers.
pub open spec fn env_line(line: Seq<char>) -> bool {
    contains_match(line, ENV_PATTERN@)
}

/// What `is_export_env` answers.
pub open spec fn export_env_line(line: Seq<char>) -> bool {
    contains_match(line, EXPORT_ENV_PATTERN@)
}

/// What `is_arithmetic` answers. Both conditions are needed: a line of
/// operators alone is not arithmetic.
pub open spec fn arithmetic_line(line: Seq<char>) -> bool {
    contains_match(line, DIGIT_PATTERN@) && contains_match(line, ARITHMETIC_PATTERN@)
}

/// What `should_extend_brace` answers.
pub open spec fn brace_line(line: Seq<char>) -> bool {
    contains_match(line, BRACE_PATTERN@)
}

/// Whether `line` defines an alias.
pub fn is_alias(line: &str) -> (b: bool)
    ensures
        b == alias_line(line@),
{
    re_contains(line, ALIAS_PATTERN)
}

/// Whether `line` is a bare environment assignment. A line that starts with
/// `export` is none.
pub fn is_env(line: &str) -> (b: bool)
    ensures
        b == env_line(line@),
{
    re_contains(line, ENV_PATTERN)
}

/// Whether `line` is an `export` of an environment assignment.
pub fn is_export_env(line: &str) -> (b: bool)
    ensures
        b == export_env_line(line@),
{
    re_contains(line, EXPORT_ENV_PATTERN)
}

/// Turns the answers to the two questions about an arithmetic line into
/// one: a digit was found, and nothing but the allowed characters.
pub fn arithmetic_of(digit_found: bool, allowed_only: bool) -> (b: bool)
    ensures
        b == (digit_found && allowed_only),
{
    digit_found && allowed_only
}

/// Whether `line` is an arithmetic expression and nothing else.
pub fn is_arithmetic(line: &str) -> (b: bool)
    ensures
        b == arithmetic_line(line@),
{
    let digit_found = re_contains(line, DIGIT_PATTERN);
    let allowed_only = re_contains(line, ARITHMETIC_PATTERN);
    arithmetic_of(digit_found, allowed_only)
}

/// Whether `line` holds a brace group that calls for brace expansion.
pub fn should_extend_brace(line: &str) -> (b: bool)
    ensures
        b == brace_line(line@),
{
    re_contains(line, BRACE_PATTERN)
}

/// The kind of a line: a tag, with nothing parsed out of the line.
#[derive(Clone, Copy, Debug, PartialEq, Eq, Structural)]
pub enum ClassificationResult {
    Alias,
    EnvAssignment,
    ExportEnv,
    Arithmetic,
    Plain,
}

/// The tag that goes with the answers of the four predicates. An `export`
/// is asked for before a bare assignment.
pub open spec fn classification(
    alias: bool,
    export_env: bool,
    env: bool,
    arithmetic: bool,
) -> ClassificationResult {
    if alias {
        ClassificationResult::Alias
    } else if export_env {
        ClassificationResult::ExportEnv
    } else if env {
        ClassificationResult::EnvAssignment
    } else if arithmetic {
        ClassificationResult::Arithmetic
    } else {
        ClassificationResult::Plain
    }
}

/// Turns the answers of the four predicates into a tag.
pub fn tag_of(alias: bool, export_env: bool, env: bool, arithmetic: bool) -> (tag:
    ClassificationResult)
    ensures
        tag == classification(alias, export_env, env, arithmetic),
{
    if alias {
        ClassificationResult::Alias
    } else if export_env {
        ClassificationResult::ExportEnv
    } else if env {
        ClassificationResult::EnvAssignment
    } else if arithmetic {
        ClassificationResult::Arithmetic
    } else {
        ClassificationResult::Plain
    }
}

/// Classifies `line`.
pub fn classify(line: &str) -> (tag: ClassificationResult)
    ensures
        tag == classification(
            alias_line(line@),
            export_env_line(line@),
            env_line(line@),
            arithmetic_line(line@),
        ),
{
    tag_of(is_alias(line), is_export_env(line), is_env(line), is_arithmetic(line))
}

} // verus!
