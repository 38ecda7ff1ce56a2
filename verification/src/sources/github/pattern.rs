//! Glob patterns for the names of tags.

use vstd::prelude::*;

verus! {

/// What the `glob` crate says of a pattern that it rejects; nothing where it takes it.
pub uninterp spec fn glob_pattern_error(pattern: Seq<char>) -> Option<Seq<char>>;

/// Whether the `glob` crate takes a pattern and finds that it matches a name.
pub uninterp spec fn glob_pattern_matches(pattern: Seq<char>, name: Seq<char>) -> bool;

/// Whether a text means the same on every host. A backslash separates the parts of a path on some
/// hosts only, and patterns look at such separators.
pub open spec fn portable(text: Seq<char>) -> bool {
    !text.contains('\\')
}

/// Why a pattern is of no use.
#[derive(Debug, PartialEq, Eq)]
pub struct PatternError {
    /// Where and why it is at fault.
    pub text: String,
}

/// What is said of a checked pattern that was rejected.
pub open spec fn rejection(checked: Result<(), PatternError>) -> Option<Seq<char>> {
    match checked {
        Ok(_) => None,
        Err(error) => Some(error.text@),
    }
}

/// Whether `checked` is what comes of checking `pattern`. Nothing is said of a pattern that means
/// different things on different hosts.
pub open spec fn check_of(pattern: Seq<char>, checked: Result<(), PatternError>) -> bool {
    portable(pattern) ==> rejection(checked) == glob_pattern_error(pattern)
}

/// Whether `matched` is what comes of matching `name` against `pattern`. Nothing is said of texts
/// that mean different things on different hosts.
pub open spec fn match_of(pattern: Seq<char>, name: Seq<char>, matched: bool) -> bool {
    portable(pattern) && portable(name) ==> matched == glob_pattern_matches(pattern, name)
}

/// Calls `glob::Pattern::new`, and gives the text of the `glob::PatternError` that it returns. It
/// is the one that `glob_pattern_error` names, for a pattern without backslashes: whether `**`
/// stands alone between separators depends on the host where a backslash is next to it.
#[verifier::external_body]
pub(crate) fn check_pattern(pattern: &str) -> (checked: Result<(), PatternError>)
    ensures
        portable(pattern@) ==> rejection(checked) == glob_pattern_error(pattern@),
{
    match glob::Pattern::new(pattern) {
        Ok(_) => Ok(()),
        Err(error) => Err(PatternError { text: error.to_string() }),
    }
}

/// Calls `glob::Pattern::matches` on the compiled pattern. The outcome is the one that
/// `glob_pattern_matches` names, for texts without backslashes. A pattern that does not compile
/// matches nothing.
#[verifier::external_body]
pub(crate) fn matches_pattern(pattern: &str, name: &str) -> (matched: bool)
    ensures
        portable(pattern@) && portable(name@) ==> matched == glob_pattern_matches(
            pattern@,
            name@,
        ),
{
    glob::Pattern::new(pattern).is_ok_and(|pattern| pattern.matches(name))
}

} // verus!
