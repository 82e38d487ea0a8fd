//! Glob patterns, as the `glob` crate reads them. Nothing here is proved: the
//! two functions below state what `glob::Pattern` is trusted to do.

use glob::{Pattern, PatternError};
use vstd::prelude::*;

verus! {

/// `glob::Pattern`, a compiled pattern. Nothing is known of what it holds.
#[verifier::external_type_specification]
#[verifier::external_body]
pub struct ExPattern(Pattern);

/// `glob::PatternError`, the error of a pattern that does not compile. Nothing
/// is known of what it holds.
#[verifier::external_type_specification]
#[verifier::external_body]
pub struct ExPatternError(PatternError);

/// Whether `glob::Pattern::new` accepts `pattern`.
pub uninterp spec fn glob_well_formed(pattern: Seq<char>) -> bool;

/// Whether `glob::Pattern::matches` finds that `text` matches the compiled
/// `pattern`. It means something only for a well-formed pattern.
pub uninterp spec fn glob_matches(pattern: Seq<char>, text: Seq<char>) -> bool;

/// Calls `glob::Pattern::new`. The crate parses the characters of `pattern` and
/// nothing else, so whether it succeeds depends on those characters alone (and
/// on the characters that the target platform takes for path separators, which
/// are fixed when the program is built).
#[verifier::external_body]
pub(crate) fn compile_glob(pattern: &str) -> (r: Result<Pattern, PatternError>)
    ensures
        r is Ok <==> glob_well_formed(pattern@),
{
    Pattern::new(pattern)
}

/// Calls `glob::Pattern::new` and, on the compiled pattern,
/// `glob::Pattern::matches`, which matches with the crate's default options:
/// case-sensitive, a wildcard may stand for a separator or a leading dot. The
/// answer is computed from the pattern and the text alone. `None` stands for a
/// pattern that did not compile.
#[verifier::external_body]
pub(crate) fn match_glob(pattern: &str, text: &str) -> (r: Option<bool>)
    ensures
        r is Some <==> glob_well_formed(pattern@),
        r matches Some(found) ==> found == glob_matches(pattern@, text@),
{
    match Pattern::new(pattern) {
        Ok(compiled) => Some(compiled.matches(text)),
        Err(_) => None,
    }
}

} // verus!
