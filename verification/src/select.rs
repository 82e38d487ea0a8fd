//! File selection by glob patterns: a path is taken where an include pattern
//! matches it and no exclude pattern does.

use crate::globs::{glob_matches, glob_well_formed, match_glob};
use vstd::prelude::*;

verus! {

/// `pattern` compiles and matches `path`. A pattern that does not compile
/// matches nothing.
pub open spec fn pattern_matches(pattern: Seq<char>, path: Seq<char>) -> bool {
    glob_well_formed(pattern) && glob_matches(pattern, path)
}

/// One of `patterns` matches `path`.
pub open spec fn any_matches(patterns: Seq<Seq<char>>, path: Seq<char>) -> bool {
    exists|i: int| 0 <= i < patterns.len() && pattern_matches(#[trigger] patterns[i], path)
}

/// The selection rule: included, and not excluded.
pub open spec fn selected(path: Seq<char>, includes: Seq<Seq<char>>, excludes: Seq<Seq<char>>) -> bool {
    any_matches(includes, path) && !any_matches(excludes, path)
}

/// Whether one of `patterns` matches `path`.
pub fn matches_any(patterns: &[String], path: &str) -> (r: bool)
    ensures
        r == any_matches(patterns.deep_view(), path@),
{
    let mut i: usize = 0;
    while i < patterns.len()
        invariant
            i <= patterns@.len(),
            forall|k: int| 0 <= k < i ==> !pattern_matches(#[trigger] patterns.deep_view()[k], path@),
        decreases patterns@.len() - i,
    {
        let found = match_glob(patterns[i].as_str(), path);
        assert(patterns.deep_view()[i as int] == patterns@[i as int]@);
        match found {
            Some(true) => {
                return true;
            },
            _ => {},
        }
        i += 1;
    }
    false
}

/// Decides whether the file at `path` goes into the output: an include
/// pattern must match the path and no exclude pattern may.
pub fn should_process_file(path: &str, includes: &[String], excludes: &[String]) -> (r: bool)
    ensures
        r == selected(path@, includes.deep_view(), excludes.deep_view()),
{
    matches_any(includes, path) && !matches_any(excludes, path)
}

/// A pattern list matches whatever a list with the same patterns matches.
pub proof fn lemma_any_matches_by_set(a: Seq<Seq<char>>, b: Seq<Seq<char>>, path: Seq<char>)
    requires
        a.to_set() == b.to_set(),
    ensures
        any_matches(a, path) == any_matches(b, path),
{
    if any_matches(a, path) {
        let i = choose|i: int| 0 <= i < a.len() && pattern_matches(#[trigger] a[i], path);
        assert(a.contains(a[i]));
        assert(b.to_set().contains(a[i]));
        let j = choose|j: int| 0 <= j < b.len() && b[j] == a[i];
        assert(pattern_matches(b[j], path));
    }
    if any_matches(b, path) {
        let i = choose|i: int| 0 <= i < b.len() && pattern_matches(#[trigger] b[i], path);
        assert(b.contains(b[i]));
        assert(a.to_set().contains(b[i]));
        let j = choose|j: int| 0 <= j < a.len() && a[j] == b[i];
        assert(pattern_matches(a[j], path));
    }
}

/// The decision is a function of the path, the set of include patterns and the
/// set of exclude patterns: neither the order of the patterns nor a pattern
/// written twice changes it, and nothing else enters into it.
pub proof fn lemma_selected_by_pattern_sets(
    path: Seq<char>,
    includes_a: Seq<Seq<char>>,
    excludes_a: Seq<Seq<char>>,
    includes_b: Seq<Seq<char>>,
    excludes_b: Seq<Seq<char>>,
)
    requires
        includes_a.to_set() == includes_b.to_set(),
        excludes_a.to_set() == excludes_b.to_set(),
    ensures
        selected(path, includes_a, excludes_a) == selected(path, includes_b, excludes_b),
{
    lemma_any_matches_by_set(includes_a, includes_b, path);
    lemma_any_matches_by_set(excludes_a, excludes_b, path);
}

/// Exclusion wins: a path that an exclude pattern matches is not selected,
/// whatever the include patterns are.
pub proof fn lemma_excluded_is_not_selected(
    path: Seq<char>,
    includes: Seq<Seq<char>>,
    excludes: Seq<Seq<char>>,
    index: int,
)
    requires
        0 <= index < excludes.len(),
        pattern_matches(excludes[index], path),
    ensures
        !selected(path, includes, excludes),
{
}

} // verus!
