//! The selection configuration: glob patterns to take and to leave out, or a
//! list of allowed extensions.

use crate::error::{Failure, FailureView, Operation};
use crate::extension::{extension_allowed, has_allowed_extension};
use crate::globs::{compile_glob, glob_well_formed};
use crate::select::{selected, should_process_file};
use vstd::prelude::*;

verus! {

/// How files are selected. One mode is active in a run.
#[derive(Debug, Clone, PartialEq, Eq)]
pub enum SelectionConfig {
    /// A path is taken where one of `includes` matches it and none of
    /// `excludes` does.
    Globs { includes: Vec<String>, excludes: Vec<String> },
    /// A path is taken where its extension is one of `allowed`.
    Extensions { allowed: Vec<String> },
}

/// A selection configuration as mathematics: lists of character sequences.
pub enum Selection {
    Globs { includes: Seq<Seq<char>>, excludes: Seq<Seq<char>> },
    Extensions { allowed: Seq<Seq<char>> },
}

impl View for SelectionConfig {
    type V = Selection;

    open spec fn view(&self) -> Selection {
        match self {
            SelectionConfig::Globs { includes, excludes } => Selection::Globs {
                includes: includes.deep_view(),
                excludes: excludes.deep_view(),
            },
            SelectionConfig::Extensions { allowed } => Selection::Extensions {
                allowed: allowed.deep_view(),
            },
        }
    }
}

/// The patterns that select files where none are configured.
pub open spec fn default_patterns() -> Seq<Seq<char>> {
    seq![
        "*.toml"@,
        "*.md"@,
        "*.py"@,
        "*.rs"@,
        "*.cpp"@,
        "*.h"@,
        "*.hpp"@,
        "*.c"@,
        "*.rst"@,
        "*.txt"@,
        "*.cuh"@,
        "*.cu"@,
    ]
}

/// The extensions that select files where none are configured: those of the
/// default patterns.
pub open spec fn default_extension_list() -> Seq<Seq<char>> {
    seq![
        "toml"@,
        "md"@,
        "py"@,
        "rs"@,
        "cpp"@,
        "h"@,
        "hpp"@,
        "c"@,
        "rst"@,
        "txt"@,
        "cuh"@,
        "cu"@,
    ]
}

/// Every pattern of the list compiles.
pub open spec fn all_well_formed(patterns: Seq<Seq<char>>) -> bool {
    forall|i: int| 0 <= i < patterns.len() ==> glob_well_formed(#[trigger] patterns[i])
}

/// The pattern at `index` is the first of the list that does not compile.
pub open spec fn first_malformed(patterns: Seq<Seq<char>>, index: int) -> bool {
    &&& 0 <= index < patterns.len()
    &&& !glob_well_formed(patterns[index])
    &&& all_well_formed(patterns.take(index))
}

/// The default include patterns: common source, documentation and text files.
pub fn default_include() -> (patterns: Vec<String>)
    ensures
        patterns.deep_view() == default_patterns(),
{
    let mut patterns: Vec<String> = Vec::new();
    patterns.push("*.toml".to_string());
    patterns.push("*.md".to_string());
    patterns.push("*.py".to_string());
    patterns.push("*.rs".to_string());
    patterns.push("*.cpp".to_string());
    patterns.push("*.h".to_string());
    patterns.push("*.hpp".to_string());
    patterns.push("*.c".to_string());
    patterns.push("*.rst".to_string());
    patterns.push("*.txt".to_string());
    patterns.push("*.cuh".to_string());
    patterns.push("*.cu".to_string());
    assert(patterns.deep_view() =~= default_patterns());
    patterns
}

/// The default extensions, for the mode that selects by extension.
pub fn default_extensions() -> (allowed: Vec<String>)
    ensures
        allowed.deep_view() == default_extension_list(),
{
    let mut allowed: Vec<String> = Vec::new();
    allowed.push("toml".to_string());
    allowed.push("md".to_string());
    allowed.push("py".to_string());
    allowed.push("rs".to_string());
    allowed.push("cpp".to_string());
    allowed.push("h".to_string());
    allowed.push("hpp".to_string());
    allowed.push("c".to_string());
    allowed.push("rst".to_string());
    allowed.push("txt".to_string());
    allowed.push("cuh".to_string());
    allowed.push("cu".to_string());
    assert(allowed.deep_view() =~= default_extension_list());
    allowed
}

/// Looks for the first pattern of `patterns` that does not compile.
pub fn find_malformed(patterns: &[String]) -> (r: Option<usize>)
    ensures
        r is None <==> all_well_formed(patterns.deep_view()),
        r matches Some(index) ==> first_malformed(patterns.deep_view(), index as int),
{
    let mut i: usize = 0;
    while i < patterns.len()
        invariant
            i <= patterns@.len(),
            all_well_formed(patterns.deep_view().take(i as int)),
        decreases patterns@.len() - i,
    {
        assert(patterns.deep_view()[i as int] == patterns@[i as int]@);
        match compile_glob(patterns[i].as_str()) {
            Ok(_) => {},
            Err(_) => {
                return Some(i);
            },
        }
        proof {
            let views = patterns.deep_view();
            assert forall|k: int| 0 <= k < i + 1 implies glob_well_formed(
                #[trigger] views.take(i + 1)[k],
            ) by {
                if k < i {
                    assert(views.take(i as int)[k] == views.take(i + 1)[k]);
                }
            }
        }
        i += 1;
    }
    assert(patterns.deep_view().take(i as int) =~= patterns.deep_view());
    None
}

impl Selection {
    /// Whether the configuration takes `path`.
    pub open spec fn takes(self, path: Seq<char>) -> bool {
        match self {
            Selection::Globs { includes, excludes } => selected(path, includes, excludes),
            Selection::Extensions { allowed } => extension_allowed(path, allowed),
        }
    }

    /// Every pattern of the configuration compiles. A list of extensions holds
    /// no pattern.
    pub open spec fn well_formed(self) -> bool {
        match self {
            Selection::Globs { includes, excludes } => all_well_formed(includes) && all_well_formed(
                excludes,
            ),
            Selection::Extensions { allowed } => true,
        }
    }

    /// `failure` is the one that checking this configuration ends in: it
    /// names the first include pattern that does not compile or, where all of
    /// those do, the first such exclude pattern.
    pub open spec fn rejected_for(self, failure: FailureView) -> bool {
        &&& self matches Selection::Globs { includes, excludes }
        &&& match failure.operation {
            Operation::CompileIncludePattern => exists|index: int|
                first_malformed(includes, index) && failure.subject == #[trigger] includes[index],
            Operation::CompileExcludePattern => all_well_formed(includes) && exists|index: int|
                first_malformed(excludes, index) && failure.subject == #[trigger] excludes[index],
            _ => false,
        }
    }
}

impl SelectionConfig {
    /// The configuration of a run by glob patterns. A list that is not given
    /// takes its default: the default patterns to include, nothing to exclude.
    pub fn from_patterns(includes: Option<Vec<String>>, excludes: Option<Vec<String>>) -> (config:
        SelectionConfig)
        ensures
            config@ == (Selection::Globs {
                includes: match includes {
                    Some(given) => given.deep_view(),
                    None => default_patterns(),
                },
                excludes: match excludes {
                    Some(given) => given.deep_view(),
                    None => Seq::empty(),
                },
            }),
    {
        let taken = match includes {
            Some(given) => given,
            None => default_include(),
        };
        let left = match excludes {
            Some(given) => given,
            None => {
                let nothing: Vec<String> = Vec::new();
                assert(nothing.deep_view() =~= Seq::<Seq<char>>::empty());
                nothing
            },
        };
        SelectionConfig::Globs { includes: taken, excludes: left }
    }

    /// The configuration of a run by extensions.
    pub fn from_extensions(allowed: Vec<String>) -> (config: SelectionConfig)
        ensures
            config@ == (Selection::Extensions { allowed: allowed.deep_view() }),
    {
        SelectionConfig::Extensions { allowed }
    }

    /// Checks the patterns. The failure names the first include pattern that
    /// does not compile or, where all of those do, the first such exclude
    /// pattern.
    pub fn validate(&self) -> (r: Result<(), Failure>)
        ensures
            r is Ok <==> self@.well_formed(),
            r matches Err(failure) ==> self@.rejected_for(failure@),
    {
        match self {
            SelectionConfig::Globs { includes, excludes } => {
                match find_malformed(includes.as_slice()) {
                    Some(index) => {
                        assert(includes.deep_view()[index as int] == includes@[index as int]@);
                        return Err(
                            Failure::new(Operation::CompileIncludePattern, includes[index].as_str()),
                        );
                    },
                    None => {},
                }
                match find_malformed(excludes.as_slice()) {
                    Some(index) => {
                        assert(excludes.deep_view()[index as int] == excludes@[index as int]@);
                        Err(Failure::new(Operation::CompileExcludePattern, excludes[index].as_str()))
                    },
                    None => Ok(()),
                }
            },
            SelectionConfig::Extensions { .. } => Ok(()),
        }
    }

    /// Decides whether the file at `path` goes into the output.
    pub fn selects(&self, path: &str) -> (r: bool)
        ensures
            r == self@.takes(path@),
    {
        match self {
            SelectionConfig::Globs { includes, excludes } => should_process_file(
                path,
                includes.as_slice(),
                excludes.as_slice(),
            ),
            SelectionConfig::Extensions { allowed } => has_allowed_extension(path, allowed.as_slice()),
        }
    }
}

} // verus!
