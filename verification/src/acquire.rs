//! Acquisition: from the input, a remote address or a local path, to the root
//! directory of the run.
//!
//! The machine decides; it does not act. Each phase that is not final is a
//! request to the caller, who carries it out and reports back with an event.
//! A remote input is fetched into a fresh temporary directory, first by the
//! version-control program of the host and, where that fails, once more by the
//! embedded library. Nothing else is tried.

use crate::chars::chars_of;
use crate::error::{Failure, FailureView, Operation};
use vstd::prelude::*;

verus! {

/// The history depth of every fetch: the newest revision alone.
pub const SHALLOW_DEPTH: u32 = 1;

/// A way to fetch a remote repository.
#[derive(Debug, Clone, Copy, PartialEq, Eq, Structural)]
pub enum Strategy {
    /// The version-control program of the host, run as a subprocess.
    Subprocess,
    /// The clone facility that is built into the program.
    Embedded,
}

/// Where acquisition stands, and with that what the caller is asked to do.
#[derive(Debug, Clone, PartialEq, Eq)]
pub enum Acquisition {
    /// Find out whether `path` is a directory that can be read.
    Probe { path: String },
    /// Create a fresh temporary directory, for the repository at `url`.
    MakeTempDir { url: String },
    /// Fetch the repository at `url` into `dest` by `strategy`, its history cut
    /// at `depth`.
    Fetch { strategy: Strategy, url: String, dest: String, depth: u32 },
    /// Done: the files are under `root`.
    Ready { root: String },
    /// Done: there is no root directory.
    Failed { failure: Failure },
}

/// What the caller reports.
#[derive(Debug, Clone, PartialEq, Eq)]
pub enum AcquireEvent {
    /// The probed path is a readable directory.
    Found,
    /// The probed path is not there, or cannot be read.
    Missing,
    /// The temporary directory was created, at `path`.
    TempDir { path: String },
    /// No temporary directory could be created.
    NoTempDir,
    /// The fetch succeeded: the program ended with status zero, or the library
    /// returned without error.
    Fetched,
    /// The fetch failed, or the program could not be run at all.
    NotFetched,
}

/// An `Acquisition`, with its texts as sequences of characters.
pub enum AcquisitionView {
    Probe { path: Seq<char> },
    MakeTempDir { url: Seq<char> },
    Fetch { strategy: Strategy, url: Seq<char>, dest: Seq<char>, depth: u32 },
    Ready { root: Seq<char> },
    Failed { failure: FailureView },
}

/// An `AcquireEvent`, with its text as a sequence of characters.
pub enum AcquireEventView {
    Found,
    Missing,
    TempDir { path: Seq<char> },
    NoTempDir,
    Fetched,
    NotFetched,
}

impl View for Acquisition {
    type V = AcquisitionView;

    open spec fn view(&self) -> AcquisitionView {
        match self {
            Acquisition::Probe { path } => AcquisitionView::Probe { path: path@ },
            Acquisition::MakeTempDir { url } => AcquisitionView::MakeTempDir { url: url@ },
            Acquisition::Fetch { strategy, url, dest, depth } => AcquisitionView::Fetch {
                strategy: *strategy,
                url: url@,
                dest: dest@,
                depth: *depth,
            },
            Acquisition::Ready { root } => AcquisitionView::Ready { root: root@ },
            Acquisition::Failed { failure } => AcquisitionView::Failed { failure: failure@ },
        }
    }
}

impl View for AcquireEvent {
    type V = AcquireEventView;

    open spec fn view(&self) -> AcquireEventView {
        match self {
            AcquireEvent::Found => AcquireEventView::Found,
            AcquireEvent::Missing => AcquireEventView::Missing,
            AcquireEvent::TempDir { path } => AcquireEventView::TempDir { path: path@ },
            AcquireEvent::NoTempDir => AcquireEventView::NoTempDir,
            AcquireEvent::Fetched => AcquireEventView::Fetched,
            AcquireEvent::NotFetched => AcquireEventView::NotFetched,
        }
    }
}

/// What a remote input starts with.
pub open spec fn remote_prefix() -> Seq<char> {
    "https://github.com"@
}

/// The input names a remote repository. Every other input is taken for a local
/// path.
pub open spec fn is_remote(input: Seq<char>) -> bool {
    remote_prefix().is_prefix_of(input)
}

/// The first phase for `input`.
pub open spec fn first_phase(input: Seq<char>) -> AcquisitionView {
    if is_remote(input) {
        AcquisitionView::MakeTempDir { url: input }
    } else {
        AcquisitionView::Probe { path: input }
    }
}

/// The phase that follows `phase` on `event`. An event that does not answer
/// the request of the phase changes nothing; the final phases have no request,
/// so nothing changes them.
pub open spec fn next_phase(phase: AcquisitionView, event: AcquireEventView) -> AcquisitionView {
    match (phase, event) {
        (AcquisitionView::Probe { path }, AcquireEventView::Found) => AcquisitionView::Ready {
            root: path,
        },
        (AcquisitionView::Probe { path }, AcquireEventView::Missing) => AcquisitionView::Failed {
            failure: FailureView { operation: Operation::LocateInput, subject: path },
        },
        (
            AcquisitionView::MakeTempDir { url },
            AcquireEventView::TempDir { path },
        ) => AcquisitionView::Fetch {
            strategy: Strategy::Subprocess,
            url,
            dest: path,
            depth: SHALLOW_DEPTH,
        },
        (AcquisitionView::MakeTempDir { url }, AcquireEventView::NoTempDir) => AcquisitionView::Failed {
            failure: FailureView { operation: Operation::CreateTempDir, subject: url },
        },
        (
            AcquisitionView::Fetch { strategy, url, dest, depth },
            AcquireEventView::Fetched,
        ) => AcquisitionView::Ready { root: dest },
        (
            AcquisitionView::Fetch { strategy: Strategy::Subprocess, url, dest, depth },
            AcquireEventView::NotFetched,
        ) => AcquisitionView::Fetch { strategy: Strategy::Embedded, url, dest, depth },
        (
            AcquisitionView::Fetch { strategy: Strategy::Embedded, url, dest, depth },
            AcquireEventView::NotFetched,
        ) => AcquisitionView::Failed {
            failure: FailureView { operation: Operation::Fetch, subject: url },
        },
        _ => phase,
    }
}

/// Tells a remote input from a local path by its first characters.
pub fn names_remote(input: &str) -> (r: bool)
    ensures
        r == is_remote(input@),
{
    let text = chars_of(input);
    let prefix = chars_of("https://github.com");
    if prefix.len() > text.len() {
        return false;
    }
    let mut i: usize = 0;
    while i < prefix.len()
        invariant
            i <= prefix@.len() <= text@.len(),
            prefix@ == remote_prefix(),
            text@ == input@,
            forall|k: int| 0 <= k < i ==> prefix@[k] == text@[k],
        decreases prefix@.len() - i,
    {
        if prefix[i] != text[i] {
            assert(text@.subrange(0, prefix@.len() as int)[i as int] != prefix@[i as int]);
            return false;
        }
        i += 1;
    }
    assert(prefix@ =~= text@.subrange(0, prefix@.len() as int));
    true
}

impl Acquisition {
    /// Starts on `input`: a remote input asks for a temporary directory, a
    /// local path asks to be probed.
    pub fn start(input: &str) -> (phase: Acquisition)
        ensures
            phase@ == first_phase(input@),
    {
        if names_remote(input) {
            Acquisition::MakeTempDir { url: input.to_string() }
        } else {
            Acquisition::Probe { path: input.to_string() }
        }
    }

    /// Whether this phase asks for nothing more.
    pub fn is_final(&self) -> (r: bool)
        ensures
            r == (self@ is Ready || self@ is Failed),
    {
        match self {
            Acquisition::Ready { .. } | Acquisition::Failed { .. } => true,
            _ => false,
        }
    }

    /// Moves on with what the caller reports.
    pub fn advance(self, event: AcquireEvent) -> (next: Acquisition)
        ensures
            next@ == next_phase(self@, event@),
    {
        match self {
            Acquisition::Probe { path } => match event {
                AcquireEvent::Found => Acquisition::Ready { root: path },
                AcquireEvent::Missing => Acquisition::Failed {
                    failure: Failure { operation: Operation::LocateInput, subject: path },
                },
                _ => Acquisition::Probe { path },
            },
            Acquisition::MakeTempDir { url } => match event {
                AcquireEvent::TempDir { path } => Acquisition::Fetch {
                    strategy: Strategy::Subprocess,
                    url,
                    dest: path,
                    depth: SHALLOW_DEPTH,
                },
                AcquireEvent::NoTempDir => Acquisition::Failed {
                    failure: Failure { operation: Operation::CreateTempDir, subject: url },
                },
                _ => Acquisition::MakeTempDir { url },
            },
            Acquisition::Fetch { strategy, url, dest, depth } => match event {
                AcquireEvent::Fetched => Acquisition::Ready { root: dest },
                AcquireEvent::NotFetched => match strategy {
                    Strategy::Subprocess => Acquisition::Fetch {
                        strategy: Strategy::Embedded,
                        url,
                        dest,
                        depth,
                    },
                    Strategy::Embedded => Acquisition::Failed {
                        failure: Failure { operation: Operation::Fetch, subject: url },
                    },
                },
                _ => Acquisition::Fetch { strategy, url, dest, depth },
            },
            Acquisition::Ready { root } => Acquisition::Ready { root },
            Acquisition::Failed { failure } => Acquisition::Failed { failure },
        }
    }
}

/// What holds of every phase that acquisition of `input` can be in: a local
/// input is probed and never fetched; a remote one is fetched from `input`
/// itself, at depth one, and fails only for want of a temporary directory or
/// after the second strategy.
pub open spec fn in_course(input: Seq<char>, phase: AcquisitionView) -> bool {
    match phase {
        AcquisitionView::Probe { path } => !is_remote(input) && path == input,
        AcquisitionView::MakeTempDir { url } => is_remote(input) && url == input,
        AcquisitionView::Fetch { strategy, url, dest, depth } => is_remote(input) && url == input
            && depth == SHALLOW_DEPTH,
        AcquisitionView::Ready { root } => is_remote(input) || root == input,
        AcquisitionView::Failed { failure } => failure.subject == input && if is_remote(input) {
            failure.operation == Operation::CreateTempDir || failure.operation == Operation::Fetch
        } else {
            failure.operation == Operation::LocateInput
        },
    }
}

/// The number of requests that can still follow `phase`.
pub open spec fn requests_left(phase: AcquisitionView) -> nat {
    match phase {
        AcquisitionView::Probe { .. } => 1,
        AcquisitionView::MakeTempDir { .. } => 3,
        AcquisitionView::Fetch { strategy: Strategy::Subprocess, .. } => 2,
        AcquisitionView::Fetch { strategy: Strategy::Embedded, .. } => 1,
        AcquisitionView::Ready { .. } => 0,
        AcquisitionView::Failed { .. } => 0,
    }
}

/// Acquisition starts in course.
pub proof fn lemma_start_in_course(input: Seq<char>)
    ensures
        in_course(input, first_phase(input)),
{
}

/// Acquisition stays in course, whatever is reported.
pub proof fn lemma_next_in_course(input: Seq<char>, phase: AcquisitionView, event: AcquireEventView)
    requires
        in_course(input, phase),
    ensures
        in_course(input, next_phase(phase, event)),
{
}

/// Every event that changes the phase brings the end nearer: a fetch is tried
/// twice at most, and nothing is tried again.
pub proof fn lemma_next_nearer_the_end(phase: AcquisitionView, event: AcquireEventView)
    ensures
        next_phase(phase, event) == phase || requests_left(next_phase(phase, event)) < requests_left(
            phase,
        ),
{
}

/// The second strategy is asked for after the first has failed and at no other
/// time, and it is asked to fetch the same repository into the same directory
/// at the same depth.
pub proof fn lemma_fallback(phase: AcquisitionView, event: AcquireEventView)
    requires
        next_phase(phase, event) != phase,
        next_phase(phase, event) matches AcquisitionView::Fetch { strategy: Strategy::Embedded, .. },
    ensures
        event is NotFetched,
        phase matches AcquisitionView::Fetch { strategy: Strategy::Subprocess, url, dest, depth }
            && next_phase(phase, event) == (AcquisitionView::Fetch {
            strategy: Strategy::Embedded,
            url,
            dest,
            depth,
        }),
{
}

} // verus!
