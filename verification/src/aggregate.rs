//! Aggregation: from the entries of the root directory to the blocks of the
//! output file, one file at a time.
//!
//! The machine decides; it does not act. Each phase that is not final is a
//! request to the caller, who opens, walks, reads and writes, and reports
//! back with an event. The first failure ends the run.

use crate::block::{file_output, process_file};
use crate::config::{Selection, SelectionConfig};
use crate::error::{Failure, FailureView, Operation};
use vstd::prelude::*;
use vstd::string::StringExecFns;
use vstd::utf8::valid_utf8;

verus! {

/// Where aggregation stands, and with that what the caller is asked to do.
#[derive(Debug, Clone, PartialEq, Eq)]
pub enum Phase {
    /// Create the output file, or empty it where it exists.
    OpenOutput,
    /// Take the next entry from the walk of the root directory.
    NextEntry,
    /// Read the whole file at `path`.
    ReadFile { path: String },
    /// Write `text` to the output file and flush it, then tell the user that
    /// `path` is done.
    WriteBlock { path: String, text: String },
    /// Done: every entry has been dealt with.
    Finished,
    /// Done: the run has failed.
    Failed { failure: Failure },
}

/// What the caller reports.
#[derive(Debug, Clone, PartialEq, Eq)]
pub enum WalkEvent {
    /// The output file is open and empty.
    Opened,
    /// The output file could not be created.
    NotOpened,
    /// The walk yields the entry at `path`; `is_file` says whether it is a
    /// regular file.
    Entry { path: String, is_file: bool },
    /// The walk failed.
    WalkFailed,
    /// The walk has no more entries.
    WalkEnded,
    /// These are the bytes of the file that was to be read.
    Contents { bytes: Vec<u8> },
    /// The file could not be opened or read.
    Unreadable,
    /// The block is written and flushed.
    Written,
    /// The block could not be written.
    NotWritten,
}

/// The aggregation of one run.
#[derive(Debug, Clone, PartialEq, Eq)]
pub struct Aggregator {
    config: SelectionConfig,
    root: String,
    output: String,
    phase: Phase,
}

/// A `Phase`, with its texts as sequences of characters.
pub enum PhaseView {
    OpenOutput,
    NextEntry,
    ReadFile { path: Seq<char> },
    WriteBlock { path: Seq<char>, text: Seq<char> },
    Finished,
    Failed { failure: FailureView },
}

/// A `WalkEvent`, with its contents as sequences.
pub enum WalkEventView {
    Opened,
    NotOpened,
    Entry { path: Seq<char>, is_file: bool },
    WalkFailed,
    WalkEnded,
    Contents { bytes: Seq<u8> },
    Unreadable,
    Written,
    NotWritten,
}

/// An `Aggregator` as mathematics.
pub struct AggregatorView {
    pub rule: Selection,
    pub root: Seq<char>,
    pub output: Seq<char>,
    pub phase: PhaseView,
}

impl View for Phase {
    type V = PhaseView;

    open spec fn view(&self) -> PhaseView {
        match self {
            Phase::OpenOutput => PhaseView::OpenOutput,
            Phase::NextEntry => PhaseView::NextEntry,
            Phase::ReadFile { path } => PhaseView::ReadFile { path: path@ },
            Phase::WriteBlock { path, text } => PhaseView::WriteBlock { path: path@, text: text@ },
            Phase::Finished => PhaseView::Finished,
            Phase::Failed { failure } => PhaseView::Failed { failure: failure@ },
        }
    }
}

impl View for WalkEvent {
    type V = WalkEventView;

    open spec fn view(&self) -> WalkEventView {
        match self {
            WalkEvent::Opened => WalkEventView::Opened,
            WalkEvent::NotOpened => WalkEventView::NotOpened,
            WalkEvent::Entry { path, is_file } => WalkEventView::Entry {
                path: path@,
                is_file: *is_file,
            },
            WalkEvent::WalkFailed => WalkEventView::WalkFailed,
            WalkEvent::WalkEnded => WalkEventView::WalkEnded,
            WalkEvent::Contents { bytes } => WalkEventView::Contents { bytes: bytes@ },
            WalkEvent::Unreadable => WalkEventView::Unreadable,
            WalkEvent::Written => WalkEventView::Written,
            WalkEvent::NotWritten => WalkEventView::NotWritten,
        }
    }
}

impl View for Aggregator {
    type V = AggregatorView;

    closed spec fn view(&self) -> AggregatorView {
        AggregatorView {
            rule: self.config@,
            root: self.root@,
            output: self.output@,
            phase: self.phase@,
        }
    }
}

/// The failure of `operation` on `subject`.
pub open spec fn failed(operation: Operation, subject: Seq<char>) -> PhaseView {
    PhaseView::Failed { failure: FailureView { operation, subject } }
}

impl AggregatorView {
    /// The phase that follows on `event`. An entry is read where it is a
    /// regular file that the rule takes, and passed over otherwise. What was
    /// read is written as one block where it is valid UTF-8. An event that
    /// does not answer the request of the phase changes nothing; the final
    /// phases have no request, so nothing changes them.
    pub open spec fn next_phase(self, event: WalkEventView) -> PhaseView {
        match (self.phase, event) {
            (PhaseView::OpenOutput, WalkEventView::Opened) => PhaseView::NextEntry,
            (PhaseView::OpenOutput, WalkEventView::NotOpened) => failed(
                Operation::CreateOutput,
                self.output,
            ),
            (PhaseView::NextEntry, WalkEventView::Entry { path, is_file }) => if is_file
                && self.rule.takes(path) {
                PhaseView::ReadFile { path }
            } else {
                PhaseView::NextEntry
            },
            (PhaseView::NextEntry, WalkEventView::WalkFailed) => failed(Operation::Walk, self.root),
            (PhaseView::NextEntry, WalkEventView::WalkEnded) => PhaseView::Finished,
            (PhaseView::ReadFile { path }, WalkEventView::Contents { bytes }) => if valid_utf8(bytes) {
                PhaseView::WriteBlock { path, text: file_output(path, bytes) }
            } else {
                failed(Operation::DecodeFile, path)
            },
            (PhaseView::ReadFile { path }, WalkEventView::Unreadable) => failed(
                Operation::ReadFile,
                path,
            ),
            (PhaseView::WriteBlock { path, text }, WalkEventView::Written) => PhaseView::NextEntry,
            (PhaseView::WriteBlock { path, text }, WalkEventView::NotWritten) => failed(
                Operation::WriteOutput,
                self.output,
            ),
            _ => self.phase,
        }
    }

    /// The aggregator after `event`: the phase moves, the rest stays.
    pub open spec fn next(self, event: WalkEventView) -> AggregatorView {
        AggregatorView { phase: self.next_phase(event), ..self }
    }

    /// What `event` adds to the output file: the text of the block, where the
    /// event reports that the block was written.
    pub open spec fn emitted(self, event: WalkEventView) -> Seq<char> {
        match (self.phase, event) {
            (PhaseView::WriteBlock { path, text }, WalkEventView::Written) => text,
            _ => Seq::empty(),
        }
    }
}

/// What the user is told after a run that succeeded.
pub open spec fn confirmation_text(output: Seq<char>) -> Seq<char> {
    "All matching files have been concatenated into '"@ + output + "'"@
}

impl Aggregator {
    /// An aggregator for the files under `root` that `config` takes, writing
    /// to the file at `output`. It starts by asking for the output file.
    pub fn new(config: SelectionConfig, root: &str, output: &str) -> (machine: Aggregator)
        ensures
            machine@ == (AggregatorView {
                rule: config@,
                root: root@,
                output: output@,
                phase: PhaseView::OpenOutput,
            }),
    {
        Aggregator {
            config,
            root: root.to_string(),
            output: output.to_string(),
            phase: Phase::OpenOutput,
        }
    }

    /// The phase: what the caller is asked to do.
    pub fn phase(&self) -> (phase: &Phase)
        ensures
            phase@ == self@.phase,
    {
        &self.phase
    }

    /// The directory to walk.
    pub fn root(&self) -> (root: &str)
        ensures
            root@ == self@.root,
    {
        self.root.as_str()
    }

    /// The path of the output file.
    pub fn output(&self) -> (output: &str)
        ensures
            output@ == self@.output,
    {
        self.output.as_str()
    }

    /// Whether the aggregator asks for nothing more.
    pub fn is_final(&self) -> (r: bool)
        ensures
            r == (self@.phase is Finished || self@.phase is Failed),
    {
        match &self.phase {
            Phase::Finished | Phase::Failed { .. } => true,
            _ => false,
        }
    }

    /// The message for the user after a run that succeeded: it names the
    /// output file.
    pub fn confirmation(&self) -> (text: String)
        ensures
            text@ == confirmation_text(self@.output),
    {
        let mut text = "All matching files have been concatenated into '".to_string();
        text.append(self.output.as_str());
        text.append("'");
        text
    }

    /// Moves on with what the caller reports.
    pub fn advance(self, event: WalkEvent) -> (next: Aggregator)
        ensures
            next@ == self@.next(event@),
    {
        let Aggregator { config, root, output, phase } = self;
        let phase = match phase {
            Phase::OpenOutput => match event {
                WalkEvent::Opened => Phase::NextEntry,
                WalkEvent::NotOpened => Phase::Failed {
                    failure: Failure::new(Operation::CreateOutput, output.as_str()),
                },
                _ => Phase::OpenOutput,
            },
            Phase::NextEntry => match event {
                WalkEvent::Entry { path, is_file } => {
                    if is_file && config.selects(path.as_str()) {
                        Phase::ReadFile { path }
                    } else {
                        Phase::NextEntry
                    }
                },
                WalkEvent::WalkFailed => Phase::Failed {
                    failure: Failure::new(Operation::Walk, root.as_str()),
                },
                WalkEvent::WalkEnded => Phase::Finished,
                _ => Phase::NextEntry,
            },
            Phase::ReadFile { path } => match event {
                WalkEvent::Contents { bytes } => match process_file(path.as_str(), bytes.as_slice()) {
                    Ok(block) => {
                        let mut text = block;
                        text.push('\n');
                        assert(text@ =~= file_output(path@, bytes@));
                        Phase::WriteBlock { path, text }
                    },
                    Err(failure) => Phase::Failed { failure },
                },
                WalkEvent::Unreadable => Phase::Failed {
                    failure: Failure { operation: Operation::ReadFile, subject: path },
                },
                _ => Phase::ReadFile { path },
            },
            Phase::WriteBlock { path, text } => match event {
                WalkEvent::Written => Phase::NextEntry,
                WalkEvent::NotWritten => Phase::Failed {
                    failure: Failure::new(Operation::WriteOutput, output.as_str()),
                },
                _ => Phase::WriteBlock { path, text },
            },
            Phase::Finished => Phase::Finished,
            Phase::Failed { failure } => Phase::Failed { failure },
        };
        Aggregator { config, root, output, phase }
    }
}

} // verus!
