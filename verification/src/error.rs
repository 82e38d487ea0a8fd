//! Failures: what went wrong, during which operation, and on what.

use vstd::prelude::*;
use vstd::string::StringExecFns;

verus! {

/// The four kinds of failure.
#[derive(Debug, Clone, Copy, PartialEq, Eq, Structural)]
pub enum ErrorKind {
    /// The configuration is malformed.
    Config,
    /// The input could not be turned into a local directory.
    Acquisition,
    /// A file could not be opened, read, walked or written.
    Io,
    /// A file does not hold valid text.
    Decode,
}

/// The operation that failed.
#[derive(Debug, Clone, Copy, PartialEq, Eq, Structural)]
pub enum Operation {
    /// Compiling a pattern of the include list.
    CompileIncludePattern,
    /// Compiling a pattern of the exclude list.
    CompileExcludePattern,
    /// Finding the local directory that the input names.
    LocateInput,
    /// Creating the temporary directory that a remote input is fetched into.
    CreateTempDir,
    /// Fetching a remote input, by every strategy there is.
    Fetch,
    /// Creating the output file.
    CreateOutput,
    /// Walking the root directory.
    Walk,
    /// Reading a selected file.
    ReadFile,
    /// Decoding the bytes of a selected file.
    DecodeFile,
    /// Writing a block to the output file.
    WriteOutput,
}

/// A failure: the operation, and the pattern, path or address it was about.
#[derive(Debug, PartialEq, Eq)]
pub struct Failure {
    pub operation: Operation,
    pub subject: String,
}

/// A failure, with its subject as a sequence of characters.
pub struct FailureView {
    pub operation: Operation,
    pub subject: Seq<char>,
}

impl View for Failure {
    type V = FailureView;

    open spec fn view(&self) -> FailureView {
        FailureView { operation: self.operation, subject: self.subject@ }
    }
}

/// The kind that a failed operation falls under.
pub open spec fn kind_of(operation: Operation) -> ErrorKind {
    match operation {
        Operation::CompileIncludePattern | Operation::CompileExcludePattern => ErrorKind::Config,
        Operation::LocateInput | Operation::CreateTempDir | Operation::Fetch => ErrorKind::Acquisition,
        Operation::CreateOutput | Operation::Walk | Operation::ReadFile | Operation::WriteOutput =>
            ErrorKind::Io,
        Operation::DecodeFile => ErrorKind::Decode,
    }
}

/// What the message of a failure says of the operation.
pub open spec fn description(operation: Operation) -> Seq<char> {
    match operation {
        Operation::CompileIncludePattern => "Malformed include pattern"@,
        Operation::CompileExcludePattern => "Malformed exclude pattern"@,
        Operation::LocateInput => "Input folder not found or not readable"@,
        Operation::CreateTempDir => "Failed to create a temporary directory"@,
        Operation::Fetch => "Failed to clone repository"@,
        Operation::CreateOutput => "Failed to create output file"@,
        Operation::Walk => "Failed to walk folder"@,
        Operation::ReadFile => "Failed to process file"@,
        Operation::DecodeFile => "File is not valid UTF-8"@,
        Operation::WriteOutput => "Failed to write output file"@,
    }
}

/// The message of a failure: the description of the operation, a colon and a
/// space, and the subject.
pub open spec fn message_of(failure: FailureView) -> Seq<char> {
    description(failure.operation) + ": "@ + failure.subject
}

impl Operation {
    /// The kind of failure that this operation ends in.
    pub fn kind(&self) -> (kind: ErrorKind)
        ensures
            kind == kind_of(*self),
    {
        match self {
            Operation::CompileIncludePattern | Operation::CompileExcludePattern => ErrorKind::Config,
            Operation::LocateInput | Operation::CreateTempDir | Operation::Fetch =>
                ErrorKind::Acquisition,
            Operation::CreateOutput
            | Operation::Walk
            | Operation::ReadFile
            | Operation::WriteOutput => ErrorKind::Io,
            Operation::DecodeFile => ErrorKind::Decode,
        }
    }

    /// What went wrong, in words.
    pub fn describe(&self) -> (text: &'static str)
        ensures
            text@ == description(*self),
    {
        match self {
            Operation::CompileIncludePattern => "Malformed include pattern",
            Operation::CompileExcludePattern => "Malformed exclude pattern",
            Operation::LocateInput => "Input folder not found or not readable",
            Operation::CreateTempDir => "Failed to create a temporary directory",
            Operation::Fetch => "Failed to clone repository",
            Operation::CreateOutput => "Failed to create output file",
            Operation::Walk => "Failed to walk folder",
            Operation::ReadFile => "Failed to process file",
            Operation::DecodeFile => "File is not valid UTF-8",
            Operation::WriteOutput => "Failed to write output file",
        }
    }
}

impl Clone for Failure {
    fn clone(&self) -> (copy: Failure)
        ensures
            copy@ == self@,
    {
        Failure { operation: self.operation, subject: self.subject.clone() }
    }
}

impl Failure {
    /// The failure of `operation` on `subject`.
    pub fn new(operation: Operation, subject: &str) -> (failure: Failure)
        ensures
            failure@ == (FailureView { operation, subject: subject@ }),
    {
        Failure { operation, subject: subject.to_string() }
    }

    /// The kind of this failure.
    pub fn kind(&self) -> (kind: ErrorKind)
        ensures
            kind == kind_of(self.operation),
    {
        self.operation.kind()
    }

    /// The message for the user, which names the operation and its subject.
    pub fn message(&self) -> (text: String)
        ensures
            text@ == message_of(self@),
    {
        let mut text = self.operation.describe().to_string();
        text.append(": ");
        text.append(self.subject.as_str());
        text
    }
}

} // verus!
