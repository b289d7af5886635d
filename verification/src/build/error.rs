//! Errors of a build.
use vstd::prelude::*;
use crate::flow::Step;
use crate::text::{concat2, owned};

verus! {

/// Why a build failed.
#[derive(Debug)]
pub enum BuildError {
    /// The instruction file could not be read.
    ParseError(String),
    /// A step of the build could not be carried out.
    ExecutionError(String),
    /// A VM could not be run.
    VmError(String),
    /// A file could not be put into an image.
    InjectionError(String),
    /// A file operation failed.
    IoError(String),
}

/// The kind of a build error.
#[derive(Debug, Clone, Copy, PartialEq, Eq, Structural)]
pub enum ErrorKind {
    Parse,
    Execution,
    Vm,
    Injection,
    Io,
}

impl BuildError {
    /// The error is of this kind and has this text.
    pub open spec fn says(self, kind: ErrorKind, text: Seq<char>) -> bool {
        match self {
            BuildError::ParseError(m) => kind == ErrorKind::Parse && m@ == text,
            BuildError::ExecutionError(m) => kind == ErrorKind::Execution && m@ == text,
            BuildError::VmError(m) => kind == ErrorKind::Vm && m@ == text,
            BuildError::InjectionError(m) => kind == ErrorKind::Injection && m@ == text,
            BuildError::IoError(m) => kind == ErrorKind::Io && m@ == text,
        }
    }

    /// The error as a sentence.
    pub open spec fn sentence(self) -> Seq<char> {
        match self {
            BuildError::ParseError(m) => "Parse error: "@ + m@,
            BuildError::ExecutionError(m) => "Execution error: "@ + m@,
            BuildError::VmError(m) => "VM error: "@ + m@,
            BuildError::InjectionError(m) => "Injection error: "@ + m@,
            BuildError::IoError(m) => "IO error: "@ + m@,
        }
    }

    /// The error as a sentence.
    pub fn message(&self) -> (r: String)
        ensures
            r@ == self.sentence(),
    {
        match self {
            BuildError::ParseError(m) => concat2("Parse error: ", m.as_str()),
            BuildError::ExecutionError(m) => concat2("Execution error: ", m.as_str()),
            BuildError::VmError(m) => concat2("VM error: ", m.as_str()),
            BuildError::InjectionError(m) => concat2("Injection error: ", m.as_str()),
            BuildError::IoError(m) => concat2("IO error: ", m.as_str()),
        }
    }

    /// An error of this kind with this text.
    pub fn new(kind: ErrorKind, text: String) -> (r: BuildError)
        ensures
            r.says(kind, text@),
    {
        match kind {
            ErrorKind::Parse => BuildError::ParseError(text),
            ErrorKind::Execution => BuildError::ExecutionError(text),
            ErrorKind::Vm => BuildError::VmError(text),
            ErrorKind::Injection => BuildError::InjectionError(text),
            ErrorKind::Io => BuildError::IoError(text),
        }
    }
}

/// The workflow ends with an error of this kind and text.
pub open spec fn failed<A, T>(
    step: Step<A, T, BuildError>,
    kind: ErrorKind,
    text: Seq<char>,
) -> bool {
    step matches Step::Return(Err(e)) && e.says(kind, text)
}

/// Ends a workflow with an error whose text is `prefix` followed by `detail`.
pub fn fail<A, T>(kind: ErrorKind, prefix: &str, detail: &str) -> (r: Step<A, T, BuildError>)
    ensures
        failed(r, kind, prefix@ + detail@),
{
    Step::Return(Err(BuildError::new(kind, concat2(prefix, detail))))
}

/// Ends a workflow with an error of this text.
pub fn fail_plain<A, T>(kind: ErrorKind, text: &str) -> (r: Step<A, T, BuildError>)
    ensures
        failed(r, kind, text@),
{
    Step::Return(Err(BuildError::new(kind, owned(text))))
}

/// What a program that has ended left behind.
pub struct CommandOutput {
    pub success: bool,
    pub stderr: String,
}

} // verus!
