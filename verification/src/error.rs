//! The failures that resolution and enforcement can report.

use vstd::prelude::*;

verus! {

/// What can go wrong between attaching to the process and enforcing a value.
#[derive(Clone, Copy, Debug, PartialEq, Eq, Structural)]
pub enum ErrorKind {
    /// The operating system refused to start the process.
    ProcessCreationFailed,
    /// No loaded module carries the requested name.
    ModuleNotFound,
    /// A read from the live process did not deliver the whole value.
    MemoryReadFailed,
    /// A write into the live process did not store the whole value.
    MemoryWriteFailed,
    /// The anchor signature occurs nowhere in the module image.
    PatternNotFound,
    /// An address outside a module image was handed to its translation.
    OutOfBoundsTranslation,
    /// The process ended while it was still needed.
    ProcessExited,
    /// A chain of jump instructions leads back into itself.
    TrampolineLoop,
}

impl ErrorKind {
    /// The words for each failure.
    pub open spec fn text(self) -> Seq<char> {
        match self {
            ErrorKind::ProcessCreationFailed => "failed to create process"@,
            ErrorKind::ModuleNotFound => "module not found"@,
            ErrorKind::MemoryReadFailed => "failed to read memory"@,
            ErrorKind::MemoryWriteFailed => "failed to write memory"@,
            ErrorKind::PatternNotFound => "anchor pattern not found, try updating this tool"@,
            ErrorKind::OutOfBoundsTranslation => "address out of the bounds of the module"@,
            ErrorKind::ProcessExited => "process exited"@,
            ErrorKind::TrampolineLoop => "jump chain never ends"@,
        }
    }

    /// Says in words what went wrong.
    pub fn message(&self) -> (words: &'static str)
        ensures
            words@ == self.text(),
    {
        match self {
            ErrorKind::ProcessCreationFailed => "failed to create process",
            ErrorKind::ModuleNotFound => "module not found",
            ErrorKind::MemoryReadFailed => "failed to read memory",
            ErrorKind::MemoryWriteFailed => "failed to write memory",
            ErrorKind::PatternNotFound => "anchor pattern not found, try updating this tool",
            ErrorKind::OutOfBoundsTranslation => "address out of the bounds of the module",
            ErrorKind::ProcessExited => "process exited",
            ErrorKind::TrampolineLoop => "jump chain never ends",
        }
    }
}

} // verus!
