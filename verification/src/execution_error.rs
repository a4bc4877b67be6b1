//! The one error with which a run ends when it fails.

use vstd::prelude::*;

verus! {

/// Why a run failed. No failure is tried again.
#[derive(Clone, Copy, Debug, PartialEq, Eq, Structural)]
pub enum ErrorKind {
    /// What the caller handed over cannot be run: the entry file is
    /// missing, or the manifest or the inline metadata cannot be read.
    Precondition,
    /// The environment of the interpreter could not be made.
    Provisioning,
    /// The process could not be started.
    Spawn,
    /// The process ran longer than it was allowed to.
    Timeout,
    /// The process ended and reported a failure.
    NonZeroExit,
    /// The output of the process holds no result that can be read.
    ResultFormat,
}

/// A failed run: the kind of failure, a message for a reader, and a code
/// where there is one.
#[derive(Debug)]
pub struct ExecutionError {
    pub kind: ErrorKind,
    pub message: String,
    pub code: Option<String>,
}

impl ExecutionError {
    pub fn new(kind: ErrorKind, message: String, code: Option<String>) -> (r: Self)
        ensures
            r.kind == kind,
            r.message == message,
            r.code == code,
    {
        ExecutionError { kind, message, code }
    }

    /// The message of the error.
    pub fn message(&self) -> (r: &String)
        ensures
            *r == self.message,
    {
        &self.message
    }
}

} // verus!
