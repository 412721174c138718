//! The error kinds that the core surfaces.

use vstd::prelude::*;

verus! {

/// Why an operation of the core did not complete.
#[derive(Clone, Copy, Debug, PartialEq, Eq, Hash, Structural)]
pub enum Error {
    /// An invariant of the core was violated.
    IllegalState,
    /// A metadata entry that had to be present was not found.
    KeyNotFound,
    /// A stop was requested and has been acknowledged.
    ShuttingDown,
    /// Running the target failed on the fuzzer's side.
    Executor,
    /// Metadata could not be persisted.
    Serialization,
    /// A failure defined by a collaborator.
    Other,
}

impl Error {
    /// The error for a violated invariant.
    pub fn illegal_state() -> (e: Error)
        ensures
            e == Error::IllegalState,
    {
        Error::IllegalState
    }

    /// The error for a missing metadata entry.
    pub fn key_not_found() -> (e: Error)
        ensures
            e == Error::KeyNotFound,
    {
        Error::KeyNotFound
    }

    /// The error that acknowledges a stop request.
    pub fn shutting_down() -> (e: Error)
        ensures
            e == Error::ShuttingDown,
    {
        Error::ShuttingDown
    }

    /// A short description of the error kind.
    pub fn describe(&self) -> (s: &'static str)
        ensures
            s@ == Self::description(*self),
    {
        match self {
            Error::IllegalState => "illegal state",
            Error::KeyNotFound => "key not found",
            Error::ShuttingDown => "shutting down",
            Error::Executor => "executor error",
            Error::Serialization => "serialization error",
            Error::Other => "other error",
        }
    }

    /// The text that `describe` returns for each kind.
    pub open spec fn description(e: Error) -> Seq<char> {
        match e {
            Error::IllegalState => "illegal state"@,
            Error::KeyNotFound => "key not found"@,
            Error::ShuttingDown => "shutting down"@,
            Error::Executor => "executor error"@,
            Error::Serialization => "serialization error"@,
            Error::Other => "other error"@,
        }
    }
}

} // verus!
