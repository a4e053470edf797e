//! The error taxonomy of the worker core.

use vstd::prelude::*;

verus! {

/// Everything that can go wrong while constructing, driving, or messaging a
/// worker.  Construction-time errors (`EnvironmentInit`, `Registration`) are
/// returned synchronously and never leave a half-initialized worker
/// observable; `ExecutionFault` surfaces only as a drive step's terminal
/// result; `ChannelClosed` and `ChannelFull` are recoverable channel errors.
#[derive(Clone, Copy, Debug, PartialEq, Eq, Structural)]
pub enum WorkerError {
    /// The bootstrap data was malformed: no environment and no worker was
    /// produced.
    EnvironmentInit,
    /// A host operation failed to install: the whole construction fails and
    /// the partially built environment is discarded, never driven.
    Registration,
    /// Script execution raised an unrecoverable fault during a drive step.
    ExecutionFault,
    /// A send was attempted on an endpoint whose send half is closed.
    ChannelClosed,
    /// The bounded channel has no room for another payload right now.
    ChannelFull,
}

impl WorkerError {
    /// A short human-readable description, in place of a `Display` impl.
    pub fn describe(&self) -> &'static str {
        match self {
            WorkerError::EnvironmentInit => "malformed bootstrap data",
            WorkerError::Registration => "operation registration failed",
            WorkerError::ExecutionFault => "script raised an unrecoverable fault",
            WorkerError::ChannelClosed => "channel send half is closed",
            WorkerError::ChannelFull => "channel is at capacity",
        }
    }
}

} // verus!
