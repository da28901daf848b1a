//! Failures of a node's deployment.
use vstd::prelude::*;
use crate::key;
use crate::log::NixLog;

verus! {

/// Why a step of a node's deployment failed.
#[derive(Debug)]
pub enum HiveLibError {
    /// A key could not be prepared.
    KeyError(key::Error),
    /// The key agent failed on the named node; its error output, line by line.
    KeyCommandError(String, Vec<String>),
    /// The evaluator failed for the named node; its classified error output.
    NixEvalInteralError(String, Vec<NixLog>),
    /// The evaluator's result for the named node is not a JSON value; its
    /// classified error output.
    ParseEvaluateError(String, Vec<NixLog>),
    /// Another command run for the named node (a build, a copy, an
    /// activation) failed; its error output, line by line.
    CommandFailed(String, Vec<String>),
    /// A child process could not be started or awaited.
    SpawnFailed(String),
    /// A child process's output stream could not be taken.
    NoHandle,
    /// A concurrent task could not be joined.
    JoinError(String),
    /// Writing to the key agent's input failed.
    BufferOperationError(String),
}

} // verus!
