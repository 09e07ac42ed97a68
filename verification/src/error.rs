//! The ways a deployment can fail.

use vstd::prelude::*;

verus! {

/// Why a deployment step failed.
#[derive(Debug, Clone, PartialEq, Eq)]
pub enum DeployError {
    /// A command on the target exited with a nonzero status; its output.
    RemoteCommandFailed { stdout: String },
    /// Cloning the service's repository failed.
    GitCloneFailed,
    /// Pushing the service's repository to the target failed.
    GitPushFailed,
    /// A tool cannot be stopped.
    CannotPullToolDown,
    /// A tool cannot be erased.
    CannotEraseTool,
    /// The proxy command line is empty.
    NoCommand,
    /// The target's address does not resolve to exactly one socket address;
    /// the addresses it resolves to.
    NotSingleAddress { addresses: String },
    /// Work outside the library (a file, a process, the network) failed;
    /// what it reported.
    Outside { message: String },
}

} // verus!
