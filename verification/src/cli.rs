//! The command line: which operation to run on which files.

use vstd::prelude::*;
use crate::deploy::Task;

verus! {

/// An operation of the command line. Paths are held as their text.
#[derive(Debug, Clone, PartialEq, Eq)]
pub enum Operation {
    /// A cold start: install the service (and its dependencies) on the target.
    Up { service: String, target: String },
    /// Update a deployment.
    Push { service: String, target: String },
    /// Stop the service on the target.
    Down { service: String, target: String },
    /// Stop the service and remove it from the target.
    Erase { service: String, target: String },
    /// Run the service locally behind the proxy command `cmd`.
    Prepare { service: String, cmd: Vec<String> },
}

/// The parsed command line.
#[derive(Debug, Clone, PartialEq, Eq)]
pub struct Cli {
    /// The operation to run.
    pub operation: Operation,
}

impl Operation {
    /// The deployment task an operation runs; `Prepare` runs none, it starts
    /// a local process.
    pub fn task(&self) -> (t: Option<Task>)
        ensures
            t == match self {
                Operation::Up { .. } => Some(Task::Up),
                Operation::Push { .. } => Some(Task::Push),
                Operation::Down { .. } => Some(Task::Down),
                Operation::Erase { .. } => Some(Task::Erase),
                Operation::Prepare { .. } => None::<Task>,
            },
    {
        match self {
            Operation::Up { .. } => Some(Task::Up),
            Operation::Push { .. } => Some(Task::Push),
            Operation::Down { .. } => Some(Task::Down),
            Operation::Erase { .. } => Some(Task::Erase),
            Operation::Prepare { .. } => None,
        }
    }
}

} // verus!
