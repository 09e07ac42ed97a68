//! Verified core of a small deployment tool: the model of a service and of a
//! deployment target, the shell commands that manage a service on a Linux
//! host, and the decisions taken while installing, pushing, stopping and
//! erasing a service.

pub mod text;
pub mod service;
pub mod target;
pub mod os;
pub mod error;
pub mod connector;
pub mod process;
pub mod deploy;
pub mod cli;
