//! The controller process around the registry and workflows: configuration, the command line,
//! and the decisions of the worker and enrollment sessions.

pub mod error;
pub mod session;
pub mod cli;
pub mod config;
pub mod bootstrap;
