//! Bootstrap policy of the FutureBuddy Desktop shell.
//!
//! The shell has one job at process start: hand the generated runtime
//! configuration to the windowed-application runtime, let the runtime own the
//! process until it shuts down, and treat a failure to start as fatal.
//!
//! - [`bootstrap`] holds the entry point, [`run`], and the failure policy.
//! - [`diagnostic`] holds the fixed text of a fatal termination.
//! - [`lifecycle`] holds the life of the process as a state machine.
//! - [`platform`] says which way into the shell a build target has.

pub mod bootstrap;
pub mod diagnostic;
pub mod lifecycle;
pub mod platform;

pub use crate::bootstrap::{conclude, run, RuntimeStartFailure};
