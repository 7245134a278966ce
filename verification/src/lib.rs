//! An idle-triggered process supervisor.
//!
//! The supervisor samples how long the local user has been idle, starts a
//! configured command once the idle time exceeds a threshold, and stops that
//! command as soon as the user becomes active again. This crate holds the
//! decision logic: the activity-change detection and the state machine that
//! drives spawning, monitoring, and terminating the managed child process.
//! The platform idle query, the process control calls, and the configuration
//! file live with the program that drives the loop; they hand this library
//! plain values and carry out the actions it decides on.

pub mod config;
pub mod supervisor;
