//! Start-up sequence of a desktop application shell.
//!
//! The shell attaches three capability plugins to the application builder
//! (persistent storage, filesystem access, native dialogs), in that order,
//! then starts the event loop once. A clean shutdown of the event loop ends
//! the process with status 0; a failure to start it aborts the process with a
//! fixed diagnostic.
//!
//! The decisions live here as a small state machine: the driver asks
//! [`Bootstrap::next_action`] what to do, performs it against the GUI
//! framework, and reports back what happened.
pub mod bootstrap;
pub mod laws;

pub use bootstrap::{Action, Bootstrap, Phase, Plugin, STARTUP_FAILURE_MESSAGE};
