//! Bootstrap logic for a desktop application shell.
//!
//! The shell's observable behaviour is small: assemble a default
//! application configuration, attach a logging capability when the binary
//! is a debug build, hand control to the framework's blocking run loop,
//! and abort the process with a descriptive message if startup fails.
//! This crate holds that decision logic, verified; the host binary performs
//! the framework calls and feeds their outcomes back in.

pub mod bootstrap;
pub mod laws;
pub mod level;
