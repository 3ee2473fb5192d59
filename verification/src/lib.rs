//! Declarative session-layout builder for a terminal multiplexer.
//!
//! Given an optional configuration describing named windows, working
//! directories and startup commands, the library resolves an ordered
//! batch of multiplexer invocations (the build plan), classifies the
//! result of an existence probe, and decides exactly which commands are
//! to be issued in which order.  Running the external multiplexer binary
//! and reading the configuration file are left to the embedding program.

pub mod command;
pub mod config;
pub mod digits;
pub mod existence;
pub mod layout;
pub mod orchestrate;
