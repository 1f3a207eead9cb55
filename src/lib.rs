//! Process lifecycle core of a desktop launcher: the registry of tracked
//! child processes, the sweep that terminates them, the relay of their output
//! lines to an event sink, and the decisions of environment setup. The
//! outside work (running commands, reading pipes, emitting events) is left
//! to the caller, which hands each outcome back as a plain value.

pub mod forward;
pub mod provision;
pub mod registry;
pub mod runner;
pub mod setup;
pub mod terminate;
