//! Verified core of a small PostgreSQL administration helper.
//!
//! The library builds the external-tool invocations (optionally routed
//! through a container runtime), models the chunked streaming relay that
//! moves dump bytes between a child process and a file, and classifies
//! the outcome of each action.  All process and file I/O lives outside
//! the library; the functions here are pure decisions over plain values.

pub mod cli;
pub mod command;
pub mod outcome;
pub mod relay;
