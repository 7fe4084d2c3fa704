//! Concatenate text sources with optional line numbering.
//!
//! The crate renders the lines of one or more text sources the way the
//! classic `cat` utility does with its `-n` and `-b` options, and resolves
//! command-line tokens into the configuration that selects between them.
//!
//! * [`config`] holds the configuration record.
//! * [`args`] turns command-line tokens into a configuration; the grammar
//!   is clap's, reached through one trusted call.
//! * [`number`] formats line numbers, [`emit`] renders the lines of one
//!   source.
//! * [`session`] is a run as a state machine that the caller drives with
//!   what its own opening and reading brought; [`run`] drives it over
//!   reads that were recorded beforehand.
//! * [`laws`] states what holds of the rendering in general.
//!
//! Everything but the call into clap is proved by Verus against the
//! contracts written here; nothing in the crate opens or reads a source.

pub mod args;
pub mod config;
pub mod emit;
pub mod laws;
pub mod number;
pub mod run;
pub mod session;
