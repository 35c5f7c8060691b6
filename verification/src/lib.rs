//! Verified core of a file system exerciser.
//!
//! An exerciser drives a long, seeded sequence of operations against one
//! file and keeps a model of what the file should hold. After each step it
//! has the file compared with the model; a difference is reported with the
//! history of the run, so that the run can be repeated from its seed.
//!
//! This library is the part of the exerciser that decides: it touches no
//! file. Each step changes the model and says what is to be done to the
//! file; the caller does it and hands back what it read.
//!
//! - [`config`]: the configuration of a run and the rules that refuse one.
//! - [`monitor`]: the byte range to monitor, as the command line writes it.
//! - [`op`]: the kinds of operation and what the history keeps of a step.
//! - [`source`]: the seeded generator that a run draws its numbers from.
//! - [`model`]: the mathematical model of a run.
//! - [`plan`]: what a step asks of its caller.
//! - [`exerciser`]: the exerciser itself.
//! - [`checks`]: the comparisons between file and model, and their reports.
//! - [`history`]: the bounded history of recent steps.
//! - [`format`], [`lines`]: the text of progress lines and reports.
//! - [`laws`]: what holds of every run.
//! - [`ideal`]: the proof that a run finds nothing wrong with a file on a
//!   correct file system.

pub mod checks;
pub mod config;
pub mod exerciser;
pub mod format;
pub mod history;
pub mod ideal;
pub mod laws;
pub mod lines;
pub mod model;
pub mod monitor;
pub mod op;
pub mod plan;
pub mod source;
