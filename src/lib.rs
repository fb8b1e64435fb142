//! Runs a benchmark configuration against two revisions: the configuration
//! gains the revisions as a sweep dimension and a results file, and becomes
//! the argument list of the `hyperfine` benchmarking tool.

pub mod config;
pub mod decimal;
pub mod laws;
pub mod runner;
