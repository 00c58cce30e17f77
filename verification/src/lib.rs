//! Status of a Jujutsu working copy for a shell prompt: the configuration,
//! the reading of `jj log` output, change-id truncation and the decisions
//! that turn a configuration and the outcome of each outside step into the
//! values that the prompt shows.

pub mod lines;
pub mod truncate;
pub mod config;
pub mod status;
