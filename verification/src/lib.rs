//! Incremental indexing of a git-hosted package registry.
//!
//! The library holds every decision of the indexer as verified, I/O-free code:
//! which git command to run, how to read what a command returned, how a
//! unified diff becomes a list of change events, and how the indexing state
//! machine moves its checkpoint and its periodic schedule. Running the
//! commands and the timers is left to the program that embeds the library.

pub mod actor;
pub mod diff;
pub mod git;
pub mod lines;
pub mod text;
pub mod translate;
