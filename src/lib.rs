//! Combines static libraries into one prelinked static library whose visible
//! symbols are limited to those matching a set of wildcard patterns, by driving
//! the host's archiver, linker, symbol lister and symbol-visibility tools.
//!
//! The decisions of a run are verified: which symbols are kept, the exact
//! command line of every tool, the order of the steps, and when a run stops.
//! A driver performs the steps that touch the file system or start processes.
pub mod commands;
pub mod names;
pub mod pipeline;
pub mod report;
pub mod setup;
pub mod symbols;
pub mod text;
pub mod tools;
