//! Renders shell alias declarations for several shell dialects.
//!
//! A configuration describes aliases, each optionally restricted to a set of
//! shells by a blacklist or whitelist. For a chosen target shell, every alias
//! that applies is rendered in that shell's declaration syntax; the caller
//! concatenates the rendered declarations and feeds them to the shell.

pub mod config;
pub mod shell;
