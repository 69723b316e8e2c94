//! A small dispatch layer that maps one command vocabulary (search, install,
//! upgrade, upgrade all, clear) onto the package manager found on the host.
//!
//! The library is pure: it parses a command line, decides which backend the
//! host has from the answers of a presence probe, builds the argument vectors
//! to run, and decides what to do after each child process exits. Spawning
//! processes, reading standard input and printing are left to the caller.
use vstd::prelude::*;

pub mod text;
pub mod command;
pub mod backend;
pub mod plan;
pub mod dispatch;

verus! {

} // verus!
