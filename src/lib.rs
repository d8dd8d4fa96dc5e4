//! Screenshot renaming daemon: the decisions it makes, verified.
//!
//! Paths are handled as `/`-separated strings (see [`paths`]). Everything that
//! touches the file system, processes or the network is performed by the
//! caller, which feeds the results back into the state machines defined here.
use vstd::prelude::*;

pub mod classify;
pub mod cli;
pub mod config;
pub mod launchd;
pub mod location;
pub mod namer;
pub mod paths;
pub mod pid;
pub mod runner;
pub mod supervisor;
pub mod text;
pub mod worker;

verus! {

} // verus!
