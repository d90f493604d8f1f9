//! Decision logic of a fleet-control agent: host expansion, remote command
//! lines, command dispatch, result streaming and the reconnect supervisor.

pub mod collector;
pub mod error;
pub mod hosts;
pub mod json;
pub mod operation;
pub mod sh;
pub mod supervisor;
pub mod sweep;
pub mod text;
pub mod ws;

use vstd::prelude::*;

verus! {

/// Prepares the agent's working state under `app_path`. The agent keeps no
/// state of its own between sweeps, so there is nothing to prepare.
pub fn init_lcd(_app_path: &str) {
}

} // verus!
