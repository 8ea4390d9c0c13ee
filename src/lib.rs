//! A live show-control engine: operators define cues that play audio files
//! through an external player, trigger them one by one or all in ascending
//! order, and stop them while they play.
//!
//! The library holds the registry of cue definitions, the set of running
//! executions, and every decision the engine takes on them; the program
//! around it starts the processes, waits for them, and holds the locks.

use vstd::prelude::*;

pub mod command;
pub mod cue;
pub mod engine;
pub mod invocation;
pub mod number;
pub mod ordered;
pub mod registry;
pub mod running;

verus! {

} // verus!
