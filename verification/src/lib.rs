//! Resolution of how to flash a firmware image onto an AVR board: the board
//! catalog, layered configuration, serial-port autodetection, device metadata
//! in the compiled binary, and the flash-then-attach sequence.

pub mod avrdude;
pub mod board;
pub mod util;
pub mod config;
pub mod orchestrator;
pub mod ravedude;
pub mod attach;
pub mod flash;
pub mod run;

use orchestrator::{is_step, Action, Event, Orchestrator, OrchestratorView};
use vstd::prelude::*;

verus! {

/// What the tool is asked to do.
#[derive(Debug)]
pub enum Subcommand {
    Flash(flash::Command),
    Attach(attach::Command),
}

/// One invocation of the tool.
#[derive(Debug)]
pub struct AvrCommand {
    pub subcommand: Subcommand,
}

impl AvrCommand {
    /// The command before anything is done.
    pub open spec fn idle(self) -> OrchestratorView {
        match self.subcommand {
            Subcommand::Flash(cmd) => cmd.idle(),
            Subcommand::Attach(cmd) => cmd.idle(),
        }
    }

    /// Begins the command: the first step of the subcommand.
    pub fn run(self) -> (r: (Orchestrator, Action))
        ensures
            is_step(self.idle(), Event::Start, r.0@, r.1),
    {
        match self.subcommand {
            Subcommand::Flash(cmd) => cmd.run(),
            Subcommand::Attach(cmd) => cmd.run(),
        }
    }
}

} // verus!
