//! Attaching a serial console to a microcontroller.

pub mod board;
pub mod chip;

use crate::orchestrator::{is_step, Action, Event, Orchestrator, OrchestratorView};
use vstd::prelude::*;

verus! {

/// What is attached to: a bare chip or a board of the catalog.
#[derive(Debug)]
pub enum Subcommand {
    Chip(chip::Command),
    Board(board::Command),
}

/// Attaches a serial console to a microcontroller.
#[derive(Debug)]
pub struct Command {
    pub subcommand: Subcommand,
}

impl Command {
    /// The command before anything is done.
    pub open spec fn idle(self) -> OrchestratorView {
        match self.subcommand {
            Subcommand::Chip(cmd) => cmd.idle(),
            Subcommand::Board(cmd) => cmd.idle(),
        }
    }

    /// Begins the command: the first step of the subcommand.
    pub fn run(self) -> (r: (Orchestrator, Action))
        ensures
            is_step(self.idle(), Event::Start, r.0@, r.1),
    {
        match self.subcommand {
            Subcommand::Chip(cmd) => cmd.run(),
            Subcommand::Board(cmd) => cmd.run(),
        }
    }
}

} // verus!
