//! Flashing a bare chip.

use crate::orchestrator::{idle, is_step, launch, Action, Event, FlashJob, Job, Orchestrator, OrchestratorView, Target, TargetView};
use crate::util::options::ProgrammerOptions;
use vstd::prelude::*;

verus! {

/// Flashes a binary to a chip by the programmer that is given.
#[derive(Debug)]
pub struct Command {
    pub programmer_opts: ProgrammerOptions,
    pub binary: String,
}

impl Command {
    /// The command before anything is done.
    pub open spec fn idle(self) -> OrchestratorView {
        idle(Some(TargetView::Chip(self.programmer_opts@)), self.binary@, None)
    }

    /// Begins the command: its first step.
    pub fn run(self) -> (r: (Orchestrator, Action))
        ensures
            is_step(self.idle(), Event::Start, r.0@, r.1),
    {
        launch(Job { flash: Some(FlashJob { target: Target::Chip(self.programmer_opts), binary: self.binary }), attach: None })
    }
}

} // verus!
