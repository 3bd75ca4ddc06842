//! Flashing a bare chip and attaching a console.

use crate::orchestrator::{idle, is_step, launch, Action, Event, FlashJob, Job, Orchestrator, OrchestratorView, Target, TargetView};
use crate::util::options::{AttachOptions, ProgrammerOptions};
use vstd::prelude::*;

verus! {

/// Flashes a binary to a chip and attaches a console to it. What the
/// console's options leave open is taken from the programmer's.
#[derive(Debug)]
pub struct Command {
    pub programmer_opts: ProgrammerOptions,
    pub attach_opts: AttachOptions,
    pub binary: String,
}

impl Command {
    /// The command before anything is done.
    pub open spec fn idle(self) -> OrchestratorView {
        idle(Some(TargetView::Chip(self.programmer_opts@)), self.binary@, Some(self.attach_opts@))
    }

    /// Begins the command: its first step.
    pub fn run(self) -> (r: (Orchestrator, Action))
        ensures
            is_step(self.idle(), Event::Start, r.0@, r.1),
    {
        launch(Job { flash: Some(FlashJob { target: Target::Chip(self.programmer_opts), binary: self.binary }), attach: Some(self.attach_opts) })
    }
}

} // verus!
