//! Attaching a console to a bare chip.

use crate::orchestrator::{idle, is_step, launch, Action, Event, Job, Orchestrator, OrchestratorView};
use crate::util::options::AttachOptions;
use vstd::prelude::*;

verus! {

/// Attaches a console to a chip, on the port and at the baud rate that are given.
#[derive(Debug)]
pub struct Command {
    pub attach_opts: AttachOptions,
}

impl Command {
    /// The command before anything is done.
    pub open spec fn idle(self) -> OrchestratorView {
        idle(None, Seq::empty(), Some(self.attach_opts@))
    }

    /// Begins the command: its first step.
    pub fn run(self) -> (r: (Orchestrator, Action))
        ensures
            is_step(self.idle(), Event::Start, r.0@, r.1),
    {
        launch(Job { flash: None, attach: Some(self.attach_opts) })
    }
}

} // verus!
