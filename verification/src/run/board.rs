//! Flashing a board and attaching a console.

use crate::orchestrator::{idle, is_step, launch, Action, Event, FlashJob, Job, Orchestrator, OrchestratorView, Target, TargetView};
use crate::util::options::{AttachOptions, BoardOptions};
use vstd::prelude::*;

verus! {

/// Flashes a binary to a board of the catalog and attaches a console to
/// it. What the console's options leave open is taken from the resolved
/// programmer's.
#[derive(Debug)]
pub struct Command {
    pub board_opts: BoardOptions,
    pub attach_opts: AttachOptions,
    pub binary: String,
}

impl Command {
    /// The command before anything is done.
    pub open spec fn idle(self) -> OrchestratorView {
        idle(Some(
                TargetView::Board {
                    board: self.board_opts.board@,
                    programmer_opts: self.board_opts.programmer_opts@,
                },
            ), self.binary@, Some(self.attach_opts@))
    }

    /// Begins the command: its first step.
    pub fn run(self) -> (r: (Orchestrator, Action))
        ensures
            is_step(self.idle(), Event::Start, r.0@, r.1),
    {
        launch(Job { flash: Some(FlashJob { target: Target::Board(self.board_opts), binary: self.binary }), attach: Some(self.attach_opts) })
    }
}

} // verus!
