//! The sequence of one command: resolve the options, flash, and attach a
//! console where one is asked for. The sequence is a state machine that is
//! stepped by what happened outside: each step gives the next state and
//! what is to be done next.

use crate::util::avr_libc::{device_name_of_binary, DeviceInfoError};
use crate::util::avrdude::{flash_binary, flash_request_for, FlashRequest, FlashRequestView};
use crate::util::console::{attach_console, console_request_for, AttachError, ConsoleRequest};
use crate::util::options::{
    options_message, AttachOptions, AttachOptionsView, AttachProtocol, BoardOptions,
    OptionsError, ProgrammerOptions, ProgrammerOptionsView, SerialAttachOptionsView,
};
use vstd::prelude::*;
use vstd::string::StringExecFns;

verus! {

/// Where a command stands.
#[derive(Clone, Copy, Debug, PartialEq, Eq, Structural)]
pub enum State {
    /// Nothing has been done yet.
    Idle,
    /// The options are being resolved: the programmer's, then the device
    /// name from the binary.
    Resolving,
    /// The flashing tool runs.
    Flashing,
    /// The console is open.
    Attaching,
    /// The command has ended well.
    Done,
    /// The command has ended with a failure.
    Failed,
}

/// What is flashed with: a programmer that is given outright, or a board
/// whose programmer is yet to be resolved.
#[derive(Debug)]
pub enum Target {
    Chip(ProgrammerOptions),
    Board(BoardOptions),
}

/// A flashing to be done: with what, and the path of the binary.
#[derive(Debug)]
pub struct FlashJob {
    pub target: Target,
    pub binary: String,
}

/// One command: what it flashes, if anything, and the console it attaches,
/// if any.
#[derive(Debug)]
pub struct Job {
    pub flash: Option<FlashJob>,
    pub attach: Option<AttachOptions>,
}

/// How the flashing tool failed.
#[derive(Debug)]
pub enum ToolFailure {
    /// The tool could not be started.
    Spawn(String),
    /// The tool ended with a status other than success.
    Exit(Option<i32>),
}

/// Why a command failed.
#[derive(Debug)]
pub enum Failure {
    /// The programmer options could not be resolved.
    Options(OptionsError),
    /// The binary could not be read.
    BinaryUnreadable(String),
    /// The binary does not name its device.
    DeviceInfo(DeviceInfoError),
    /// The flashing tool failed.
    Tool(ToolFailure),
    /// The console lacks its port or its baud rate.
    Attach(AttachError),
    /// The console could not be opened.
    Console(String),
    /// Something was reported that the command was not waiting for.
    OutOfTurn,
}

/// What happened outside.
#[derive(Debug)]
pub enum Event {
    /// The command is to begin.
    Start,
    /// The programmer options of the board were resolved, or could not be.
    Resolved(Result<ProgrammerOptions, OptionsError>),
    /// The binary was read: these are its bytes.
    BinaryRead(Vec<u8>),
    /// The binary could not be read.
    BinaryUnreadable(String),
    /// The flashing tool ended with success.
    FlashSucceeded,
    /// The flashing tool failed.
    FlashFailed(ToolFailure),
    /// The console was closed by its user.
    ConsoleClosed,
    /// The console could not be opened.
    ConsoleFailed(String),
}

/// What is to be done next.
#[derive(Debug)]
pub enum Action {
    /// Resolve the programmer options of this board, among the serial
    /// ports that the host shows where they are needed, and report them.
    Resolve(BoardOptions),
    /// Read the binary at this path and report its bytes.
    ReadBinary(String),
    /// Run the flashing tool on the binary and report how it ended.
    Flash { request: FlashRequest, binary: String },
    /// Open the console and report how it ended.
    Attach(ConsoleRequest),
    /// Nothing: the command has ended well.
    Finish,
    /// Nothing: the command has failed, for this reason.
    Fail(Failure),
}

/// A command under way.
#[derive(Debug)]
pub struct Orchestrator {
    pub state: State,
    /// What is yet to be resolved into a programmer.
    pub target: Option<Target>,
    /// The path of the binary; empty where nothing is flashed.
    pub binary: String,
    /// The programmer, once it is known.
    pub programmer: Option<ProgrammerOptions>,
    /// The console that is attached at the end, if any.
    pub attach: Option<AttachOptions>,
}

/// The mathematical content of a [`Target`].
pub enum TargetView {
    Chip(ProgrammerOptionsView),
    Board { board: Seq<char>, programmer_opts: ProgrammerOptionsView },
}

impl View for Target {
    type V = TargetView;

    open spec fn view(&self) -> TargetView {
        match self {
            Target::Chip(p) => TargetView::Chip(p@),
            Target::Board(b) => TargetView::Board {
                board: b.board@,
                programmer_opts: b.programmer_opts@,
            },
        }
    }
}

/// The mathematical content of an [`Orchestrator`].
pub struct OrchestratorView {
    pub state: State,
    pub target: Option<TargetView>,
    pub binary: Seq<char>,
    pub programmer: Option<ProgrammerOptionsView>,
    pub attach: Option<AttachOptionsView>,
}

/// The view of optional attach options.
pub open spec fn view_opt_attach(attach: Option<AttachOptions>) -> Option<AttachOptionsView> {
    match attach {
        Some(a) => Some(a@),
        None => None,
    }
}

impl View for Orchestrator {
    type V = OrchestratorView;

    open spec fn view(&self) -> OrchestratorView {
        OrchestratorView {
            state: self.state,
            target: match self.target {
                Some(t) => Some(t@),
                None => None,
            },
            binary: self.binary@,
            programmer: match self.programmer {
                Some(p) => Some(p@),
                None => None,
            },
            attach: view_opt_attach(self.attach),
        }
    }
}

/// The console options that a programmer's options give: a serial console
/// on the programmer's port, at its baud rate.
pub open spec fn attach_options_of(programmer: ProgrammerOptionsView) -> AttachOptionsView {
    AttachOptionsView {
        protocol: AttachProtocol::Serial,
        serial_opts: SerialAttachOptionsView {
            port: programmer.port,
            baudrate: programmer.baudrate,
        },
    }
}

/// `action` asks for the binary at `path`.
pub open spec fn is_read(action: Action, path: Seq<char>) -> bool {
    match action {
        Action::ReadBinary(p) => p@ == path,
        _ => false,
    }
}

/// `action` asks to resolve the board `board` with the given options.
pub open spec fn is_resolve(action: Action, board: Seq<char>, given: ProgrammerOptionsView) -> bool {
    match action {
        Action::Resolve(b) => b.board@ == board && b.programmer_opts@ == given,
        _ => false,
    }
}

/// `action` asks to flash the binary at `path` as `request` says.
pub open spec fn is_flash(action: Action, request: FlashRequestView, path: Seq<char>) -> bool {
    match action {
        Action::Flash { request: r, binary } => r@ == request && binary@ == path,
        _ => false,
    }
}

/// `state` and `action` are how a command goes on to its console, whose
/// options are `attach`: it ends well where no console is asked for, opens
/// the console where port and baud rate are known, at a baud rate that is
/// not zero, and fails where one of them is missing.
pub open spec fn enters_attach(attach: Option<AttachOptionsView>, state: State, action: Action) -> bool {
    match attach {
        None => state == State::Done && action is Finish,
        Some(a) => match a.protocol {
            AttachProtocol::Off => state == State::Done && action is Finish,
            AttachProtocol::Serial => match console_request_for(a.serial_opts) {
                Ok(wanted) => state == State::Attaching && match action {
                    Action::Attach(request) => request.port@ == wanted.0 && request.baudrate
                        == wanted.1 && request.baudrate != 0,
                    _ => false,
                },
                Err(e) => state == State::Failed && action == Action::Fail(Failure::Attach(e)),
            },
        },
    }
}

/// `after` is `before` in the state `state`, with nothing else changed.
pub open spec fn moved_to(before: OrchestratorView, after: OrchestratorView, state: State) -> bool {
    after == (OrchestratorView { state, ..before })
}

/// The command fails because `event` was not waited for. A command that has
/// ended stays as it ended.
pub open spec fn out_of_turn(before: OrchestratorView, after: OrchestratorView, action: Action) -> bool {
    if before.state == State::Done {
        after == before && action is Finish
    } else {
        moved_to(before, after, State::Failed) && action == Action::Fail(Failure::OutOfTurn)
    }
}

/// `after` and `action` are the step that the command `before` takes on
/// `event`.
pub open spec fn is_step(
    before: OrchestratorView,
    event: Event,
    after: OrchestratorView,
    action: Action,
) -> bool {
    match (before.state, event) {
        (State::Idle, Event::Start) => match before.target {
            Some(TargetView::Board { board, programmer_opts }) => {
                &&& after == (OrchestratorView {
                    state: State::Resolving,
                    target: None,
                    ..before
                })
                &&& is_resolve(action, board, programmer_opts)
            },
            Some(TargetView::Chip(p)) => {
                &&& after == (OrchestratorView {
                    state: State::Resolving,
                    target: None,
                    programmer: Some(p),
                    ..before
                })
                &&& is_read(action, before.binary)
            },
            None => {
                &&& after == (OrchestratorView { state: after.state, attach: None, ..before })
                &&& enters_attach(before.attach, after.state, action)
            },
        },
        (State::Resolving, Event::Resolved(Ok(p))) => if before.programmer is None {
            &&& after == (OrchestratorView { programmer: Some(p@), ..before })
            &&& is_read(action, before.binary)
        } else {
            out_of_turn(before, after, action)
        },
        (State::Resolving, Event::Resolved(Err(e))) => if before.programmer is None {
            &&& moved_to(before, after, State::Failed)
            &&& action == Action::Fail(Failure::Options(e))
        } else {
            out_of_turn(before, after, action)
        },
        (State::Resolving, Event::BinaryRead(bytes)) => match before.programmer {
            Some(p) => match flash_request_for(p, device_name_of_binary(bytes@)) {
                Ok(request) => {
                    &&& moved_to(before, after, State::Flashing)
                    &&& is_flash(action, request, before.binary)
                },
                Err(e) => {
                    &&& moved_to(before, after, State::Failed)
                    &&& action == Action::Fail(Failure::DeviceInfo(e))
                },
            },
            None => out_of_turn(before, after, action),
        },
        (State::Resolving, Event::BinaryUnreadable(msg)) => if before.programmer is Some {
            &&& moved_to(before, after, State::Failed)
            &&& action == Action::Fail(Failure::BinaryUnreadable(msg))
        } else {
            out_of_turn(before, after, action)
        },
        (State::Flashing, Event::FlashFailed(failure)) => {
            &&& moved_to(before, after, State::Failed)
            &&& action == Action::Fail(Failure::Tool(failure))
        },
        (State::Flashing, Event::FlashSucceeded) => match before.programmer {
            Some(p) => {
                &&& after == (OrchestratorView { state: after.state, attach: None, ..before })
                &&& enters_attach(
                    match before.attach {
                        Some(a) => Some(a.merge(attach_options_of(p))),
                        None => None,
                    },
                    after.state,
                    action,
                )
            },
            None => out_of_turn(before, after, action),
        },
        (State::Attaching, Event::ConsoleClosed) => {
            &&& moved_to(before, after, State::Done)
            &&& action is Finish
        },
        (State::Attaching, Event::ConsoleFailed(msg)) => {
            &&& moved_to(before, after, State::Failed)
            &&& action == Action::Fail(Failure::Console(msg))
        },
        _ => out_of_turn(before, after, action),
    }
}

/// Goes on to the console with the options `attach`.
fn enter_attach(attach: Option<AttachOptions>) -> (r: (State, Action))
    ensures
        enters_attach(view_opt_attach(attach), r.0, r.1),
{
    match attach {
        None => (State::Done, Action::Finish),
        Some(options) => match options.protocol {
            AttachProtocol::Off => (State::Done, Action::Finish),
            AttachProtocol::Serial => match attach_console(&options.serial_opts) {
                Ok(request) => (State::Attaching, Action::Attach(request)),
                Err(e) => (State::Failed, Action::Fail(Failure::Attach(e))),
            },
        },
    }
}

impl Orchestrator {
    /// The command `job`, before anything is done.
    pub fn new(job: Job) -> (r: Orchestrator)
        ensures
            r@ == (OrchestratorView {
                state: State::Idle,
                target: match job.flash {
                    Some(flash) => Some(flash.target@),
                    None => None,
                },
                binary: match job.flash {
                    Some(flash) => flash.binary@,
                    None => Seq::empty(),
                },
                programmer: None,
                attach: view_opt_attach(job.attach),
            }),
    {
        match job.flash {
            Some(flash) => Orchestrator {
                state: State::Idle,
                target: Some(flash.target),
                binary: flash.binary,
                programmer: None,
                attach: job.attach,
            },
            None => Orchestrator {
                state: State::Idle,
                target: None,
                binary: String::new(),
                programmer: None,
                attach: job.attach,
            },
        }
    }

    /// Whether the command has ended, well or not.
    pub fn is_finished(&self) -> (r: bool)
        ensures
            r == (self.state == State::Done || self.state == State::Failed),
    {
        match self.state {
            State::Done => true,
            State::Failed => true,
            _ => false,
        }
    }

    /// The command after an event that it was not waiting for.
    fn reject(self) -> (r: (Orchestrator, Action))
        ensures
            out_of_turn(self@, r.0@, r.1),
    {
        match self.state {
            State::Done => (self, Action::Finish),
            _ => (Orchestrator { state: State::Failed, ..self }, Action::Fail(Failure::OutOfTurn)),
        }
    }

    /// Takes one step: from what happened outside to the next state and
    /// what is to be done next, as [`is_step`] says.
    pub fn step(self, event: Event) -> (r: (Orchestrator, Action))
        ensures
            is_step(self@, event, r.0@, r.1),
    {
        match self.state {
            State::Idle => match event {
                Event::Start => {
                    let Orchestrator { state: _, target, binary, programmer, attach } = self;
                    match target {
                        Some(Target::Board(board)) => (
                            Orchestrator {
                                state: State::Resolving,
                                target: None,
                                binary,
                                programmer,
                                attach,
                            },
                            Action::Resolve(board),
                        ),
                        Some(Target::Chip(given)) => {
                            let path = binary.clone();
                            (
                                Orchestrator {
                                    state: State::Resolving,
                                    target: None,
                                    binary,
                                    programmer: Some(given),
                                    attach,
                                },
                                Action::ReadBinary(path),
                            )
                        },
                        None => {
                            let (state, action) = enter_attach(attach);
                            (
                                Orchestrator { state, target: None, binary, programmer, attach: None },
                                action,
                            )
                        },
                    }
                },
                _ => self.reject(),
            },
            State::Resolving => match event {
                Event::Resolved(resolved) => {
                    if self.programmer.is_some() {
                        return self.reject();
                    }
                    match resolved {
                        Ok(programmer) => {
                            let path = self.binary.clone();
                            (
                                Orchestrator { programmer: Some(programmer), ..self },
                                Action::ReadBinary(path),
                            )
                        },
                        Err(e) => (
                            Orchestrator { state: State::Failed, ..self },
                            Action::Fail(Failure::Options(e)),
                        ),
                    }
                },
                Event::BinaryRead(bytes) => {
                    let flashing = match &self.programmer {
                        Some(programmer) => flash_binary(programmer, bytes.as_slice()),
                        None => {
                            return self.reject();
                        },
                    };
                    match flashing {
                        Ok(request) => {
                            let binary = self.binary.clone();
                            (
                                Orchestrator { state: State::Flashing, ..self },
                                Action::Flash { request, binary },
                            )
                        },
                        Err(e) => (
                            Orchestrator { state: State::Failed, ..self },
                            Action::Fail(Failure::DeviceInfo(e)),
                        ),
                    }
                },
                Event::BinaryUnreadable(msg) => {
                    if self.programmer.is_none() {
                        return self.reject();
                    }
                    (
                        Orchestrator { state: State::Failed, ..self },
                        Action::Fail(Failure::BinaryUnreadable(msg)),
                    )
                },
                _ => self.reject(),
            },
            State::Flashing => match event {
                Event::FlashFailed(failure) => (
                    Orchestrator { state: State::Failed, ..self },
                    Action::Fail(Failure::Tool(failure)),
                ),
                Event::FlashSucceeded => {
                    let derived = match &self.programmer {
                        Some(programmer) => programmer.into_attach_options(),
                        None => {
                            return self.reject();
                        },
                    };
                    let Orchestrator { state: _, target, binary, programmer, attach } = self;
                    let merged = match attach {
                        Some(mut wanted) => {
                            wanted.merge(derived);
                            Some(wanted)
                        },
                        None => None,
                    };
                    let (state, action) = enter_attach(merged);
                    (Orchestrator { state, target, binary, programmer, attach: None }, action)
                },
                _ => self.reject(),
            },
            State::Attaching => match event {
                Event::ConsoleClosed => (
                    Orchestrator { state: State::Done, ..self },
                    Action::Finish,
                ),
                Event::ConsoleFailed(msg) => (
                    Orchestrator { state: State::Failed, ..self },
                    Action::Fail(Failure::Console(msg)),
                ),
                _ => self.reject(),
            },
            State::Done => self.reject(),
            State::Failed => self.reject(),
        }
    }
}

/// The command that flashes with `target` the binary at `binary`, if it
/// flashes at all, and attaches the console `attach`, if any, before
/// anything is done.
pub open spec fn idle(
    target: Option<TargetView>,
    binary: Seq<char>,
    attach: Option<AttachOptionsView>,
) -> OrchestratorView {
    OrchestratorView { state: State::Idle, target, binary, programmer: None, attach }
}

/// Begins the command `job`: its first step.
pub fn launch(job: Job) -> (r: (Orchestrator, Action))
    ensures
        is_step(
            idle(
                match job.flash {
                    Some(flash) => Some(flash.target@),
                    None => None,
                },
                match job.flash {
                    Some(flash) => flash.binary@,
                    None => Seq::empty(),
                },
                view_opt_attach(job.attach),
            ),
            Event::Start,
            r.0@,
            r.1,
        ),
{
    Orchestrator::new(job).step(Event::Start)
}

/// What is said where the flashing tool ends without success.
pub const TOOL_FAILED: &'static str = "avrdude failed";

/// What is said of an event that was not waited for.
pub const OUT_OF_TURN: &'static str = "unexpected event";

impl Failure {
    /// The failure in words. What the outside world said of its own
    /// failures is handed on as it was said.
    pub fn message(&self) -> (r: String)
        ensures
            match *self {
                Failure::BinaryUnreadable(msg) => r@ == msg@,
                Failure::Tool(ToolFailure::Spawn(msg)) => r@ == msg@,
                Failure::Tool(ToolFailure::Exit(_)) => r@ == TOOL_FAILED@,
                Failure::Console(msg) => r@ == msg@,
                Failure::OutOfTurn => r@ == OUT_OF_TURN@,
                Failure::Attach(e) => r@ == match e {
                    AttachError::PortRequired => crate::util::console::PORT_REQUIRED@,
                    AttachError::BaudrateRequired => crate::util::console::BAUDRATE_REQUIRED@,
                },
                Failure::DeviceInfo(e) => r@ == match e {
                    DeviceInfoError::MalformedObject => crate::util::avr_libc::MALFORMED_OBJECT@,
                    DeviceInfoError::SectionNotFound => crate::util::avr_libc::SECTION_NOT_FOUND@,
                    DeviceInfoError::NoteNotFound => crate::util::avr_libc::NOTE_NOT_FOUND@,
                    DeviceInfoError::MalformedDescriptor =>
                        crate::util::avr_libc::MALFORMED_DESCRIPTOR@,
                    DeviceInfoError::InvalidName => crate::util::avr_libc::INVALID_NAME@,
                },
                Failure::Options(e) => r@ == options_message(e),
            },
    {
        match self {
            Failure::Options(e) => e.message(),
            Failure::BinaryUnreadable(msg) => msg.clone(),
            Failure::DeviceInfo(e) => e.message(),
            Failure::Tool(ToolFailure::Spawn(msg)) => msg.clone(),
            Failure::Tool(ToolFailure::Exit(_)) => String::from_str(TOOL_FAILED),
            Failure::Attach(e) => e.message(),
            Failure::Console(msg) => msg.clone(),
            Failure::OutOfTurn => String::from_str(OUT_OF_TURN),
        }
    }
}

/// A command that has ended takes no further step: it stays as it ended
/// and asks for nothing.
pub proof fn lemma_ended_command_stays(
    before: OrchestratorView,
    event: Event,
    after: OrchestratorView,
    action: Action,
)
    requires
        before.state == State::Done || before.state == State::Failed,
        is_step(before, event, after, action),
    ensures
        after == before,
        before.state == State::Done ==> action is Finish,
        before.state == State::Failed ==> action is Fail,
{
}

/// After a flashing that failed no console is attached: the command has
/// failed, or had ended before.
pub proof fn lemma_failed_flash_never_attaches(
    before: OrchestratorView,
    failure: ToolFailure,
    after: OrchestratorView,
    action: Action,
)
    requires
        is_step(before, Event::FlashFailed(failure), after, action),
    ensures
        after.state == State::Failed || after.state == State::Done,
        after.state != State::Attaching,
        !(action is Attach),
        before.state == State::Flashing ==> action == Action::Fail(Failure::Tool(failure)),
{
}

/// The console is opened only with a port and a baud rate, and only from
/// the start of a command that flashes nothing or after a flashing that
/// succeeded.
pub proof fn lemma_console_opens_in_turn(
    before: OrchestratorView,
    event: Event,
    after: OrchestratorView,
    action: Action,
)
    requires
        is_step(before, event, after, action),
        action is Attach,
    ensures
        after.state == State::Attaching,
        action->Attach_0.baudrate != 0,
        (before.state == State::Idle && event is Start && before.target is None) || (before.state
            == State::Flashing && event is FlashSucceeded),
{
}

/// Where a console follows a flashing, a port and a baud rate that the
/// console's own options set are the console's: what the flashing used
/// fills in only what they leave open.
pub proof fn lemma_console_options_win(
    before: OrchestratorView,
    after: OrchestratorView,
    action: Action,
)
    requires
        before.state == State::Flashing,
        is_step(before, Event::FlashSucceeded, after, action),
        action is Attach,
        before.attach is Some,
    ensures
        before.attach->0.serial_opts.port matches Some(port) ==> action->Attach_0.port@ == port,
        before.attach->0.serial_opts.baudrate matches Some(baudrate) ==> action->Attach_0.baudrate
            == baudrate,
        before.attach->0.serial_opts.port is None ==> before.programmer is Some
            && before.programmer->0.port == Some(action->Attach_0.port@),
        before.attach->0.serial_opts.baudrate is None ==> before.programmer is Some
            && before.programmer->0.baudrate == Some(action->Attach_0.baudrate),
{
}

} // verus!
