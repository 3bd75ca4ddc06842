//! One run of the flashing front end, planned ahead: what is waited for
//! before flashing, what is flashed, and whether a console is opened. A
//! plan is made once the board is known; carrying it out is left to the
//! caller, step by step, and ends at the first step that fails.

use crate::avrdude::{clone_opt_string, view_opt_string};
use crate::board::config::{
    is_first_match, is_guess_among, is_port, lemma_guess_without_ids_ignores_ports,
    lemma_search_has_an_outcome, no_match, port_matches, port_message, searches_ports,
    BoardConfig, BoardConfigView, DetectedPort, PortError, UsbInfoView,
};
use crate::config::{
    config_message, Args, ConfigError, GeneralConfigView, RavedudeConfig, RavedudeConfigView,
};
use crate::util::avrdude::{FlashRequest, FlashRequestView};
use crate::util::console::ConsoleRequest;
use vstd::prelude::*;
use vstd::string::StringExecFns;

verus! {

/// The major version of the flashing tool that is needed at least.
pub const MIN_AVRDUDE_MAJOR: u8 = 6;

/// The minor version that is needed at least of that major version.
pub const MIN_AVRDUDE_MINOR: u8 = 3;

/// Whether the flashing tool of the version `major`.`minor` is new enough.
pub fn meets_min_version(major: u8, minor: u8) -> (r: bool)
    ensures
        r == (major > MIN_AVRDUDE_MAJOR || (major == MIN_AVRDUDE_MAJOR && minor
            >= MIN_AVRDUDE_MINOR)),
{
    major > MIN_AVRDUDE_MAJOR || (major == MIN_AVRDUDE_MAJOR && minor >= MIN_AVRDUDE_MINOR)
}

/// Where the board's description comes from.
#[derive(Debug)]
pub enum BoardSource {
    /// The catalog's board of this name.
    Named(String),
    /// The configuration file.
    Manifest,
}

/// Where the board's description comes from: the board that the command
/// line names, else the configuration file. Where a description is to be
/// printed, the first positional argument is the board even if it stands
/// alone.
pub fn board_source(args: &Args) -> (r: BoardSource)
    ensures
        match if args.dump_config {
            view_opt_string(args.board)
        } else {
            args.legacy_board()
        } {
            Some(name) => r matches BoardSource::Named(n) && n@ == name,
            None => r is Manifest,
        },
{
    let named = if args.dump_config {
        clone_opt_string(&args.board)
    } else {
        args.legacy_board_name()
    };
    match named {
        Some(name) => BoardSource::Named(name),
        None => BoardSource::Manifest,
    }
}

/// What is said to the user of a board that cannot reset itself.
pub const RESET_MESSAGE: &'static str = "Reset the board by pressing the reset button once.";

/// What is done about the board's reset before flashing.
#[derive(Debug)]
pub enum ResetStep {
    /// The board resets itself.
    Nothing,
    /// The board is resetting: wait this many milliseconds.
    Wait(u64),
    /// The board has been reset already.
    Assume,
    /// Tell the user this and wait until they confirm.
    Ask(String),
}

/// The mathematical content of a [`ResetStep`].
pub enum ResetStepView {
    Nothing,
    Wait(u64),
    Assume,
    Ask(Seq<char>),
}

impl View for ResetStep {
    type V = ResetStepView;

    open spec fn view(&self) -> ResetStepView {
        match self {
            ResetStep::Nothing => ResetStepView::Nothing,
            ResetStep::Wait(ms) => ResetStepView::Wait(*ms),
            ResetStep::Assume => ResetStepView::Assume,
            ResetStep::Ask(msg) => ResetStepView::Ask(msg@),
        }
    }
}

/// What a console cannot be opened without.
#[derive(Clone, Copy, Debug, PartialEq, Eq, Structural)]
pub enum ConsoleRefusal {
    /// No baud rate was given.
    BaudrateNeeded,
    /// No port was given and the board has none to find.
    PortNeeded,
}

/// What is said where the console lacks its baud rate.
pub const BAUDRATE_NEEDED: &'static str = "-b/--baudrate is needed for the serial console";

/// What is said where the console lacks its port.
pub const PORT_NEEDED: &'static str = "console can only be opened for devices with USB-to-Serial";

impl ConsoleRefusal {
    /// The refusal in words.
    pub fn message(&self) -> (r: String)
        ensures
            r@ == match *self {
                ConsoleRefusal::BaudrateNeeded => BAUDRATE_NEEDED@,
                ConsoleRefusal::PortNeeded => PORT_NEEDED@,
            },
    {
        match self {
            ConsoleRefusal::BaudrateNeeded => String::from_str(BAUDRATE_NEEDED),
            ConsoleRefusal::PortNeeded => String::from_str(PORT_NEEDED),
        }
    }
}

/// What is done about the console after flashing.
#[derive(Debug)]
pub enum ConsoleStep {
    /// No console was asked for.
    Nothing,
    /// Open the console.
    Open(ConsoleRequest),
    /// A console was asked for and cannot be opened: fail with this.
    Refuse(ConsoleRefusal),
    /// Nothing was flashed and a port is known: the user probably meant to
    /// ask for a console.
    Suggest,
}

/// The mathematical content of a [`ConsoleStep`].
pub enum ConsoleStepView {
    Nothing,
    Open { port: Seq<char>, baudrate: u32 },
    Refuse(ConsoleRefusal),
    Suggest,
}

impl View for ConsoleStep {
    type V = ConsoleStepView;

    open spec fn view(&self) -> ConsoleStepView {
        match self {
            ConsoleStep::Nothing => ConsoleStepView::Nothing,
            ConsoleStep::Open(request) => ConsoleStepView::Open {
                port: request.port@,
                baudrate: request.baudrate,
            },
            ConsoleStep::Refuse(refusal) => ConsoleStepView::Refuse(*refusal),
            ConsoleStep::Suggest => ConsoleStepView::Suggest,
        }
    }
}

/// The flashing of one binary.
#[derive(Debug)]
pub struct FlashStep {
    pub request: FlashRequest,
    /// The path of the binary.
    pub binary: String,
}

/// The mathematical content of a [`FlashStep`].
pub struct FlashStepView {
    pub request: FlashRequestView,
    pub binary: Seq<char>,
}

/// The steps of one run.
#[derive(Debug)]
pub enum Plan {
    /// Print this description of the board and do nothing else.
    DumpConfig(BoardConfig),
    /// Announce the board, see to its reset, flash unless there is nothing
    /// to flash, then see to the console.
    Run { board_name: String, reset: ResetStep, flash: Option<FlashStep>, console: ConsoleStep },
}

/// The mathematical content of a [`Plan`].
pub enum PlanView {
    DumpConfig(BoardConfigView),
    Run {
        board_name: Seq<char>,
        reset: ResetStepView,
        flash: Option<FlashStepView>,
        console: ConsoleStepView,
    },
}

impl View for Plan {
    type V = PlanView;

    open spec fn view(&self) -> PlanView {
        match self {
            Plan::DumpConfig(board) => PlanView::DumpConfig(board@),
            Plan::Run { board_name, reset, flash, console } => PlanView::Run {
                board_name: board_name@,
                reset: reset@,
                flash: match flash {
                    Some(step) => Some(
                        FlashStepView { request: step.request@, binary: step.binary@ },
                    ),
                    None => None,
                },
                console: console@,
            },
        }
    }
}

/// Why no plan could be made.
#[derive(Debug)]
pub enum RavedudeError {
    /// The command line contradicts itself.
    Config(ConfigError),
    /// No board is described.
    MissingBoard,
    /// The board's description lacks its name, its reset behaviour or some
    /// of its flashing options, or still inherits.
    MissingRequiredField,
    /// No port was given and the search for one failed.
    Port(PortError),
}

/// What is added to a failed search for the port.
pub const PORT_HINT: &'static str =
    "no matching serial port found, use -P or set RAVEDUDE_PORT in your environment";

/// What is done about the reset of a board that resets itself or not,
/// where the user gave this delay or none.
pub open spec fn reset_step_for(delay: Option<u64>, automatic: bool) -> ResetStepView {
    match delay {
        Some(ms) => if ms > 0 {
            ResetStepView::Wait(ms)
        } else {
            ResetStepView::Assume
        },
        None => if automatic {
            ResetStepView::Nothing
        } else {
            ResetStepView::Ask(RESET_MESSAGE@)
        },
    }
}

/// What is done about the console: where one is asked for, the baud rate
/// is needed first and then the port; where none is asked for, nothing was
/// flashed and a port is known, a console is suggested.
pub open spec fn console_step_for(
    open_console: bool,
    baudrate: Option<u32>,
    port: Option<Seq<char>>,
    flashes: bool,
) -> ConsoleStepView {
    if open_console {
        match baudrate {
            None => ConsoleStepView::Refuse(ConsoleRefusal::BaudrateNeeded),
            Some(baudrate) => match port {
                None => ConsoleStepView::Refuse(ConsoleRefusal::PortNeeded),
                Some(port) => ConsoleStepView::Open { port, baudrate },
            },
        }
    } else if !flashes && port is Some {
        ConsoleStepView::Suggest
    } else {
        ConsoleStepView::Nothing
    }
}

/// The run of the complete board `board` on the port `port`, as the command
/// line `args` and the general options `general` ask for it.
pub open spec fn run_for(
    args: Args,
    general: GeneralConfigView,
    board: BoardConfigView,
    port: Option<Seq<char>>,
) -> PlanView {
    PlanView::Run {
        board_name: board.name->0,
        reset: reset_step_for(general.reset_delay, board.reset->0.automatic),
        flash: match args.binary() {
            Some(binary) => Some(
                FlashStepView {
                    request: FlashRequestView {
                        options: board.avrdude->0,
                        port,
                        show_command: args.debug_avrdude,
                    },
                    binary,
                },
            ),
            None => None,
        },
        console: console_step_for(
            general.open_console,
            general.serial_baudrate,
            port,
            args.binary() is Some,
        ),
    }
}

/// `r` is the plan for the command line `args` and the configuration
/// `config`, where the search for the board's port came out as `guess`.
/// What the command line sets wins over the configuration's general
/// options; a port that is set wins over the search.
pub open spec fn is_plan(
    args: Args,
    config: RavedudeConfigView,
    guess: Option<Result<String, PortError>>,
    r: Result<Plan, RavedudeError>,
) -> bool {
    match config.board_config {
        None => r matches Err(RavedudeError::MissingBoard),
        Some(board) => if args.dump_config {
            r matches Ok(plan) && plan@ == PlanView::DumpConfig(board)
        } else if args.baudrate == Some(0u32) {
            r matches Err(RavedudeError::Config(ConfigError::ZeroBaudrate))
        } else if !board.is_complete() {
            r matches Err(RavedudeError::MissingRequiredField)
        } else {
            let general = config.general_options.overridden_by(args);
            if general.port is Some {
                r matches Ok(plan) && plan@ == run_for(args, general, board, general.port)
            } else {
                match guess {
                    None => r matches Ok(plan) && plan@ == run_for(args, general, board, None),
                    Some(Ok(found)) => r matches Ok(plan) && plan@ == run_for(
                        args,
                        general,
                        board,
                        Some(found@),
                    ),
                    Some(Err(e)) => r matches Err(RavedudeError::Port(err)) && err == e,
                }
            }
        },
    }
}

/// Makes the plan of one run from the command line, the configuration and
/// the outcome of the search for the board's port, as [`is_plan`] says.
pub fn plan_run(args: &Args, config: RavedudeConfig, guess: Option<Result<String, PortError>>) -> (r:
    Result<Plan, RavedudeError>)
    ensures
        is_plan(*args, config@, guess, r),
{
    let RavedudeConfig { general_options, board_config } = config;
    let mut general = general_options;
    let board = match board_config {
        Some(board) => board,
        None => {
            return Err(RavedudeError::MissingBoard);
        },
    };
    if args.dump_config {
        return Ok(Plan::DumpConfig(board));
    }
    match general.apply_overrides_from(args) {
        Ok(_) => {},
        Err(e) => {
            return Err(RavedudeError::Config(e));
        },
    }
    if !board.is_complete() {
        return Err(RavedudeError::MissingRequiredField);
    }
    let BoardConfig { name, inherit: _, reset, avrdude, usb_info: _ } = board;
    let board_name = match name {
        Some(name) => name,
        None => {
            return Err(RavedudeError::MissingRequiredField);
        },
    };
    let automatic = match reset {
        Some(reset) => reset.automatic,
        None => {
            return Err(RavedudeError::MissingRequiredField);
        },
    };
    let options = match avrdude {
        Some(options) => options,
        None => {
            return Err(RavedudeError::MissingRequiredField);
        },
    };
    let reset = match general.reset_delay {
        Some(ms) => if ms > 0 {
            ResetStep::Wait(ms)
        } else {
            ResetStep::Assume
        },
        None => if automatic {
            ResetStep::Nothing
        } else {
            ResetStep::Ask(String::from_str(RESET_MESSAGE))
        },
    };
    let port = match general.port {
        Some(port) => Some(port),
        None => match guess {
            Some(Ok(found)) => Some(found),
            Some(Err(e)) => {
                return Err(RavedudeError::Port(e));
            },
            None => None,
        },
    };
    let binary = args.binary_name();
    let flashes = binary.is_some();
    let console = if general.open_console {
        match general.serial_baudrate {
            None => ConsoleStep::Refuse(ConsoleRefusal::BaudrateNeeded),
            Some(baudrate) => match &port {
                None => ConsoleStep::Refuse(ConsoleRefusal::PortNeeded),
                Some(port) => ConsoleStep::Open(
                    ConsoleRequest { port: port.clone(), baudrate: baudrate.get() },
                ),
            },
        }
    } else if !flashes && port.is_some() {
        ConsoleStep::Suggest
    } else {
        ConsoleStep::Nothing
    };
    let flash = match binary {
        Some(binary) => Some(
            FlashStep {
                request: FlashRequest { options, port, show_command: args.debug_avrdude },
                binary,
            },
        ),
        None => None,
    };
    Ok(Plan::Run { board_name, reset, flash, console })
}

/// Whether the plan for the command line `args` and the configuration
/// `config` looks at the host's serial ports at all: it does where a run
/// is planned for a complete board that names USB ids, and neither the
/// command line nor the configuration sets a port.
pub open spec fn plan_searches(args: Args, config: RavedudeConfigView) -> bool {
    &&& config.board_config matches Some(board) && board.is_complete() && searches_ports(
        board.usb_info,
    )
    &&& !args.dump_config
    &&& args.baudrate != Some(0u32)
    &&& args.port is None
    &&& config.general_options.port is None
}

/// Whether the plan looks at the host's serial ports at all. Where it does
/// not, any list of ports gives the same plan.
pub fn needs_port_search(args: &Args, config: &RavedudeConfig) -> (r: bool)
    ensures
        r == plan_searches(*args, config@),
{
    match &config.board_config {
        Some(board) => board.is_complete() && board.needs_port_search() && !args.dump_config
            && args.baudrate != Some(0) && args.port.is_none()
            && config.general_options.port.is_none(),
        None => false,
    }
}

/// Makes the plan of one run, where the host shows the serial ports
/// `ports`, in that order, as [`is_plan_among`] says.
pub fn ravedude(args: &Args, config: RavedudeConfig, ports: &Vec<DetectedPort>) -> (r: Result<
    Plan,
    RavedudeError,
>)
    ensures
        is_plan_among(*args, config@, ports@, r),
{
    let guess = match &config.board_config {
        Some(board) => board.guess_port(ports),
        None => None,
    };
    let ghost outcome = guess;
    let ghost before = config@;
    let r = plan_run(args, config, guess);
    assert(is_plan(*args, before, outcome, r));
    r
}

/// The USB information of the board of a configuration, if it has a board
/// with any.
pub open spec fn usb_info_of(config: RavedudeConfigView) -> Option<UsbInfoView> {
    match config.board_config {
        Some(board) => board.usb_info,
        None => None,
    }
}

/// `r` is the plan for the command line `args` and the configuration
/// `config` when the host shows `ports`.
pub open spec fn is_plan_among(
    args: Args,
    config: RavedudeConfigView,
    ports: Seq<DetectedPort>,
    r: Result<Plan, RavedudeError>,
) -> bool {
    exists|guess: Option<Result<String, PortError>>|
        is_guess_among(usb_info_of(config), ports, guess) && #[trigger] is_plan(
            args,
            config,
            guess,
            r,
        )
}

/// Where the plan does not look at the host's ports, it comes out the same
/// whatever ports the host shows.
pub proof fn lemma_plan_without_search_ignores_ports(
    args: Args,
    config: RavedudeConfigView,
    ports: Seq<DetectedPort>,
    others: Seq<DetectedPort>,
    r: Result<Plan, RavedudeError>,
)
    requires
        !plan_searches(args, config),
        is_plan_among(args, config, ports, r),
    ensures
        is_plan_among(args, config, others, r),
{
    let guess = choose|guess: Option<Result<String, PortError>>|
        is_guess_among(usb_info_of(config), ports, guess) && #[trigger] is_plan(
            args,
            config,
            guess,
            r,
        );
    if searches_ports(usb_info_of(config)) {
        lemma_search_has_an_outcome(usb_info_of(config)->0->PortIds_0, others);
        let other = choose|other: Option<Result<String, PortError>>|
            is_guess_among(usb_info_of(config), others, other);
        assert(is_plan(args, config, other, r));
    } else {
        lemma_guess_without_ids_ignores_ports(usb_info_of(config), ports, others, guess);
        assert(is_plan(args, config, guess, r));
    }
}

/// A port that the command line or the configuration sets is the port of
/// the run, whatever ports the host shows; the command line's wins over
/// the configuration's.
pub proof fn lemma_plan_uses_the_set_port(
    args: Args,
    config: RavedudeConfigView,
    ports: Seq<DetectedPort>,
    r: Result<Plan, RavedudeError>,
)
    requires
        config.board_config matches Some(board) && board.is_complete(),
        !args.dump_config,
        args.baudrate != Some(0u32),
        args.port is Some || config.general_options.port is Some,
        is_plan_among(args, config, ports, r),
    ensures
        r is Ok,
        r->Ok_0@ == run_for(
            args,
            config.general_options.overridden_by(args),
            config.board_config->0,
            if args.port is Some {
                view_opt_string(args.port)
            } else {
                config.general_options.port
            },
        ),
{
}

/// Where no port is set, the run follows the search: a failed search fails
/// the plan, so that nothing is flashed and no console is opened; a found
/// port is the port of the run; and a board without USB information is run
/// with the port left open.
pub proof fn lemma_plan_follows_the_search(
    args: Args,
    config: RavedudeConfigView,
    ports: Seq<DetectedPort>,
    r: Result<Plan, RavedudeError>,
)
    requires
        config.board_config matches Some(board) && board.is_complete(),
        !args.dump_config,
        args.baudrate != Some(0u32),
        args.port is None,
        config.general_options.port is None,
        is_plan_among(args, config, ports, r),
    ensures
        usb_info_of(config) is None ==> r is Ok && r->Ok_0@ == run_for(
            args,
            config.general_options.overridden_by(args),
            config.board_config->0,
            None,
        ),
        usb_info_of(config) is Some && !searches_ports(usb_info_of(config)) ==> r is Err
            && r->Err_0 is Port,
        searches_ports(usb_info_of(config)) && no_match(usb_info_of(config)->0->PortIds_0, ports)
            ==> r is Err && r->Err_0 is Port,
        forall|i: int|
            searches_ports(usb_info_of(config)) && #[trigger] is_first_match(
                usb_info_of(config)->0->PortIds_0,
                ports,
                i,
            ) ==> r is Ok && r->Ok_0@ == run_for(
                args,
                config.general_options.overridden_by(args),
                config.board_config->0,
                Some(ports[i].port_name@),
            ),
{
    let guess = choose|guess: Option<Result<String, PortError>>|
        is_guess_among(usb_info_of(config), ports, guess) && #[trigger] is_plan(
            args,
            config,
            guess,
            r,
        );
    if searches_ports(usb_info_of(config)) {
        let ids = usb_info_of(config)->0->PortIds_0;
        assert forall|i: int| #[trigger] is_first_match(ids, ports, i) implies r is Ok && r->Ok_0@
            == run_for(
            args,
            config.general_options.overridden_by(args),
            config.board_config->0,
            Some(ports[i].port_name@),
        ) by {
            assert(port_matches(ids, ports[i]));
            let j = choose|j: int| #[trigger]
                is_first_match(ids, ports, j) && is_port(guess, ports[j].port_name@);
            assert(i == j);
        }
    }
}

/// What is said of a configuration without a board.
pub const MISSING_BOARD: &'static str = "no board is given";

/// What is said of a board whose description is not complete.
pub const MISSING_FIELD: &'static str =
    "board lacks its name, its reset options or some of its avrdude options";

impl RavedudeError {
    /// What lies behind the error, in words: for a failed search for the
    /// port, what the search itself says, which is the board's own message
    /// or that no port was found. Other errors have nothing behind them.
    pub fn cause(&self) -> (r: Option<String>)
        ensures
            match *self {
                RavedudeError::Port(e) => r matches Some(text) && text@ == port_message(e),
                _ => r is None,
            },
    {
        match self {
            RavedudeError::Port(e) => Some(e.message()),
            _ => None,
        }
    }

    /// The error in words. A failed search for the port is told with the
    /// advice to name the port; what the search itself says is its
    /// [`RavedudeError::cause`].
    pub fn message(&self) -> (r: String)
        ensures
            r@ == match *self {
                RavedudeError::Config(e) => config_message(e),
                RavedudeError::MissingBoard => MISSING_BOARD@,
                RavedudeError::MissingRequiredField => MISSING_FIELD@,
                RavedudeError::Port(_) => PORT_HINT@,
            },
    {
        match self {
            RavedudeError::Config(e) => e.message(),
            RavedudeError::MissingBoard => String::from_str(MISSING_BOARD),
            RavedudeError::MissingRequiredField => String::from_str(MISSING_FIELD),
            RavedudeError::Port(_) => String::from_str(PORT_HINT),
        }
    }
}

} // verus!
