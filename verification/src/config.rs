//! The configuration of one run: what the command line says, what the
//! configuration file says, and the board that both lead to.

use crate::avrdude::{clone_opt_string, view_opt_baud, view_opt_string, Baudrate};
use crate::board::config::{BoardConfig, BoardConfigView};
use crate::board::{
    catalog_board, catalog_ids, get_board_from_name, not_found_message, strings_view,
    BoardNotFound,
};
use vstd::prelude::*;
use vstd::string::StringExecFns;

verus! {

/// What the command line says.
#[derive(Debug)]
pub struct Args {
    /// Print a board's description instead of flashing.
    pub dump_config: bool,
    /// Open a serial console after flashing.
    pub open_console: bool,
    /// The baud rate of the serial console.
    pub baudrate: Option<u32>,
    /// The port to use in place of the one that is found.
    pub port: Option<String>,
    /// How many milliseconds to wait for a board that is already resetting.
    pub reset_delay: Option<u64>,
    /// Show the flashing tool's command line.
    pub debug_avrdude: bool,
    /// The first positional argument: the board, or the binary where it
    /// stands alone.
    pub board: Option<String>,
    /// The second positional argument: the binary to flash.
    pub bin: Option<String>,
}

impl Args {
    /// The board that the command line names: its first positional
    /// argument, where a second one follows. A positional argument that
    /// stands alone is the binary.
    pub open spec fn legacy_board(self) -> Option<Seq<char>> {
        if self.bin is Some {
            view_opt_string(self.board)
        } else {
            None
        }
    }

    /// The binary that the command line names: its second positional
    /// argument, or the first where it stands alone.
    pub open spec fn binary(self) -> Option<Seq<char>> {
        if self.bin is Some {
            view_opt_string(self.bin)
        } else {
            view_opt_string(self.board)
        }
    }

    /// The board that the command line names, if it names one.
    pub fn legacy_board_name(&self) -> (r: Option<String>)
        ensures
            view_opt_string(r) == self.legacy_board(),
    {
        if self.bin.is_some() {
            clone_opt_string(&self.board)
        } else {
            None
        }
    }

    /// The binary that the command line names, if it names one.
    pub fn binary_name(&self) -> (r: Option<String>)
        ensures
            view_opt_string(r) == self.binary(),
    {
        if self.bin.is_some() {
            clone_opt_string(&self.bin)
        } else {
            clone_opt_string(&self.board)
        }
    }
}

/// The general section of the configuration: what the command line can
/// override.
#[derive(Debug)]
pub struct RavedudeGeneralConfig {
    pub open_console: bool,
    pub serial_baudrate: Option<Baudrate>,
    pub port: Option<String>,
    pub reset_delay: Option<u64>,
    pub board: Option<String>,
}

/// The mathematical content of a [`RavedudeGeneralConfig`].
pub struct GeneralConfigView {
    pub open_console: bool,
    pub serial_baudrate: Option<u32>,
    pub port: Option<Seq<char>>,
    pub reset_delay: Option<u64>,
    pub board: Option<Seq<char>>,
}

impl GeneralConfigView {
    /// The general section that says nothing.
    pub open spec fn empty() -> GeneralConfigView {
        GeneralConfigView {
            open_console: false,
            serial_baudrate: None,
            port: None,
            reset_delay: None,
            board: None,
        }
    }

    /// This section with what the command line `args` sets laid over it:
    /// the console is opened where either asks for it, and a baud rate, port
    /// or delay of the command line replaces the section's. The board is
    /// not touched.
    pub open spec fn overridden_by(self, args: Args) -> GeneralConfigView {
        GeneralConfigView {
            open_console: self.open_console || args.open_console,
            serial_baudrate: if args.baudrate is Some {
                args.baudrate
            } else {
                self.serial_baudrate
            },
            port: if args.port is Some {
                view_opt_string(args.port)
            } else {
                self.port
            },
            reset_delay: if args.reset_delay is Some {
                args.reset_delay
            } else {
                self.reset_delay
            },
            board: self.board,
        }
    }
}

impl View for RavedudeGeneralConfig {
    type V = GeneralConfigView;

    open spec fn view(&self) -> GeneralConfigView {
        GeneralConfigView {
            open_console: self.open_console,
            serial_baudrate: view_opt_baud(self.serial_baudrate),
            port: view_opt_string(self.port),
            reset_delay: self.reset_delay,
            board: view_opt_string(self.board),
        }
    }
}

impl Default for RavedudeGeneralConfig {
    fn default() -> (r: RavedudeGeneralConfig)
        ensures
            r@ == GeneralConfigView::empty(),
    {
        RavedudeGeneralConfig {
            open_console: false,
            serial_baudrate: None,
            port: None,
            reset_delay: None,
            board: None,
        }
    }
}

/// The whole configuration: the general section and the board.
#[derive(Debug)]
pub struct RavedudeConfig {
    pub general_options: RavedudeGeneralConfig,
    pub board_config: Option<BoardConfig>,
}

/// The mathematical content of a [`RavedudeConfig`].
pub struct RavedudeConfigView {
    pub general_options: GeneralConfigView,
    pub board_config: Option<BoardConfigView>,
}

impl View for RavedudeConfig {
    type V = RavedudeConfigView;

    open spec fn view(&self) -> RavedudeConfigView {
        RavedudeConfigView {
            general_options: self.general_options@,
            board_config: match self.board_config {
                Some(b) => Some(b@),
                None => None,
            },
        }
    }
}

impl Default for RavedudeConfig {
    fn default() -> (r: RavedudeConfig)
        ensures
            r@ == (RavedudeConfigView {
                general_options: GeneralConfigView::empty(),
                board_config: None,
            }),
    {
        RavedudeConfig { general_options: RavedudeGeneralConfig::default(), board_config: None }
    }
}

/// Why a configuration could not be made.
#[derive(Debug)]
pub enum ConfigError {
    /// A baud rate of zero was given.
    ZeroBaudrate,
    /// The file names a board in its general section and describes one in
    /// its board section too.
    BoardGivenTwice(String),
    /// The board that is named or inherited from is not in the catalog.
    Board(BoardNotFound),
}

/// What is said of a baud rate of zero.
pub const ZERO_BAUDRATE: &'static str = "baudrate must not be 0";

/// What is said of a board that is given twice, up to the board's name.
pub const GIVEN_TWICE_HEAD: &'static str =
    "can't both have board in [general] and [board] section; set inherit = \"";

/// What is said of a board that is given twice, after the board's name.
pub const GIVEN_TWICE_TAIL: &'static str = "\" under [board] to inherit its options";

/// The words for a configuration that could not be made.
pub open spec fn config_message(e: ConfigError) -> Seq<char> {
    match e {
        ConfigError::ZeroBaudrate => ZERO_BAUDRATE@,
        ConfigError::BoardGivenTwice(name) => GIVEN_TWICE_HEAD@ + name@ + GIVEN_TWICE_TAIL@,
        ConfigError::Board(e) => not_found_message(e.board@, strings_view(e.valid_boards@)),
    }
}

impl ConfigError {
    /// The error in words.
    pub fn message(&self) -> (r: String)
        ensures
            r@ == config_message(*self),
    {
        match self {
            ConfigError::ZeroBaudrate => String::from_str(ZERO_BAUDRATE),
            ConfigError::BoardGivenTwice(name) => {
                let mut msg = String::from_str(GIVEN_TWICE_HEAD);
                msg.append(name.as_str());
                msg.append(GIVEN_TWICE_TAIL);
                msg
            },
            ConfigError::Board(e) => e.message(),
        }
    }
}

impl RavedudeConfig {
    /// The configuration that the command line alone gives. It has no
    /// board description; the board that the command line names stands in
    /// the general section. A baud rate of zero is refused.
    pub fn from_args(args: &Args) -> (r: Result<RavedudeConfig, ConfigError>)
        ensures
            match r {
                Ok(config) => args.baudrate != Some(0u32) && config@ == (RavedudeConfigView {
                    general_options: GeneralConfigView {
                        open_console: args.open_console,
                        serial_baudrate: args.baudrate,
                        port: view_opt_string(args.port),
                        reset_delay: args.reset_delay,
                        board: args.legacy_board(),
                    },
                    board_config: None,
                }),
                Err(e) => args.baudrate == Some(0u32) && e is ZeroBaudrate,
            },
    {
        let serial_baudrate = match args.baudrate {
            Some(serial_baudrate) => match Baudrate::new(serial_baudrate) {
                Some(baudrate) => Some(baudrate),
                None => {
                    return Err(ConfigError::ZeroBaudrate);
                },
            },
            None => None,
        };
        Ok(
            RavedudeConfig {
                general_options: RavedudeGeneralConfig {
                    open_console: args.open_console,
                    serial_baudrate,
                    port: clone_opt_string(&args.port),
                    reset_delay: args.reset_delay,
                    board: args.legacy_board_name(),
                },
                board_config: None,
            },
        )
    }
}

impl RavedudeGeneralConfig {
    /// Lays what the command line sets over this section: the command line
    /// wins over the configuration file. A baud rate of zero is refused;
    /// the section has then taken the request for a console and nothing
    /// else.
    pub fn apply_overrides_from(&mut self, args: &Args) -> (r: Result<(), ConfigError>)
        ensures
            match r {
                Ok(_) => args.baudrate != Some(0u32) && final(self)@ == old(self)@.overridden_by(
                    *args,
                ),
                Err(e) => args.baudrate == Some(0u32) && e is ZeroBaudrate && final(self)@ == (
                GeneralConfigView {
                    open_console: old(self)@.open_console || args.open_console,
                    ..old(self)@
                }),
            },
    {
        if args.open_console {
            self.open_console = true;
        }
        if let Some(serial_baudrate) = args.baudrate {
            match Baudrate::new(serial_baudrate) {
                Some(baudrate) => {
                    self.serial_baudrate = Some(baudrate);
                },
                None => {
                    return Err(ConfigError::ZeroBaudrate);
                },
            }
        }
        if let Some(port) = &args.port {
            self.port = Some(port.clone());
        }
        if let Some(reset_delay) = args.reset_delay {
            self.reset_delay = Some(reset_delay);
        }
        Ok(())
    }
}

/// The configuration that consists of the catalog's board `board_name` and
/// nothing else.
pub fn get_config_from_board_name(board_name: &str) -> (r: Result<RavedudeConfig, BoardNotFound>)
    ensures
        match r {
            Ok(config) => config@ == (RavedudeConfigView {
                general_options: GeneralConfigView::empty(),
                board_config: catalog_board(board_name@),
            }) && config@.board_config is Some,
            Err(e) => {
                &&& catalog_board(board_name@) is None
                &&& e.board@ == board_name@
                &&& strings_view(e.valid_boards@) == catalog_ids()
            },
        },
{
    match get_board_from_name(board_name) {
        Ok(board) => Ok(
            RavedudeConfig {
                general_options: RavedudeGeneralConfig::default(),
                board_config: Some(board),
            },
        ),
        Err(e) => Err(e),
    }
}

/// `r` is the refusal of the board `name`, which the catalog does not have.
pub open spec fn is_unknown_board(r: Result<RavedudeConfig, ConfigError>, name: Seq<char>) -> bool {
    match r {
        Err(ConfigError::Board(e)) => e.board@ == name && strings_view(e.valid_boards@)
            == catalog_ids(),
        _ => false,
    }
}

/// `r` is the configuration with the general section `general` and the
/// board `board`.
pub open spec fn is_config(
    r: Result<RavedudeConfig, ConfigError>,
    general: GeneralConfigView,
    board: Option<BoardConfigView>,
) -> bool {
    match r {
        Ok(config) => config@ == (RavedudeConfigView {
            general_options: general,
            board_config: board,
        }),
        _ => false,
    }
}

/// `r` is what the configuration file `parsed` comes to. A file that
/// describes a board may not name one in its general section as well; the
/// board it describes is laid over the catalog's board that it inherits
/// from, if it names one. A file that only names a board gets the
/// catalog's. Any other file stays as it is.
pub open spec fn is_manifest_config(parsed: RavedudeConfigView, r: Result<RavedudeConfig, ConfigError>) -> bool {
    match parsed.board_config {
        Some(own) => match parsed.general_options.board {
            Some(name) => match r {
                Err(ConfigError::BoardGivenTwice(n)) => n@ == name,
                _ => false,
            },
            None => match own.inherit {
                Some(base_name) => match catalog_board(base_name) {
                    Some(base) => is_config(r, parsed.general_options, Some(own.merge(base))),
                    None => is_unknown_board(r, base_name),
                },
                None => is_config(r, parsed.general_options, Some(own)),
            },
        },
        None => match parsed.general_options.board {
            Some(name) => match catalog_board(name) {
                Some(board) => is_config(r, parsed.general_options, Some(board)),
                None => is_unknown_board(r, name),
            },
            None => is_config(r, parsed.general_options, None),
        },
    }
}

/// Completes the configuration that was read from a configuration file,
/// as [`is_manifest_config`] says.
pub fn get_config_from_manifest(parsed: RavedudeConfig) -> (r: Result<RavedudeConfig, ConfigError>)
    ensures
        is_manifest_config(parsed@, r),
{
    let RavedudeConfig { general_options, board_config } = parsed;
    match board_config {
        Some(own) => {
            if let Some(board_name) = &general_options.board {
                return Err(ConfigError::BoardGivenTwice(board_name.clone()));
            }
            let base = match &own.inherit {
                Some(inherit) => match get_board_from_name(inherit.as_str()) {
                    Ok(base) => Some(base),
                    Err(e) => {
                        return Err(ConfigError::Board(e));
                    },
                },
                None => None,
            };
            match base {
                Some(base) => Ok(
                    RavedudeConfig { general_options, board_config: Some(own.merge(base)) },
                ),
                None => Ok(RavedudeConfig { general_options, board_config: Some(own) }),
            }
        },
        None => {
            let base = match &general_options.board {
                Some(board_name) => match get_board_from_name(board_name.as_str()) {
                    Ok(base) => Some(base),
                    Err(e) => {
                        return Err(ConfigError::Board(e));
                    },
                },
                None => None,
            };
            Ok(RavedudeConfig { general_options, board_config: base })
        },
    }
}

/// A port of the command line replaces the port of the configuration
/// file, and a port of the file stays where the command line gives none.
pub proof fn lemma_command_line_port_wins(general: GeneralConfigView, args: Args)
    ensures
        args.port is Some ==> general.overridden_by(args).port == view_opt_string(args.port),
        args.port is None ==> general.overridden_by(args).port == general.port,
{
}

} // verus!
