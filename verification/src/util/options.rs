//! The options of the commands: the programmer's, a board's, and those of
//! the console that is attached after flashing.

use crate::avrdude::{
    clone_opt_string, prefer, view_opt_baud, view_opt_string, AvrdudeOptionsView, Baudrate,
    BoardAvrdudeOptions,
};
use crate::board::config::{
    is_first_match, is_guess_among, is_port, lemma_guess_without_ids_ignores_ports,
    lemma_search_has_an_outcome, no_match, port_matches, port_message, searches_ports, BoardConfig,
    BoardConfigView, DetectedPort, PortError,
};
use crate::board::{
    catalog_board, catalog_ids, get_board_from_name, not_found_message, strings_view,
    BoardNotFound,
};
use crate::util::avr_libc::{device_name_from_binary, device_name_of_binary, DeviceInfoError};
use vstd::prelude::*;
use vstd::string::StringExecFns;

verus! {

/// How the flashing tool reaches the chip. Every field may be absent.
#[derive(Debug)]
pub struct ProgrammerOptions {
    /// The name of the programmer, as the flashing tool knows it.
    pub name: Option<String>,
    /// The path of the serial device that leads to the programmer.
    pub port: Option<String>,
    /// The baud rate of the connection to the programmer.
    pub baudrate: Option<Baudrate>,
    /// Whether the chip is erased before it is flashed.
    pub erase_chip: Option<bool>,
}

/// The mathematical content of a [`ProgrammerOptions`].
pub struct ProgrammerOptionsView {
    pub name: Option<Seq<char>>,
    pub port: Option<Seq<char>>,
    pub baudrate: Option<u32>,
    pub erase_chip: Option<bool>,
}

impl View for ProgrammerOptions {
    type V = ProgrammerOptionsView;

    open spec fn view(&self) -> ProgrammerOptionsView {
        ProgrammerOptionsView {
            name: view_opt_string(self.name),
            port: view_opt_string(self.port),
            baudrate: view_opt_baud(self.baudrate),
            erase_chip: self.erase_chip,
        }
    }
}

/// How a console is attached to the device.
#[derive(Clone, Copy, Debug, PartialEq, Eq, Structural)]
pub enum AttachProtocol {
    /// No console is attached.
    Off,
    /// A console on a serial port.
    Serial,
}

/// The serial port of the console and its baud rate.
#[derive(Debug)]
pub struct SerialAttachOptions {
    pub port: Option<String>,
    pub baudrate: Option<Baudrate>,
}

/// The mathematical content of a [`SerialAttachOptions`].
pub struct SerialAttachOptionsView {
    pub port: Option<Seq<char>>,
    pub baudrate: Option<u32>,
}

impl View for SerialAttachOptions {
    type V = SerialAttachOptionsView;

    open spec fn view(&self) -> SerialAttachOptionsView {
        SerialAttachOptionsView {
            port: view_opt_string(self.port),
            baudrate: view_opt_baud(self.baudrate),
        }
    }
}

/// Whether and how a console is attached to the device.
#[derive(Debug)]
pub struct AttachOptions {
    pub protocol: AttachProtocol,
    pub serial_opts: SerialAttachOptions,
}

/// The mathematical content of an [`AttachOptions`].
pub struct AttachOptionsView {
    pub protocol: AttachProtocol,
    pub serial_opts: SerialAttachOptionsView,
}

impl AttachOptionsView {
    /// These options with what they leave open taken from `other`. The
    /// protocol stays; a port or baud rate that is present stays too.
    pub open spec fn merge(self, other: AttachOptionsView) -> AttachOptionsView {
        AttachOptionsView {
            protocol: self.protocol,
            serial_opts: SerialAttachOptionsView {
                port: prefer(self.serial_opts.port, other.serial_opts.port),
                baudrate: prefer(self.serial_opts.baudrate, other.serial_opts.baudrate),
            },
        }
    }
}

impl View for AttachOptions {
    type V = AttachOptionsView;

    open spec fn view(&self) -> AttachOptionsView {
        AttachOptionsView { protocol: self.protocol, serial_opts: self.serial_opts@ }
    }
}

/// Fills `left` from `right` where `left` is absent, by the `merge` crate's
/// `Merge::merge` for `Option`: a present `left` stays as it is.
#[verifier::external_body]
fn merge_option<T>(left: &mut Option<T>, right: Option<T>)
    ensures
        *final(left) == prefer(*old(left), right),
{
    merge::Merge::merge(left, right)
}

impl AttachOptions {
    /// Merges `other` into these options, as [`AttachOptionsView::merge`]
    /// says: what is set here wins.
    pub fn merge(&mut self, other: AttachOptions)
        ensures
            final(self)@ == old(self)@.merge(other@),
    {
        merge_option(&mut self.serial_opts.port, other.serial_opts.port);
        merge_option(&mut self.serial_opts.baudrate, other.serial_opts.baudrate);
    }
}

/// The flashing options that `programmer` gives for the chip `chip`.
pub open spec fn avrdude_options_for(programmer: ProgrammerOptionsView, chip: Seq<char>) -> AvrdudeOptionsView {
    AvrdudeOptionsView {
        programmer: programmer.name,
        partno: Some(chip),
        baudrate: Some(programmer.baudrate),
        do_chip_erase: programmer.erase_chip,
    }
}

impl ProgrammerOptions {
    /// The flashing options and the port for a chip of the name `chip`.
    pub fn avrdude_options_for_chip(&self, chip: String) -> (r: (BoardAvrdudeOptions, Option<String>))
        ensures
            r.0@ == avrdude_options_for(self@, chip@),
            view_opt_string(r.1) == self@.port,
    {
        let avrdude_opts = BoardAvrdudeOptions {
            programmer: clone_opt_string(&self.name),
            partno: Some(chip),
            baudrate: Some(self.baudrate),
            do_chip_erase: self.erase_chip,
        };
        (avrdude_opts, clone_opt_string(&self.port))
    }

    /// The flashing options and the port for the compiled binary `binary`,
    /// given as the bytes of the object file. The part number is the device
    /// name that the binary carries; without it there are no options.
    pub fn into_avrdude_options(&self, binary: &[u8]) -> (r: Result<
        (BoardAvrdudeOptions, Option<String>),
        DeviceInfoError,
    >)
        ensures
            match device_name_of_binary(binary@) {
                Ok(chip) => r matches Ok(opts) && opts.0@ == avrdude_options_for(self@, chip)
                    && view_opt_string(opts.1) == self@.port,
                Err(e) => r == Err::<(BoardAvrdudeOptions, Option<String>), DeviceInfoError>(e),
            },
    {
        match device_name_from_binary(binary) {
            Ok(chip) => Ok(self.avrdude_options_for_chip(chip)),
            Err(e) => Err(e),
        }
    }

    /// The options of a serial console on the programmer's port, at its
    /// baud rate.
    pub fn into_attach_options(&self) -> (r: AttachOptions)
        ensures
            r@ == (AttachOptionsView {
                protocol: AttachProtocol::Serial,
                serial_opts: SerialAttachOptionsView {
                    port: self@.port,
                    baudrate: self@.baudrate,
                },
            }),
    {
        AttachOptions {
            protocol: AttachProtocol::Serial,
            serial_opts: SerialAttachOptions {
                port: clone_opt_string(&self.port),
                baudrate: self.baudrate,
            },
        }
    }
}

/// The board to flash, with what the command line says of the programmer.
#[derive(Debug)]
pub struct BoardOptions {
    /// The identifier of the board.
    pub board: String,
    pub programmer_opts: ProgrammerOptions,
}

/// Why the programmer options of a board could not be resolved.
#[derive(Debug)]
pub enum OptionsError {
    /// The catalog has no such board.
    Board(BoardNotFound),
    /// The board's description has no flashing options.
    MissingAvrdude,
    /// No port was given and none could be chosen.
    Port(PortError),
}

/// The baud rate that flashing options give: none where they are silent or
/// say that there is none.
pub open spec fn flat_baudrate(baudrate: Option<Option<u32>>) -> Option<u32> {
    match baudrate {
        Some(b) => b,
        None => None,
    }
}

/// The programmer options for a board with the flashing options `board`,
/// where the command line gives `given` and the port is `port`. What the
/// command line gives wins over what the board gives.
pub open spec fn resolved_options(
    given: ProgrammerOptionsView,
    board: AvrdudeOptionsView,
    port: Option<Seq<char>>,
) -> ProgrammerOptionsView {
    ProgrammerOptionsView {
        name: prefer(given.name, board.programmer),
        port,
        baudrate: prefer(given.baudrate, flat_baudrate(board.baudrate)),
        erase_chip: prefer(given.erase_chip, board.do_chip_erase),
    }
}

/// `r` is the resolution of the options `given` for a board with the
/// flashing options `avrdude`, where the search for the board's port came
/// out as `guess`. A port that is given wins, whatever the search found;
/// else the port that was found is taken; where the search could say
/// nothing the port stays open, and where it failed so does the resolution.
pub open spec fn is_resolution(
    given: ProgrammerOptionsView,
    avrdude: Option<AvrdudeOptionsView>,
    guess: Option<Result<String, PortError>>,
    r: Result<ProgrammerOptions, OptionsError>,
) -> bool {
    match avrdude {
        None => r matches Err(OptionsError::MissingAvrdude),
        Some(board) => if given.port is Some {
            r matches Ok(o) && o@ == resolved_options(given, board, given.port)
        } else {
            match guess {
                None => r matches Ok(o) && o@ == resolved_options(given, board, None),
                Some(Ok(found)) => r matches Ok(o) && o@ == resolved_options(
                    given,
                    board,
                    Some(found@),
                ),
                Some(Err(e)) => r matches Err(OptionsError::Port(err)) && err == e,
            }
        },
    }
}

/// `r` is the resolution of the options `given` for the board `board` when
/// the host shows `ports`.
pub open spec fn is_resolution_among(
    given: ProgrammerOptionsView,
    board: BoardConfigView,
    ports: Seq<DetectedPort>,
    r: Result<ProgrammerOptions, OptionsError>,
) -> bool {
    exists|guess: Option<Result<String, PortError>>|
        is_guess_among(board.usb_info, ports, guess) && #[trigger] is_resolution(
            given,
            board.avrdude,
            guess,
            r,
        )
}

impl BoardOptions {
    /// Resolves the programmer options from the command line's, the board's
    /// flashing options and the outcome of the search for the board's port.
    pub fn resolve(
        given: ProgrammerOptions,
        avrdude: Option<BoardAvrdudeOptions>,
        guess: Option<Result<String, PortError>>,
    ) -> (r: Result<ProgrammerOptions, OptionsError>)
        ensures
            is_resolution(
                given@,
                match avrdude {
                    Some(a) => Some(a@),
                    None => None,
                },
                guess,
                r,
            ),
    {
        let board = match avrdude {
            Some(board) => board,
            None => {
                return Err(OptionsError::MissingAvrdude);
            },
        };
        let port = match given.port {
            Some(port) => Some(port),
            None => match guess {
                Some(Ok(found)) => Some(found),
                Some(Err(e)) => {
                    return Err(OptionsError::Port(e));
                },
                None => None,
            },
        };
        Ok(
            ProgrammerOptions {
                name: match given.name {
                    Some(name) => Some(name),
                    None => board.programmer,
                },
                port,
                baudrate: match given.baudrate {
                    Some(baudrate) => Some(baudrate),
                    None => match board.baudrate {
                        Some(baudrate) => baudrate,
                        None => None,
                    },
                },
                erase_chip: match given.erase_chip {
                    Some(erase) => Some(erase),
                    None => board.do_chip_erase,
                },
            },
        )
    }

    /// Resolves the programmer options for the board `board`, searching
    /// `ports` for the board's port where the command line gives none.
    pub fn resolve_among(self, board: BoardConfig, ports: &Vec<DetectedPort>) -> (r: Result<
        ProgrammerOptions,
        OptionsError,
    >)
        ensures
            is_resolution_among(self.programmer_opts@, board@, ports@, r),
    {
        let guess = board.guess_port(ports);
        let ghost outcome = guess;
        let r = Self::resolve(self.programmer_opts, board.avrdude, guess);
        assert(is_resolution(self.programmer_opts@, board@.avrdude, outcome, r));
        r
    }

    /// Whether the resolution of these options looks at the host's serial
    /// ports at all: it does where the command line gives no port and the
    /// catalog's board has flashing options and names USB ids. Where it
    /// does not, any list of ports gives the same resolution.
    pub fn needs_port_search(&self) -> (r: bool)
        ensures
            r == resolution_searches(self.programmer_opts@, catalog_board(self.board@)),
    {
        if self.programmer_opts.port.is_some() {
            return false;
        }
        match get_board_from_name(self.board.as_str()) {
            Ok(board) => board.avrdude.is_some() && board.needs_port_search(),
            Err(_) => false,
        }
    }

    /// Resolves the programmer options for the board of the catalog that
    /// these options name, where the host shows the serial ports `ports`,
    /// in that order. An unknown board is refused with the catalog's
    /// identifiers; a known one is resolved as [`is_resolution_among`]
    /// says.
    pub fn into_programmer_options(self, ports: &Vec<DetectedPort>) -> (r: Result<
        ProgrammerOptions,
        OptionsError,
    >)
        ensures
            match catalog_board(self.board@) {
                None => r matches Err(OptionsError::Board(e)) && e.board@ == self.board@
                    && strings_view(e.valid_boards@) == catalog_ids(),
                Some(board) => is_resolution_among(self.programmer_opts@, board, ports@, r),
            },
    {
        match get_board_from_name(self.board.as_str()) {
            Ok(board) => self.resolve_among(board, ports),
            Err(e) => Err(OptionsError::Board(e)),
        }
    }
}

/// Whether the resolution of the options `given` for the catalog's board
/// `board` looks at the host's serial ports.
pub open spec fn resolution_searches(given: ProgrammerOptionsView, board: Option<BoardConfigView>) -> bool {
    &&& given.port is None
    &&& board matches Some(b) && b.avrdude is Some && searches_ports(b.usb_info)
}

/// Where the resolution does not look at the host's ports, it comes out
/// the same whatever ports the host shows.
pub proof fn lemma_resolution_without_search_ignores_ports(
    given: ProgrammerOptionsView,
    board: BoardConfigView,
    ports: Seq<DetectedPort>,
    others: Seq<DetectedPort>,
    r: Result<ProgrammerOptions, OptionsError>,
)
    requires
        !resolution_searches(given, Some(board)),
        is_resolution_among(given, board, ports, r),
    ensures
        is_resolution_among(given, board, others, r),
{
    let guess = choose|guess: Option<Result<String, PortError>>|
        is_guess_among(board.usb_info, ports, guess) && #[trigger] is_resolution(
            given,
            board.avrdude,
            guess,
            r,
        );
    if searches_ports(board.usb_info) {
        lemma_search_has_an_outcome(board.usb_info->0->PortIds_0, others);
        let other = choose|other: Option<Result<String, PortError>>|
            is_guess_among(board.usb_info, others, other);
        assert(is_resolution(given, board.avrdude, other, r));
    } else {
        lemma_guess_without_ids_ignores_ports(board.usb_info, ports, others, guess);
        assert(is_resolution(given, board.avrdude, guess, r));
    }
}

/// What the resolution comes to for each outcome of the search, where the
/// command line gives no port and the board has flashing options: a found
/// port is the port, a search that could say nothing leaves the port open,
/// and a failed search fails the resolution.
pub proof fn lemma_resolution_follows_the_search(
    given: ProgrammerOptionsView,
    board: BoardConfigView,
    ports: Seq<DetectedPort>,
    r: Result<ProgrammerOptions, OptionsError>,
)
    requires
        given.port is None,
        board.avrdude is Some,
        is_resolution_among(given, board, ports, r),
    ensures
        board.usb_info is None ==> r is Ok && r->Ok_0@.port is None,
        board.usb_info is Some && !searches_ports(board.usb_info) ==> r is Err,
        searches_ports(board.usb_info) && no_match(board.usb_info->0->PortIds_0, ports) ==> r is Err,
        searches_ports(board.usb_info) && !no_match(board.usb_info->0->PortIds_0, ports) ==> r is Ok
            && r->Ok_0@.port is Some,
        forall|i: int|
            searches_ports(board.usb_info) && #[trigger] is_first_match(
                board.usb_info->0->PortIds_0,
                ports,
                i,
            ) ==> r is Ok && r->Ok_0@.port == Some(ports[i].port_name@),
{
    let guess = choose|guess: Option<Result<String, PortError>>|
        is_guess_among(board.usb_info, ports, guess) && #[trigger] is_resolution(
            given,
            board.avrdude,
            guess,
            r,
        );
    if searches_ports(board.usb_info) {
        let ids = board.usb_info->0->PortIds_0;
        assert forall|i: int| #[trigger] is_first_match(ids, ports, i) implies r is Ok
            && r->Ok_0@.port == Some(ports[i].port_name@) by {
            assert(port_matches(ids, ports[i]));
            let j = choose|j: int| #[trigger]
                is_first_match(ids, ports, j) && is_port(guess, ports[j].port_name@);
            assert(i == j);
        }
    }
}

/// A port that the command line gives is the port of the resolved
/// options, whatever the board says and whatever port the search found.
pub proof fn lemma_given_port_wins(
    given: ProgrammerOptionsView,
    avrdude: AvrdudeOptionsView,
    guess: Option<Result<String, PortError>>,
    r: Result<ProgrammerOptions, OptionsError>,
)
    requires
        given.port is Some,
        is_resolution(given, Some(avrdude), guess, r),
    ensures
        r matches Ok(options) && options@.port == given.port,
{
}

/// Whatever the command line gives of the programmer wins over what the
/// board gives; what it leaves open is the board's.
pub proof fn lemma_given_options_win(
    given: ProgrammerOptionsView,
    board: AvrdudeOptionsView,
    port: Option<Seq<char>>,
)
    ensures
        given.name is Some ==> resolved_options(given, board, port).name == given.name,
        given.baudrate is Some ==> resolved_options(given, board, port).baudrate == given.baudrate,
        given.erase_chip is Some ==> resolved_options(given, board, port).erase_chip
            == given.erase_chip,
        given.name is None ==> resolved_options(given, board, port).name == board.programmer,
        given.baudrate is None ==> resolved_options(given, board, port).baudrate == flat_baudrate(
            board.baudrate,
        ),
        given.erase_chip is None ==> resolved_options(given, board, port).erase_chip
            == board.do_chip_erase,
{
}

/// What is said of a board without flashing options.
pub const MISSING_AVRDUDE: &'static str = "board has no avrdude options";

/// The words for a failed resolution of the programmer options.
pub open spec fn options_message(e: OptionsError) -> Seq<char> {
    match e {
        OptionsError::Board(e) => not_found_message(e.board@, strings_view(e.valid_boards@)),
        OptionsError::MissingAvrdude => MISSING_AVRDUDE@,
        OptionsError::Port(e) => port_message(e),
    }
}

impl OptionsError {
    /// The error in words.
    pub fn message(&self) -> (r: String)
        ensures
            r@ == options_message(*self),
    {
        match self {
            OptionsError::Board(e) => e.message(),
            OptionsError::MissingAvrdude => String::from_str(MISSING_AVRDUDE),
            OptionsError::Port(e) => e.message(),
        }
    }
}

} // verus!
