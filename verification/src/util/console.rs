//! The request that is made of the serial console.

use crate::util::options::{SerialAttachOptions, SerialAttachOptionsView};
use vstd::prelude::*;
use vstd::string::StringExecFns;

verus! {

/// One session of the serial console: the port it opens and the baud rate,
/// which is not zero.
#[derive(Debug)]
pub struct ConsoleRequest {
    pub port: String,
    pub baudrate: u32,
}

/// What a console cannot be opened without.
#[derive(Clone, Copy, Debug, PartialEq, Eq, Structural)]
pub enum AttachError {
    /// No serial port is known.
    PortRequired,
    /// No baud rate is known.
    BaudrateRequired,
}

/// What is said where no serial port is known.
pub const PORT_REQUIRED: &'static str =
    "Serial port is required; specify it with `--serial-port` or `CARGO_AVR_SERIAL_PORT`";

/// What is said where no baud rate is known.
pub const BAUDRATE_REQUIRED: &'static str =
    "Serial baudrate is required; specify it with `--serial-baudrate` or `CARGO_AVR_SERIAL_BAUDRATE`";

impl AttachError {
    /// The error in words.
    pub fn message(&self) -> (r: String)
        ensures
            r@ == match *self {
                AttachError::PortRequired => PORT_REQUIRED@,
                AttachError::BaudrateRequired => BAUDRATE_REQUIRED@,
            },
    {
        match self {
            AttachError::PortRequired => String::from_str(PORT_REQUIRED),
            AttachError::BaudrateRequired => String::from_str(BAUDRATE_REQUIRED),
        }
    }
}

/// The console session that `opts` ask for: the port is needed first, then
/// the baud rate.
pub open spec fn console_request_for(opts: SerialAttachOptionsView) -> Result<
    (Seq<char>, u32),
    AttachError,
> {
    match opts.port {
        None => Err(AttachError::PortRequired),
        Some(port) => match opts.baudrate {
            None => Err(AttachError::BaudrateRequired),
            Some(baudrate) => Ok((port, baudrate)),
        },
    }
}

/// Prepares a console session on the port and at the baud rate of `opts`.
/// Both are required; a missing port is reported before a missing baud
/// rate.
pub fn attach_console(opts: &SerialAttachOptions) -> (r: Result<ConsoleRequest, AttachError>)
    ensures
        match r {
            Ok(request) => console_request_for(opts@) == Ok::<(Seq<char>, u32), AttachError>(
                (request.port@, request.baudrate),
            ) && request.baudrate != 0,
            Err(e) => console_request_for(opts@) == Err::<(Seq<char>, u32), AttachError>(e),
        },
{
    let port = match &opts.port {
        Some(port) => port,
        None => {
            return Err(AttachError::PortRequired);
        },
    };
    let baudrate = match &opts.baudrate {
        Some(baudrate) => baudrate.get(),
        None => {
            return Err(AttachError::BaudrateRequired);
        },
    };
    Ok(ConsoleRequest { port: port.clone(), baudrate })
}

} // verus!
