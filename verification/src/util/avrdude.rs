//! The request that is made of the flashing tool.

use crate::avrdude::{view_opt_string, AvrdudeOptionsView, BoardAvrdudeOptions};
use crate::util::avr_libc::{device_name_of_binary, DeviceInfoError};
use crate::util::options::{avrdude_options_for, ProgrammerOptions};
use vstd::prelude::*;

verus! {

/// One run of the flashing tool: its options, the port if there is one, and
/// whether the tool's command line is shown.
#[derive(Debug)]
pub struct FlashRequest {
    pub options: BoardAvrdudeOptions,
    pub port: Option<String>,
    pub show_command: bool,
}

/// The mathematical content of a [`FlashRequest`].
pub struct FlashRequestView {
    pub options: AvrdudeOptionsView,
    pub port: Option<Seq<char>>,
    pub show_command: bool,
}

impl View for FlashRequest {
    type V = FlashRequestView;

    open spec fn view(&self) -> FlashRequestView {
        FlashRequestView {
            options: self.options@,
            port: view_opt_string(self.port),
            show_command: self.show_command,
        }
    }
}

/// The view of a result of a flash request.
pub open spec fn view_flash_result(r: Result<FlashRequest, DeviceInfoError>) -> Result<
    FlashRequestView,
    DeviceInfoError,
> {
    match r {
        Ok(request) => Ok(request@),
        Err(e) => Err(e),
    }
}

/// The request that flashes a binary with the device name `chip` by the
/// programmer `programmer`, or the failure to name the device.
pub open spec fn flash_request_for(
    programmer: crate::util::options::ProgrammerOptionsView,
    chip: Result<Seq<char>, DeviceInfoError>,
) -> Result<FlashRequestView, DeviceInfoError> {
    match chip {
        Ok(chip) => Ok(
            FlashRequestView {
                options: avrdude_options_for(programmer, chip),
                port: programmer.port,
                show_command: true,
            },
        ),
        Err(e) => Err(e),
    }
}

/// Prepares the flashing of the compiled binary `artifact`, given as the
/// bytes of the object file, by the programmer `programmer_opts`. The
/// binary's device name becomes the part number; a binary without one is
/// not flashed. The tool's command line is always shown.
pub fn flash_binary(programmer_opts: &ProgrammerOptions, artifact: &[u8]) -> (r: Result<
    FlashRequest,
    DeviceInfoError,
>)
    ensures
        view_flash_result(r) == flash_request_for(programmer_opts@, device_name_of_binary(artifact@)),
{
    match programmer_opts.into_avrdude_options(artifact) {
        Ok(resolved) => {
            let (options, port) = resolved;
            Ok(FlashRequest { options, port, show_command: true })
        },
        Err(e) => Err(e),
    }
}

} // verus!
