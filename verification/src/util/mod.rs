//! What the commands share: device metadata, options, and the requests made
//! of the flashing tool and the console.

pub mod avr_libc;
pub mod options;
pub mod avrdude;
pub mod console;
