//! Flashing a binary and attaching a console in one command.

pub mod board;
pub mod chip;
