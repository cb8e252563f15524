//! Remote control of a two-motor differential-drive robot over a serial link.
//!
//! The operator side turns key presses into one-byte commands and reassembles
//! the two-byte telemetry frames that the robot sends back; the robot side
//! decodes each command byte and drives its pair of motors. Everything in this
//! crate is pure state and arithmetic: the serial port, the terminal, the clock
//! and the motor pins are driven by the program around it.

use vstd::prelude::*;

pub mod command;
pub mod dispatcher;
pub mod motor;
pub mod receiver;
pub mod slot;
pub mod telemetry;

verus! {

/// Baud rate of the serial line between operator and robot.
pub const BAUD_RATE: u32 = 115_200;

/// The longest that one read from the serial line may block on the
/// operator side, in milliseconds.
pub const READ_TIMEOUT_MS: u64 = 500;

} // verus!
