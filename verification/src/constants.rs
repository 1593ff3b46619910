use vstd::prelude::*;

verus! {

/// The byte that identifies a command frame sent to the sensor.
pub const COMMAND_ID: u8 = 0xB4;

/// The byte that identifies a data report frame received from the sensor.
/// The sensor sends it in active reporting mode, and sometimes as a reply to a command.
pub const DATA_REPORT_ID: u8 = 0xC0;

/// The byte that identifies a reply frame the sensor sends in response to a command.
pub const REPLY_ID: u8 = 0xC5;

/// The byte that marks the beginning of any frame (command or data).
pub const HEAD: u8 = 0xAA;

/// The byte that marks the end of any frame (command or data).
pub const TAIL: u8 = 0xAB;

} // verus!
