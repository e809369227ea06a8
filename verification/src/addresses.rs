//! Well-known addresses of the memory map.

use vstd::prelude::*;

verus! {

/// The program counter at power-on.
pub const PROGRAM_COUNTER_START: u16 = 0x0100;

/// The base of the port/register area used by the high-RAM addressing mode:
/// `LDH` forms an address `0xFF00 + k`.
pub const PORT_REGISTER_START: u16 = 0xff00;

} // verus!
