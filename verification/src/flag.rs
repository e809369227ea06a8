//! The four condition flags held in the F register.

use vstd::prelude::*;

verus! {

/// The four flags of the packed flag byte, laid out `Z N H CY 0 0 0 0`
/// (bits 7 down to 4; the low nibble of F always reads back as zero).
#[derive(Clone, Copy, Debug, Eq, Hash, PartialEq, Structural)]
pub enum Flag {
    /// Zero: the last result was zero.
    Z,
    /// Subtract: the last arithmetic operation was a subtraction.
    N,
    /// Half-carry: carry out of bit 3 of the last 8-bit operation.
    H,
    /// Carry: carry out of bit 7 of the last 8-bit operation.
    CY,
}

/// The bit each flag occupies within the packed flag byte.
pub open spec fn spec_flag_mask(flag: Flag) -> u8 {
    match flag {
        Flag::Z => 0x80,
        Flag::N => 0x40,
        Flag::H => 0x20,
        Flag::CY => 0x10,
    }
}

impl Flag {
    /// The bit this flag occupies within the packed flag byte.
    pub fn mask(&self) -> (r: u8)
        ensures
            r == spec_flag_mask(*self),
    {
        match self {
            Flag::Z => 0x80,
            Flag::N => 0x40,
            Flag::H => 0x20,
            Flag::CY => 0x10,
        }
    }
}

} // verus!
