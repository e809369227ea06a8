//! The 2-bit branch conditions tested by conditional jumps, calls and
//! returns.

use vstd::prelude::*;

use crate::emulator::Emulator;

verus! {

/// A branch condition over the Z and CY flags.
#[derive(Clone, Copy, Debug, Eq, Hash, PartialEq, Structural)]
pub enum Condition {
    /// Taken when CY is set.
    C,
    /// Taken when CY is clear.
    Nc,
    /// Taken when Z is clear.
    Nz,
    /// Taken when Z is set.
    Z,
}

impl Condition {
    /// Whether the condition holds of the given flag state.
    pub open spec fn spec_holds(self, emulator: Emulator) -> bool {
        match self {
            Condition::C => emulator.flag_cy,
            Condition::Nc => !emulator.flag_cy,
            Condition::Nz => !emulator.flag_z,
            Condition::Z => emulator.flag_z,
        }
    }

    /// Tests the condition against the CPU's flags.
    pub fn check(&self, emulator: &Emulator) -> (r: bool)
        ensures
            r == self.spec_holds(*emulator),
    {
        match self {
            Condition::C => emulator.flag(crate::flag::Flag::CY),
            Condition::Nc => !emulator.flag(crate::flag::Flag::CY),
            Condition::Nz => !emulator.flag(crate::flag::Flag::Z),
            Condition::Z => emulator.flag(crate::flag::Flag::Z),
        }
    }
}

/// The condition denoted by a 2-bit opcode field code.
pub open spec fn spec_condition_from_code(code: u8) -> Option<Condition> {
    match code {
        0b00u8 => Some(Condition::Nz),
        0b01u8 => Some(Condition::Z),
        0b10u8 => Some(Condition::Nc),
        0b11u8 => Some(Condition::C),
        _ => None,
    }
}

/// Decodes a 2-bit condition field code.
pub fn condition_from_code(code: u8) -> (r: Option<Condition>)
    ensures
        r == spec_condition_from_code(code),
{
    match code {
        0b00u8 => Some(Condition::Nz),
        0b01u8 => Some(Condition::Z),
        0b10u8 => Some(Condition::Nc),
        0b11u8 => Some(Condition::C),
        _ => None,
    }
}

} // verus!
