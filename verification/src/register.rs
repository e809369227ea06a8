//! The CPU's register identifiers and the 16-bit register pairs formed from
//! them, together with the 3-bit and 2-bit opcode field encodings.

use vstd::prelude::*;

verus! {

/// An enumeration containing the various registers within the CPU.
///
/// The flag register F is not listed here: it is held apart from the register
/// file and is only observable through the flag accessors and the AF pair.
#[derive(Clone, Copy, Debug, Eq, Hash, PartialEq, Structural)]
pub enum Register {
    /// The 8-bit A register, also known as the accumulator.
    A,
    /// The 8-bit B register.
    B,
    /// The 8-bit C register.
    C,
    /// The 8-bit D register.
    D,
    /// The 8-bit E register.
    E,
    /// The 8-bit H register.
    H,
    /// The 8-bit L register.
    L,
}

/// The 3-bit opcode field code of each register. Code 0b110 is reserved for
/// the "(HL)" operand and never denotes a register.
pub open spec fn spec_register_code(r: Register) -> u8 {
    match r {
        Register::A => 0b111,
        Register::B => 0b000,
        Register::C => 0b001,
        Register::D => 0b010,
        Register::E => 0b011,
        Register::H => 0b100,
        Register::L => 0b101,
    }
}

/// The register denoted by a 3-bit field code, if any. Code 0b110 is the
/// "(HL)" placeholder and codes above 0b111 cannot occur in a 3-bit field.
pub open spec fn spec_register_from_code(code: u8) -> Option<Register> {
    match code {
        0b000u8 => Some(Register::B),
        0b001u8 => Some(Register::C),
        0b010u8 => Some(Register::D),
        0b011u8 => Some(Register::E),
        0b100u8 => Some(Register::H),
        0b101u8 => Some(Register::L),
        0b111u8 => Some(Register::A),
        _ => None,
    }
}

/// Decodes a 3-bit register field code.
pub fn register_from_code(code: u8) -> (r: Option<Register>)
    ensures
        r == spec_register_from_code(code),
{
    match code {
        0b000u8 => Some(Register::B),
        0b001u8 => Some(Register::C),
        0b010u8 => Some(Register::D),
        0b011u8 => Some(Register::E),
        0b100u8 => Some(Register::H),
        0b101u8 => Some(Register::L),
        0b111u8 => Some(Register::A),
        _ => None,
    }
}

/// An enumeration of all 16-bit registers available by combining two 8-bit
/// registers.
#[derive(Clone, Copy, Debug, Eq, Hash, PartialEq, Structural)]
pub enum RegisterPair {
    /// The 16-bit register created by using the A and F registers.
    Af,
    /// The 16-bit register created by using the B and C registers.
    Bc,
    /// The 16-bit register created by using the D and E registers.
    De,
    /// The 16-bit register created by using the H and L registers.
    Hl,
}

/// The 2-bit opcode field code of each register pair. Code 0b11 denotes AF
/// for PUSH and POP, and the stack pointer everywhere else.
pub open spec fn spec_register_pair_code(rp: RegisterPair) -> u8 {
    match rp {
        RegisterPair::Af => 0b11,
        RegisterPair::Bc => 0b00,
        RegisterPair::De => 0b01,
        RegisterPair::Hl => 0b10,
    }
}

/// The register pair denoted by a 2-bit field code.
pub open spec fn spec_register_pair_from_code(code: u8) -> Option<RegisterPair> {
    match code {
        0b00u8 => Some(RegisterPair::Bc),
        0b01u8 => Some(RegisterPair::De),
        0b10u8 => Some(RegisterPair::Hl),
        0b11u8 => Some(RegisterPair::Af),
        _ => None,
    }
}

/// Decodes a 2-bit register pair field code.
pub fn register_pair_from_code(code: u8) -> (r: Option<RegisterPair>)
    ensures
        r == spec_register_pair_from_code(code),
{
    match code {
        0b00u8 => Some(RegisterPair::Bc),
        0b01u8 => Some(RegisterPair::De),
        0b10u8 => Some(RegisterPair::Hl),
        0b11u8 => Some(RegisterPair::Af),
        _ => None,
    }
}

impl RegisterPair {
    /// The (low, high) registers that make up this pair. The AF pair names
    /// the A register in both slots: its low byte is the flag register,
    /// which is not part of the register file and is handled specially by
    /// every pair access.
    pub fn to_registers(&self) -> (r: (Register, Register))
        ensures
            r == match self {
                RegisterPair::Af => (Register::A, Register::A),
                RegisterPair::Bc => (Register::C, Register::B),
                RegisterPair::De => (Register::E, Register::D),
                RegisterPair::Hl => (Register::L, Register::H),
            },
    {
        match self {
            RegisterPair::Af => (Register::A, Register::A),
            RegisterPair::Bc => (Register::C, Register::B),
            RegisterPair::De => (Register::E, Register::D),
            RegisterPair::Hl => (Register::L, Register::H),
        }
    }
}

} // verus!
