//! The instruction set: ~90 instruction definitions grouped into
//! arithmetic, bit, call, general, jump, loading, logical and rotating
//! families. Each instruction is a function from the CPU state and the
//! fetched opcode byte to a result, with a contract that pins the whole
//! state after the call; the `Instruction` record carries its name, its
//! bit-pattern template and its CB-prefix flag.

pub mod arithmetic_instructions;
pub mod bit_instructions;
pub mod call_instructions;
pub mod general_instructions;
pub mod jump_instructions;
pub mod loading_instructions;
pub mod logical_instructions;
pub mod rotating_instructions;

use vstd::prelude::*;

use crate::memory_component::MemoryError;
use crate::opcode::OpcodeError;

verus! {

/// An error surfaced while executing an instruction.
#[derive(Clone, Debug)]
pub enum OpError {
    /// A reserved condition code in a condition field.
    ConditionParse(u8),
    /// A bus access failed.
    Memory(MemoryError),
    /// An out-of-range restart page code.
    PageParse(u8),
    /// The reserved register code 0b110 in a register field.
    RegisterParse(u8),
    /// A reserved register pair code.
    RegisterPairParse(u8),
    /// The opcode byte has no entry in the selected dispatch table; the
    /// flag says which table was consulted.
    Unimplemented(bool, u8),
}

/// The result of one instruction body or of one dispatch step.
pub type OpResult = Result<(), OpError>;

/// The instruction error corresponding to a field-extraction error.
pub open spec fn spec_op_error(e: OpcodeError) -> OpError {
    match e {
        OpcodeError::ConditionParse(argument) => OpError::ConditionParse(argument),
        OpcodeError::PageParse(argument) => OpError::PageParse(argument),
        OpcodeError::RegisterPairParse(argument) => OpError::RegisterPairParse(argument),
        OpcodeError::RegisterParse(argument) => OpError::RegisterParse(argument),
    }
}

/// Converts a field-extraction error into an instruction error.
pub fn op_error(e: OpcodeError) -> (r: OpError)
    ensures
        r == spec_op_error(e),
{
    match e {
        OpcodeError::ConditionParse(argument) => OpError::ConditionParse(argument),
        OpcodeError::PageParse(argument) => OpError::PageParse(argument),
        OpcodeError::RegisterPairParse(argument) => OpError::RegisterPairParse(argument),
        OpcodeError::RegisterParse(argument) => OpError::RegisterParse(argument),
    }
}

/// An immutable description of one instruction: its human-readable name,
/// its bit-pattern template, and whether it lives in the CB-prefixed table.
/// The template's field letters expand to the concrete opcode bytes the
/// instruction occupies.
pub struct Instruction {
    /// The human-readable name, e.g. "ADD A, r".
    pub name: &'static str,
    /// The bit-pattern template, e.g. "10 000 rrr".
    pub pattern: &'static str,
    /// Whether the opcode byte is decoded through the CB-prefixed table.
    pub requires_prefix: bool,
}

} // verus!
