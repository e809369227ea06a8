//! The bit instruction family (CB-prefixed): testing, setting and
//! resetting a single bit of a register or of the (HL) memory operand.

use vstd::prelude::*;

use crate::emulator::{bump_cycles, mem_step, Emulator};
use crate::flag::Flag;
use crate::instruction::{op_error, spec_op_error, OpError, OpResult};
use crate::opcode::{spec_field, spec_parse_register, Opcode};
use crate::register::RegisterPair;

verus! {

/// The byte with exactly the given bit set; zero for an index past bit 7.
pub open spec fn spec_bit_mask(index: usize) -> u8 {
    if index == 0 {
        1
    } else if index == 1 {
        2
    } else if index == 2 {
        4
    } else if index == 3 {
        8
    } else if index == 4 {
        16
    } else if index == 5 {
        32
    } else if index == 6 {
        64
    } else if index == 7 {
        128
    } else {
        0
    }
}

/// Whether the given bit of a value is set.
pub open spec fn spec_bit_set(value: u8, index: usize) -> bool {
    value & spec_bit_mask(index) != 0
}

/// The byte with exactly the given bit set.
fn bit_mask(index: usize) -> (r: u8)
    ensures
        r == spec_bit_mask(index),
{
    if index == 0 {
        1
    } else if index == 1 {
        2
    } else if index == 2 {
        4
    } else if index == 3 {
        8
    } else if index == 4 {
        16
    } else if index == 5 {
        32
    } else if index == 6 {
        64
    } else if index == 7 {
        128
    } else {
        0
    }
}

/// BIT b, (HL)
///
/// Z <- NOT (HL)b
///
/// Copies the complement of the specified bit of the memory specified by
/// register pair HL to the Z flag; H is set, N cleared, CY unchanged.
pub fn bit_complement_of_hl_location(emulator: &mut Emulator, opcode: u8) -> (r: OpResult)
    requires
        old(emulator).wf(),
    ensures
        final(emulator).wf(),
        bit_complement_of_hl_location_rel(*old(emulator), *final(emulator), opcode, r),
{
    let bit_index = opcode.parse_bit(0b00_111_000);

    let value = match emulator.read_hl_location() {
        Ok(value) => value,
        Err(e) => {
            return Err(OpError::Memory(e));
        },
    };

    let bit = value & bit_mask(bit_index) != 0;

    emulator.set_flag(Flag::H, true);
    emulator.set_flag(Flag::N, false);
    emulator.set_flag(Flag::Z, !bit);

    Ok(())
}

/// The exact contract of `bit_complement_of_hl_location`: relates the state after the body to
/// the state before, together with the result.
pub open spec fn bit_complement_of_hl_location_rel(pre: Emulator, post: Emulator, opcode: u8, r: OpResult) -> bool {
    ({
            let location = pre.pair_value(RegisterPair::Hl);
            let index = spec_field(opcode, 0b00_111_000) as usize;
            match pre.memory_mapping.spec_read(location) {
                Ok(value) => r is Ok && post == (Emulator {
                    cycles_processed: bump_cycles(pre.cycles_processed),
                    flag_h: true,
                    flag_n: false,
                    flag_z: !spec_bit_set(value, index),
                    ..pre
                }),
                Err(e) => r == Err::<(), OpError>(OpError::Memory(e)) && post
                    == (Emulator {
                    cycles_processed: bump_cycles(pre.cycles_processed),
                    ..pre
                }),
            }
        })
}

/// BIT b, r
///
/// Z <- NOT rb
///
/// Copies the complement of the specified bit of register r to the Z flag;
/// H is set, N cleared, CY unchanged.
pub fn bit_complement_of_register(emulator: &mut Emulator, opcode: u8) -> (r: OpResult)
    ensures
        bit_complement_of_register_rel(*old(emulator), *final(emulator), opcode, r),
{
    let register = match opcode.parse_register(0b00_000_111) {
        Ok(register) => register,
        Err(e) => {
            return Err(op_error(e));
        },
    };

    let bit_index = opcode.parse_bit(0b00_111_000);

    let bit = emulator.register(&register) & bit_mask(bit_index) != 0;

    emulator.set_flag(Flag::H, true);
    emulator.set_flag(Flag::N, false);
    emulator.set_flag(Flag::Z, !bit);

    Ok(())
}

/// The exact contract of `bit_complement_of_register`: relates the state after the body to
/// the state before, together with the result.
pub open spec fn bit_complement_of_register_rel(pre: Emulator, post: Emulator, opcode: u8, r: OpResult) -> bool {
    match spec_parse_register(opcode, 0b00_000_111) {
            Ok(register) => ({
                let index = spec_field(opcode, 0b00_111_000) as usize;
                r is Ok && post == (Emulator {
                    flag_h: true,
                    flag_n: false,
                    flag_z: !spec_bit_set(pre.reg_val(register), index),
                    ..pre
                })
            }),
            Err(e) => r == Err::<(), OpError>(spec_op_error(e)) && post == pre,
        }
}

/// RES b, (HL)
///
/// (HL)b <- 0
///
/// Resets to 0 the specified bit of the memory specified by register pair
/// HL; no flags change.
pub fn reset_bit_of_hl_location(emulator: &mut Emulator, opcode: u8) -> (r: OpResult)
    requires
        old(emulator).wf(),
    ensures
        final(emulator).wf(),
        reset_bit_of_hl_location_rel(*old(emulator), *final(emulator), opcode, r),
{
    let bit_index = opcode.parse_bit(0b00_111_000);

    let value = match emulator.read_hl_location() {
        Ok(value) => value,
        Err(e) => {
            return Err(OpError::Memory(e));
        },
    };

    let result = value & !bit_mask(bit_index);

    match emulator.write_hl_location(result) {
        Ok(u) => Ok(u),
        Err(e) => Err(OpError::Memory(e)),
    }
}

/// The exact contract of `reset_bit_of_hl_location`: relates the state after the body to
/// the state before, together with the result.
pub open spec fn reset_bit_of_hl_location_rel(pre: Emulator, post: Emulator, opcode: u8, r: OpResult) -> bool {
    ({
            let location = pre.pair_value(RegisterPair::Hl);
            let index = spec_field(opcode, 0b00_111_000) as usize;
            match pre.memory_mapping.spec_read(location) {
                Ok(value) => ({
                    let result = value & !spec_bit_mask(index);
                    &&& mem_step(pre, post, location, result)
                    &&& post == (Emulator {
                        cycles_processed: bump_cycles(bump_cycles(pre.cycles_processed)),
                        memory_mapping: post.memory_mapping,
                        ..pre
                    })
                    &&& r == match pre.memory_mapping.spec_write(location, result) {
                        Ok(u) => Ok::<(), OpError>(u),
                        Err(e) => Err::<(), OpError>(OpError::Memory(e)),
                    }
                }),
                Err(e) => r == Err::<(), OpError>(OpError::Memory(e)) && post
                    == (Emulator {
                    cycles_processed: bump_cycles(pre.cycles_processed),
                    ..pre
                }),
            }
        })
}

/// RES b, r
///
/// rb <- 0
///
/// Resets to 0 the specified bit of register r; no flags change.
pub fn reset_bit_of_register(emulator: &mut Emulator, opcode: u8) -> (r: OpResult)
    ensures
        reset_bit_of_register_rel(*old(emulator), *final(emulator), opcode, r),
{
    let register = match opcode.parse_register(0b00_000_111) {
        Ok(register) => register,
        Err(e) => {
            return Err(op_error(e));
        },
    };

    let bit_index = opcode.parse_bit(0b00_111_000);

    let value = emulator.register(&register);

    emulator.set_register(register, value & !bit_mask(bit_index));

    Ok(())
}

/// The exact contract of `reset_bit_of_register`: relates the state after the body to
/// the state before, together with the result.
pub open spec fn reset_bit_of_register_rel(pre: Emulator, post: Emulator, opcode: u8, r: OpResult) -> bool {
    match spec_parse_register(opcode, 0b00_000_111) {
            Ok(register) => ({
                let index = spec_field(opcode, 0b00_111_000) as usize;
                r is Ok && post == pre.with_reg(
                    register,
                    pre.reg_val(register) & !spec_bit_mask(index),
                )
            }),
            Err(e) => r == Err::<(), OpError>(spec_op_error(e)) && post == pre,
        }
}

/// SET b, (HL)
///
/// (HL)b <- 1
///
/// Sets to 1 the specified bit of the memory specified by register pair HL;
/// no flags change.
pub fn set_bit_of_hl_location(emulator: &mut Emulator, opcode: u8) -> (r: OpResult)
    requires
        old(emulator).wf(),
    ensures
        final(emulator).wf(),
        set_bit_of_hl_location_rel(*old(emulator), *final(emulator), opcode, r),
{
    let bit_index = opcode.parse_bit(0b00_111_000);

    let value = match emulator.read_hl_location() {
        Ok(value) => value,
        Err(e) => {
            return Err(OpError::Memory(e));
        },
    };

    let result = value | bit_mask(bit_index);

    match emulator.write_hl_location(result) {
        Ok(u) => Ok(u),
        Err(e) => Err(OpError::Memory(e)),
    }
}

/// The exact contract of `set_bit_of_hl_location`: relates the state after the body to
/// the state before, together with the result.
pub open spec fn set_bit_of_hl_location_rel(pre: Emulator, post: Emulator, opcode: u8, r: OpResult) -> bool {
    ({
            let location = pre.pair_value(RegisterPair::Hl);
            let index = spec_field(opcode, 0b00_111_000) as usize;
            match pre.memory_mapping.spec_read(location) {
                Ok(value) => ({
                    let result = value | spec_bit_mask(index);
                    &&& mem_step(pre, post, location, result)
                    &&& post == (Emulator {
                        cycles_processed: bump_cycles(bump_cycles(pre.cycles_processed)),
                        memory_mapping: post.memory_mapping,
                        ..pre
                    })
                    &&& r == match pre.memory_mapping.spec_write(location, result) {
                        Ok(u) => Ok::<(), OpError>(u),
                        Err(e) => Err::<(), OpError>(OpError::Memory(e)),
                    }
                }),
                Err(e) => r == Err::<(), OpError>(OpError::Memory(e)) && post
                    == (Emulator {
                    cycles_processed: bump_cycles(pre.cycles_processed),
                    ..pre
                }),
            }
        })
}

/// SET b, r
///
/// rb <- 1
///
/// Sets to 1 the specified bit of register r; no flags change.
pub fn set_bit_of_register(emulator: &mut Emulator, opcode: u8) -> (r: OpResult)
    ensures
        set_bit_of_register_rel(*old(emulator), *final(emulator), opcode, r),
{
    let register = match opcode.parse_register(0b00_000_111) {
        Ok(register) => register,
        Err(e) => {
            return Err(op_error(e));
        },
    };

    let bit_index = opcode.parse_bit(0b00_111_000);

    let value = emulator.register(&register);

    emulator.set_register(register, value | bit_mask(bit_index));

    Ok(())
}

/// The exact contract of `set_bit_of_register`: relates the state after the body to
/// the state before, together with the result.
pub open spec fn set_bit_of_register_rel(pre: Emulator, post: Emulator, opcode: u8, r: OpResult) -> bool {
    match spec_parse_register(opcode, 0b00_000_111) {
            Ok(register) => ({
                let index = spec_field(opcode, 0b00_111_000) as usize;
                r is Ok && post == pre.with_reg(
                    register,
                    pre.reg_val(register) | spec_bit_mask(index),
                )
            }),
            Err(e) => r == Err::<(), OpError>(spec_op_error(e)) && post == pre,
        }
}

} // verus!
