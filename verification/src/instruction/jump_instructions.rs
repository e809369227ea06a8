//! The jump instruction family: absolute jumps, relative jumps, and their
//! condition-controlled forms. A branch that is not taken consumes its
//! operand bytes but must not incur the cycle cost of the jump.

use vstd::prelude::*;

use crate::emulator::{bump_cycles, signed_add_value, Emulator};
use crate::instruction::{op_error, spec_op_error, OpError, OpResult};
use crate::opcode::{spec_parse_condition, Opcode};
use crate::register::RegisterPair;

verus! {

/// A relative jump by -2 lands back on the jump instruction itself: the
/// offset is relative to the program counter after the operand byte has
/// been consumed, two past the opcode.
pub proof fn lemma_relative_jump_back_two(pc: u16)
    ensures
        signed_add_value(((pc + 2) % 0x10000) as u16, -2i8) == pc,
{
}

/// JP (HL)
///
/// PC <- HL
///
/// Loads the contents of register pair HL into the program counter. The
/// target is HL itself, not the memory it points at.
pub fn jump_to_hl(emulator: &mut Emulator, opcode: u8) -> (r: OpResult)
    ensures
        jump_to_hl_rel(*old(emulator), *final(emulator), opcode, r),
{
    let target = emulator.hl();

    emulator.jump_to(target);

    Ok(())
}

/// The exact contract of `jump_to_hl`: relates the state after the body to
/// the state before, together with the result.
pub open spec fn jump_to_hl_rel(pre: Emulator, post: Emulator, opcode: u8, r: OpResult) -> bool {
    &&& r is Ok
    &&& post == (Emulator {
            program_counter: pre.pair_value(RegisterPair::Hl),
            jumped: true,
            cycles_processed: bump_cycles(pre.cycles_processed),
            ..pre
        })
}

/// JR e
///
/// PC <- PC + e
///
/// Adds signed 8-bit immediate operand e to the program counter, relative
/// to the instruction after the operand byte.
pub fn jump_to_immediate_e(emulator: &mut Emulator, opcode: u8) -> (r: OpResult)
    requires
        old(emulator).wf(),
    ensures
        final(emulator).wf(),
        jump_to_immediate_e_rel(*old(emulator), *final(emulator), opcode, r),
{
    let e = match emulator.read_immediate_e() {
        Ok(value) => value,
        Err(e) => {
            return Err(OpError::Memory(e));
        },
    };

    emulator.jump_relative_to(e);

    Ok(())
}

/// The exact contract of `jump_to_immediate_e`: relates the state after the body to
/// the state before, together with the result.
pub open spec fn jump_to_immediate_e_rel(pre: Emulator, post: Emulator, opcode: u8, r: OpResult) -> bool {
    ({
            let pc_after = ((pre.program_counter + 1) % 0x10000) as u16;
            match pre.memory_mapping.spec_read(pre.program_counter) {
                Ok(value) => r is Ok && post == (Emulator {
                    cycles_processed: bump_cycles(bump_cycles(pre.cycles_processed)),
                    program_counter: signed_add_value(pc_after, value as i8),
                    jumped: true,
                    ..pre
                }),
                Err(e) => r == Err::<(), OpError>(OpError::Memory(e)) && post
                    == (Emulator {
                    cycles_processed: bump_cycles(pre.cycles_processed),
                    program_counter: pc_after,
                    ..pre
                }),
            }
        })
}

/// JR cc, e
///
/// if cc, PC <- PC + e
///
/// Adds signed 8-bit immediate operand e to the program counter when the
/// condition holds; the operand byte is consumed either way, and an
/// untaken branch loads no program counter.
pub fn jump_to_immediate_e_if_condition(emulator: &mut Emulator, opcode: u8) -> (r: OpResult)
    requires
        old(emulator).wf(),
    ensures
        final(emulator).wf(),
        jump_to_immediate_e_if_condition_rel(*old(emulator), *final(emulator), opcode, r),
{
    let condition = match opcode.parse_condition(0b00_011_000) {
        Ok(condition) => condition,
        Err(e) => {
            return Err(op_error(e));
        },
    };

    let e = match emulator.read_immediate_e() {
        Ok(value) => value,
        Err(e) => {
            return Err(OpError::Memory(e));
        },
    };

    if condition.check(emulator) {
        emulator.jump_relative_to(e);
    }

    Ok(())
}

/// The exact contract of `jump_to_immediate_e_if_condition`: relates the state after the body to
/// the state before, together with the result.
pub open spec fn jump_to_immediate_e_if_condition_rel(pre: Emulator, post: Emulator, opcode: u8, r: OpResult) -> bool {
    match spec_parse_condition(opcode, 0b00_011_000) {
            Ok(condition) => ({
                let pc_after = ((pre.program_counter + 1) % 0x10000) as u16;
                match pre.memory_mapping.spec_read(pre.program_counter) {
                    Ok(value) => r is Ok && post == (if condition.spec_holds(
                        pre,
                    ) {
                        (Emulator {
                            cycles_processed: bump_cycles(
                                bump_cycles(pre.cycles_processed),
                            ),
                            program_counter: signed_add_value(pc_after, value as i8),
                            jumped: true,
                            ..pre
                        })
                    } else {
                        (Emulator {
                            cycles_processed: bump_cycles(pre.cycles_processed),
                            program_counter: pc_after,
                            ..pre
                        })
                    }),
                    Err(e) => r == Err::<(), OpError>(OpError::Memory(e)) && post
                        == (Emulator {
                        cycles_processed: bump_cycles(pre.cycles_processed),
                        program_counter: pc_after,
                        ..pre
                    }),
                }
            }),
            Err(e) => r == Err::<(), OpError>(spec_op_error(e)) && post == pre,
        }
}

/// JP nn
///
/// PC <- nn
///
/// Loads 16-bit immediate operand nn into the program counter.
pub fn jump_to_immediate_nn(emulator: &mut Emulator, opcode: u8) -> (r: OpResult)
    requires
        old(emulator).wf(),
    ensures
        final(emulator).wf(),
        jump_to_immediate_nn_rel(*old(emulator), *final(emulator), opcode, r),
{
    let nn = match emulator.read_immediate_nn() {
        Ok(value) => value,
        Err(e) => {
            return Err(OpError::Memory(e));
        },
    };

    emulator.jump_to(nn);

    Ok(())
}

/// The exact contract of `jump_to_immediate_nn`: relates the state after the body to
/// the state before, together with the result.
pub open spec fn jump_to_immediate_nn_rel(pre: Emulator, post: Emulator, opcode: u8, r: OpResult) -> bool {
    ({
            let pc = pre.program_counter;
            match pre.memory_mapping.spec_read(pc) {
                Err(e) => r == Err::<(), OpError>(OpError::Memory(e)) && post
                    == (Emulator {
                    cycles_processed: bump_cycles(pre.cycles_processed),
                    program_counter: ((pc + 1) % 0x10000) as u16,
                    ..pre
                }),
                Ok(low) => match pre.memory_mapping.spec_read(((pc + 1) % 0x10000) as u16) {
                    Err(e) => r == Err::<(), OpError>(OpError::Memory(e)) && post
                        == (Emulator {
                        cycles_processed: bump_cycles(bump_cycles(pre.cycles_processed)),
                        program_counter: ((pc + 2) % 0x10000) as u16,
                        ..pre
                    }),
                    Ok(high) => r is Ok && post == (Emulator {
                        cycles_processed: bump_cycles(
                            bump_cycles(bump_cycles(pre.cycles_processed)),
                        ),
                        program_counter: (high * 256 + low) as u16,
                        jumped: true,
                        ..pre
                    }),
                },
            }
        })
}

/// JP cc, nn
///
/// if cc, PC <- nn
///
/// Loads 16-bit immediate operand nn into the program counter when the
/// condition holds; the operand bytes are consumed either way.
pub fn jump_to_immediate_nn_if_condition(emulator: &mut Emulator, opcode: u8) -> (r: OpResult)
    requires
        old(emulator).wf(),
    ensures
        final(emulator).wf(),
        jump_to_immediate_nn_if_condition_rel(*old(emulator), *final(emulator), opcode, r),
{
    let condition = match opcode.parse_condition(0b00_011_000) {
        Ok(condition) => condition,
        Err(e) => {
            return Err(op_error(e));
        },
    };

    let nn = match emulator.read_immediate_nn() {
        Ok(value) => value,
        Err(e) => {
            return Err(OpError::Memory(e));
        },
    };

    if condition.check(emulator) {
        emulator.jump_to(nn);
    }

    Ok(())
}

/// The exact contract of `jump_to_immediate_nn_if_condition`: relates the state after the body to
/// the state before, together with the result.
pub open spec fn jump_to_immediate_nn_if_condition_rel(pre: Emulator, post: Emulator, opcode: u8, r: OpResult) -> bool {
    match spec_parse_condition(opcode, 0b00_011_000) {
            Ok(condition) => ({
                let pc = pre.program_counter;
                match pre.memory_mapping.spec_read(pc) {
                    Err(e) => r == Err::<(), OpError>(OpError::Memory(e)) && post
                        == (Emulator {
                        cycles_processed: bump_cycles(pre.cycles_processed),
                        program_counter: ((pc + 1) % 0x10000) as u16,
                        ..pre
                    }),
                    Ok(low) => match pre.memory_mapping.spec_read(
                        ((pc + 1) % 0x10000) as u16,
                    ) {
                        Err(e) => r == Err::<(), OpError>(OpError::Memory(e)) && post
                            == (Emulator {
                            cycles_processed: bump_cycles(
                                bump_cycles(pre.cycles_processed),
                            ),
                            program_counter: ((pc + 2) % 0x10000) as u16,
                            ..pre
                        }),
                        Ok(high) => r is Ok && post == (if condition.spec_holds(
                            pre,
                        ) {
                            (Emulator {
                                cycles_processed: bump_cycles(
                                    bump_cycles(bump_cycles(pre.cycles_processed)),
                                ),
                                program_counter: (high * 256 + low) as u16,
                                jumped: true,
                                ..pre
                            })
                        } else {
                            (Emulator {
                                cycles_processed: bump_cycles(
                                    bump_cycles(pre.cycles_processed),
                                ),
                                program_counter: ((pc + 2) % 0x10000) as u16,
                                ..pre
                            })
                        }),
                    },
                }
            }),
            Err(e) => r == Err::<(), OpError>(spec_op_error(e)) && post == pre,
        }
}

} // verus!
