//! The logical instruction family: bitwise AND, OR and XOR of the
//! accumulator with a register, an immediate operand or the (HL) memory
//! operand. AND sets H; OR and XOR clear it; all three clear N and CY and
//! set Z from the result.

use vstd::prelude::*;

use crate::emulator::{bump_cycles, Emulator};
use crate::instruction::{op_error, spec_op_error, OpError, OpResult};
use crate::opcode::{spec_parse_register, Opcode};
use crate::register::RegisterPair;

verus! {

/// AND (HL)
///
/// A <- A AND (HL)
///
/// Takes the logical AND of the contents of register A and the memory
/// specified by register pair HL, and stores the results in register A.
pub fn and_hl_location(emulator: &mut Emulator, opcode: u8) -> (r: OpResult)
    requires
        old(emulator).wf(),
    ensures
        final(emulator).wf(),
        and_hl_location_rel(*old(emulator), *final(emulator), opcode, r),
{
    let value = match emulator.read_hl_location() {
        Ok(value) => value,
        Err(e) => {
            return Err(OpError::Memory(e));
        },
    };

    emulator.bitwise_and_with_a(value);

    Ok(())
}

/// The exact contract of `and_hl_location`: relates the state after the body to
/// the state before, together with the result.
pub open spec fn and_hl_location_rel(pre: Emulator, post: Emulator, opcode: u8, r: OpResult) -> bool {
    ({
            let location = pre.pair_value(RegisterPair::Hl);
            match pre.memory_mapping.spec_read(location) {
                Ok(value) => r is Ok && post == (Emulator {
                    cycles_processed: bump_cycles(pre.cycles_processed),
                    a: pre.a & value,
                    flag_cy: false,
                    flag_h: true,
                    flag_n: false,
                    flag_z: (pre.a & value) == 0,
                    ..pre
                }),
                Err(e) => r == Err::<(), OpError>(OpError::Memory(e)) && post
                    == (Emulator {
                    cycles_processed: bump_cycles(pre.cycles_processed),
                    ..pre
                }),
            }
        })
}

/// AND n
///
/// A <- A AND n
///
/// Takes the logical AND of the contents of register A and 8-bit immediate
/// operand n, and stores the results in register A.
pub fn and_immediate_n(emulator: &mut Emulator, opcode: u8) -> (r: OpResult)
    requires
        old(emulator).wf(),
    ensures
        final(emulator).wf(),
        and_immediate_n_rel(*old(emulator), *final(emulator), opcode, r),
{
    let n = match emulator.read_immediate_n() {
        Ok(value) => value,
        Err(e) => {
            return Err(OpError::Memory(e));
        },
    };

    emulator.bitwise_and_with_a(n);

    Ok(())
}

/// The exact contract of `and_immediate_n`: relates the state after the body to
/// the state before, together with the result.
pub open spec fn and_immediate_n_rel(pre: Emulator, post: Emulator, opcode: u8, r: OpResult) -> bool {
    ({
            match pre.memory_mapping.spec_read(pre.program_counter) {
                Ok(value) => r is Ok && post == (Emulator {
                    cycles_processed: bump_cycles(pre.cycles_processed),
                    program_counter: ((pre.program_counter + 1) % 0x10000) as u16,
                    a: pre.a & value,
                    flag_cy: false,
                    flag_h: true,
                    flag_n: false,
                    flag_z: (pre.a & value) == 0,
                    ..pre
                }),
                Err(e) => r == Err::<(), OpError>(OpError::Memory(e)) && post
                    == (Emulator {
                    cycles_processed: bump_cycles(pre.cycles_processed),
                    program_counter: ((pre.program_counter + 1) % 0x10000) as u16,
                    ..pre
                }),
            }
        })
}

/// AND r
///
/// A <- A AND r
///
/// Takes the logical AND of the contents of register A and register r, and
/// stores the results in register A.
pub fn and_register(emulator: &mut Emulator, opcode: u8) -> (r: OpResult)
    ensures
        and_register_rel(*old(emulator), *final(emulator), opcode, r),
{
    let register = match opcode.parse_register(0b00_000_111) {
        Ok(register) => register,
        Err(e) => {
            return Err(op_error(e));
        },
    };

    let value = emulator.register(&register);

    emulator.bitwise_and_with_a(value);

    Ok(())
}

/// The exact contract of `and_register`: relates the state after the body to
/// the state before, together with the result.
pub open spec fn and_register_rel(pre: Emulator, post: Emulator, opcode: u8, r: OpResult) -> bool {
    match spec_parse_register(opcode, 0b00_000_111) {
            Ok(register) => ({
                let value = pre.reg_val(register);
                r is Ok && post == (Emulator {
                    a: pre.a & value,
                    flag_cy: false,
                    flag_h: true,
                    flag_n: false,
                    flag_z: (pre.a & value) == 0,
                    ..pre
                })
            }),
            Err(e) => r == Err::<(), OpError>(spec_op_error(e)) && post == pre,
        }
}

/// OR (HL)
///
/// A <- A OR (HL)
///
/// Takes the logical OR of the contents of register A and the memory
/// specified by register pair HL, and stores the results in register A.
pub fn or_hl_location(emulator: &mut Emulator, opcode: u8) -> (r: OpResult)
    requires
        old(emulator).wf(),
    ensures
        final(emulator).wf(),
        or_hl_location_rel(*old(emulator), *final(emulator), opcode, r),
{
    let value = match emulator.read_hl_location() {
        Ok(value) => value,
        Err(e) => {
            return Err(OpError::Memory(e));
        },
    };

    emulator.bitwise_or_with_a(value);

    Ok(())
}

/// The exact contract of `or_hl_location`: relates the state after the body to
/// the state before, together with the result.
pub open spec fn or_hl_location_rel(pre: Emulator, post: Emulator, opcode: u8, r: OpResult) -> bool {
    ({
            let location = pre.pair_value(RegisterPair::Hl);
            match pre.memory_mapping.spec_read(location) {
                Ok(value) => r is Ok && post == (Emulator {
                    cycles_processed: bump_cycles(pre.cycles_processed),
                    a: pre.a | value,
                    flag_cy: false,
                    flag_h: false,
                    flag_n: false,
                    flag_z: (pre.a | value) == 0,
                    ..pre
                }),
                Err(e) => r == Err::<(), OpError>(OpError::Memory(e)) && post
                    == (Emulator {
                    cycles_processed: bump_cycles(pre.cycles_processed),
                    ..pre
                }),
            }
        })
}

/// OR n
///
/// A <- A OR n
///
/// Takes the logical OR of the contents of register A and 8-bit immediate
/// operand n, and stores the results in register A.
pub fn or_immediate_n(emulator: &mut Emulator, opcode: u8) -> (r: OpResult)
    requires
        old(emulator).wf(),
    ensures
        final(emulator).wf(),
        or_immediate_n_rel(*old(emulator), *final(emulator), opcode, r),
{
    let n = match emulator.read_immediate_n() {
        Ok(value) => value,
        Err(e) => {
            return Err(OpError::Memory(e));
        },
    };

    emulator.bitwise_or_with_a(n);

    Ok(())
}

/// The exact contract of `or_immediate_n`: relates the state after the body to
/// the state before, together with the result.
pub open spec fn or_immediate_n_rel(pre: Emulator, post: Emulator, opcode: u8, r: OpResult) -> bool {
    ({
            match pre.memory_mapping.spec_read(pre.program_counter) {
                Ok(value) => r is Ok && post == (Emulator {
                    cycles_processed: bump_cycles(pre.cycles_processed),
                    program_counter: ((pre.program_counter + 1) % 0x10000) as u16,
                    a: pre.a | value,
                    flag_cy: false,
                    flag_h: false,
                    flag_n: false,
                    flag_z: (pre.a | value) == 0,
                    ..pre
                }),
                Err(e) => r == Err::<(), OpError>(OpError::Memory(e)) && post
                    == (Emulator {
                    cycles_processed: bump_cycles(pre.cycles_processed),
                    program_counter: ((pre.program_counter + 1) % 0x10000) as u16,
                    ..pre
                }),
            }
        })
}

/// OR r
///
/// A <- A OR r
///
/// Takes the logical OR of the contents of register A and register r, and
/// stores the results in register A.
pub fn or_register(emulator: &mut Emulator, opcode: u8) -> (r: OpResult)
    ensures
        or_register_rel(*old(emulator), *final(emulator), opcode, r),
{
    let register = match opcode.parse_register(0b00_000_111) {
        Ok(register) => register,
        Err(e) => {
            return Err(op_error(e));
        },
    };

    let value = emulator.register(&register);

    emulator.bitwise_or_with_a(value);

    Ok(())
}

/// The exact contract of `or_register`: relates the state after the body to
/// the state before, together with the result.
pub open spec fn or_register_rel(pre: Emulator, post: Emulator, opcode: u8, r: OpResult) -> bool {
    match spec_parse_register(opcode, 0b00_000_111) {
            Ok(register) => ({
                let value = pre.reg_val(register);
                r is Ok && post == (Emulator {
                    a: pre.a | value,
                    flag_cy: false,
                    flag_h: false,
                    flag_n: false,
                    flag_z: (pre.a | value) == 0,
                    ..pre
                })
            }),
            Err(e) => r == Err::<(), OpError>(spec_op_error(e)) && post == pre,
        }
}

/// XOR (HL)
///
/// A <- A XOR (HL)
///
/// Takes the logical XOR of the contents of register A and the memory
/// specified by register pair HL, and stores the results in register A.
pub fn xor_hl_location(emulator: &mut Emulator, opcode: u8) -> (r: OpResult)
    requires
        old(emulator).wf(),
    ensures
        final(emulator).wf(),
        xor_hl_location_rel(*old(emulator), *final(emulator), opcode, r),
{
    let value = match emulator.read_hl_location() {
        Ok(value) => value,
        Err(e) => {
            return Err(OpError::Memory(e));
        },
    };

    emulator.bitwise_xor_with_a(value);

    Ok(())
}

/// The exact contract of `xor_hl_location`: relates the state after the body to
/// the state before, together with the result.
pub open spec fn xor_hl_location_rel(pre: Emulator, post: Emulator, opcode: u8, r: OpResult) -> bool {
    ({
            let location = pre.pair_value(RegisterPair::Hl);
            match pre.memory_mapping.spec_read(location) {
                Ok(value) => r is Ok && post == (Emulator {
                    cycles_processed: bump_cycles(pre.cycles_processed),
                    a: pre.a ^ value,
                    flag_cy: false,
                    flag_h: false,
                    flag_n: false,
                    flag_z: (pre.a ^ value) == 0,
                    ..pre
                }),
                Err(e) => r == Err::<(), OpError>(OpError::Memory(e)) && post
                    == (Emulator {
                    cycles_processed: bump_cycles(pre.cycles_processed),
                    ..pre
                }),
            }
        })
}

/// XOR n
///
/// A <- A XOR n
///
/// Takes the logical XOR of the contents of register A and 8-bit immediate
/// operand n, and stores the results in register A.
pub fn xor_immediate_n(emulator: &mut Emulator, opcode: u8) -> (r: OpResult)
    requires
        old(emulator).wf(),
    ensures
        final(emulator).wf(),
        xor_immediate_n_rel(*old(emulator), *final(emulator), opcode, r),
{
    let n = match emulator.read_immediate_n() {
        Ok(value) => value,
        Err(e) => {
            return Err(OpError::Memory(e));
        },
    };

    emulator.bitwise_xor_with_a(n);

    Ok(())
}

/// The exact contract of `xor_immediate_n`: relates the state after the body to
/// the state before, together with the result.
pub open spec fn xor_immediate_n_rel(pre: Emulator, post: Emulator, opcode: u8, r: OpResult) -> bool {
    ({
            match pre.memory_mapping.spec_read(pre.program_counter) {
                Ok(value) => r is Ok && post == (Emulator {
                    cycles_processed: bump_cycles(pre.cycles_processed),
                    program_counter: ((pre.program_counter + 1) % 0x10000) as u16,
                    a: pre.a ^ value,
                    flag_cy: false,
                    flag_h: false,
                    flag_n: false,
                    flag_z: (pre.a ^ value) == 0,
                    ..pre
                }),
                Err(e) => r == Err::<(), OpError>(OpError::Memory(e)) && post
                    == (Emulator {
                    cycles_processed: bump_cycles(pre.cycles_processed),
                    program_counter: ((pre.program_counter + 1) % 0x10000) as u16,
                    ..pre
                }),
            }
        })
}

/// XOR r
///
/// A <- A XOR r
///
/// Takes the logical XOR of the contents of register A and register r, and
/// stores the results in register A.
pub fn xor_register(emulator: &mut Emulator, opcode: u8) -> (r: OpResult)
    ensures
        xor_register_rel(*old(emulator), *final(emulator), opcode, r),
{
    let register = match opcode.parse_register(0b00_000_111) {
        Ok(register) => register,
        Err(e) => {
            return Err(op_error(e));
        },
    };

    let value = emulator.register(&register);

    emulator.bitwise_xor_with_a(value);

    Ok(())
}

/// The exact contract of `xor_register`: relates the state after the body to
/// the state before, together with the result.
pub open spec fn xor_register_rel(pre: Emulator, post: Emulator, opcode: u8, r: OpResult) -> bool {
    match spec_parse_register(opcode, 0b00_000_111) {
            Ok(register) => ({
                let value = pre.reg_val(register);
                r is Ok && post == (Emulator {
                    a: pre.a ^ value,
                    flag_cy: false,
                    flag_h: false,
                    flag_n: false,
                    flag_z: (pre.a ^ value) == 0,
                    ..pre
                })
            }),
            Err(e) => r == Err::<(), OpError>(spec_op_error(e)) && post == pre,
        }
}

} // verus!
