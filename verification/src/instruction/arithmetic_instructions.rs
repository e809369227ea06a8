//! The arithmetic instruction family: 8-bit add, add-with-carry, subtract,
//! subtract-with-carry and compare against the accumulator; increment and
//! decrement of registers, of the (HL) memory operand and of register
//! pairs; and the 16-bit adds onto HL and SP.

use vstd::prelude::*;

use crate::bits::{
    add8_carry, add8_half_carry, add8_value, bit_add, bit_subtract, sub8_borrow, sub8_half_borrow,
    sub8_value,
};
use crate::emulator::{
    bump_cycles, mem_step, signed_add_carry, signed_add_half_carry, signed_add_value, Emulator,
};
use crate::flag::Flag;
use crate::instruction::{op_error, spec_op_error, OpError, OpResult};
use crate::opcode::{spec_parse_register, spec_parse_register_pair, Opcode};
use crate::register::{Register, RegisterPair};

verus! {

/// ADD A, (HL)
///
/// A <- A + (HL)
///
/// Adds the contents of memory specified by the contents of register pair HL
/// to the contents of register A and stores the results in register A.
pub fn add_hl_location_to_a(emulator: &mut Emulator, opcode: u8) -> (r: OpResult)
    requires
        old(emulator).wf(),
    ensures
        final(emulator).wf(),
        add_hl_location_to_a_rel(*old(emulator), *final(emulator), opcode, r),
{
    let value = match emulator.read_hl_location() {
        Ok(value) => value,
        Err(e) => {
            return Err(OpError::Memory(e));
        },
    };

    emulator.add_to_a(value, false);

    Ok(())
}

/// The exact contract of `add_hl_location_to_a`: relates the state after the body to
/// the state before, together with the result.
pub open spec fn add_hl_location_to_a_rel(pre: Emulator, post: Emulator, opcode: u8, r: OpResult) -> bool {
    ({
            let location = pre.pair_value(RegisterPair::Hl);
            match pre.memory_mapping.spec_read(location) {
                Ok(value) => r is Ok && post == (Emulator {
                    cycles_processed: bump_cycles(pre.cycles_processed),
                    a: add8_value(pre.a, value, false),
                    flag_cy: add8_carry(pre.a, value, false),
                    flag_h: add8_half_carry(pre.a, value, false),
                    flag_n: false,
                    flag_z: add8_value(pre.a, value, false) == 0,
                    ..pre
                }),
                Err(e) => r == Err::<(), OpError>(OpError::Memory(e)) && post
                    == (Emulator {
                    cycles_processed: bump_cycles(pre.cycles_processed),
                    ..pre
                }),
            }
        })
}

/// ADD SP, e
///
/// SP <- SP + e
///
/// Adds 8-bit signed immediate operand e to the contents of the stack
/// pointer and stores the results in the stack pointer. CY and H come from
/// the low-byte lane, Z and N are cleared, and the 16-bit arithmetic costs
/// two internal cycles on top of the operand read.
pub fn add_immediate_e_to_sp(emulator: &mut Emulator, opcode: u8) -> (r: OpResult)
    requires
        old(emulator).wf(),
    ensures
        final(emulator).wf(),
        add_immediate_e_to_sp_rel(*old(emulator), *final(emulator), opcode, r),
{
    let e = match emulator.read_immediate_e() {
        Ok(value) => value,
        Err(e) => {
            return Err(OpError::Memory(e));
        },
    };

    let sp = emulator.stack_pointer();
    let value = emulator.add_signed(sp, e, false);

    emulator.set_stack_pointer(value);

    emulator.internal_cycle();
    emulator.internal_cycle();

    Ok(())
}

/// The exact contract of `add_immediate_e_to_sp`: relates the state after the body to
/// the state before, together with the result.
pub open spec fn add_immediate_e_to_sp_rel(pre: Emulator, post: Emulator, opcode: u8, r: OpResult) -> bool {
    ({
            match pre.memory_mapping.spec_read(pre.program_counter) {
                Ok(value) => r is Ok && post == (Emulator {
                    cycles_processed: bump_cycles(
                        bump_cycles(bump_cycles(pre.cycles_processed)),
                    ),
                    program_counter: ((pre.program_counter + 1) % 0x10000) as u16,
                    stack_pointer: signed_add_value(pre.stack_pointer, value as i8),
                    flag_cy: signed_add_carry(pre.stack_pointer, value as i8, false),
                    flag_h: signed_add_half_carry(pre.stack_pointer, value as i8, false),
                    flag_n: false,
                    flag_z: false,
                    ..pre
                }),
                Err(e) => r == Err::<(), OpError>(OpError::Memory(e)) && post
                    == (Emulator {
                    cycles_processed: bump_cycles(pre.cycles_processed),
                    program_counter: ((pre.program_counter + 1) % 0x10000) as u16,
                    ..pre
                }),
            }
        })
}

/// ADD A, n
///
/// A <- A + n
///
/// Adds 8-bit immediate operand n to the contents of register A and stores
/// the results in register A.
pub fn add_immediate_n_to_a(emulator: &mut Emulator, opcode: u8) -> (r: OpResult)
    requires
        old(emulator).wf(),
    ensures
        final(emulator).wf(),
        add_immediate_n_to_a_rel(*old(emulator), *final(emulator), opcode, r),
{
    let n = match emulator.read_immediate_n() {
        Ok(value) => value,
        Err(e) => {
            return Err(OpError::Memory(e));
        },
    };

    emulator.add_to_a(n, false);

    Ok(())
}

/// The exact contract of `add_immediate_n_to_a`: relates the state after the body to
/// the state before, together with the result.
pub open spec fn add_immediate_n_to_a_rel(pre: Emulator, post: Emulator, opcode: u8, r: OpResult) -> bool {
    ({
            match pre.memory_mapping.spec_read(pre.program_counter) {
                Ok(value) => r is Ok && post == (Emulator {
                    cycles_processed: bump_cycles(pre.cycles_processed),
                    program_counter: ((pre.program_counter + 1) % 0x10000) as u16,
                    a: add8_value(pre.a, value, false),
                    flag_cy: add8_carry(pre.a, value, false),
                    flag_h: add8_half_carry(pre.a, value, false),
                    flag_n: false,
                    flag_z: add8_value(pre.a, value, false) == 0,
                    ..pre
                }),
                Err(e) => r == Err::<(), OpError>(OpError::Memory(e)) && post
                    == (Emulator {
                    cycles_processed: bump_cycles(pre.cycles_processed),
                    program_counter: ((pre.program_counter + 1) % 0x10000) as u16,
                    ..pre
                }),
            }
        })
}

/// ADD HL, ss
///
/// HL <- HL + ss
///
/// Adds the contents of register pair ss (the stack pointer for code 0b11)
/// to those of register pair HL and stores the results in register pair HL.
/// CY and H come from the high-byte add, N is cleared and Z is preserved.
pub fn add_register_pair_to_hl(emulator: &mut Emulator, opcode: u8) -> (r: OpResult)
    ensures
        add_register_pair_to_hl_rel(*old(emulator), *final(emulator), opcode, r),
{
    let register_pair = match opcode.parse_register_pair(0b00_110_000) {
        Ok(register_pair) => register_pair,
        Err(e) => {
            return Err(op_error(e));
        },
    };

    let operand = if register_pair == RegisterPair::Af {
        emulator.stack_pointer()
    } else {
        emulator.register_pair(&register_pair)
    };

    let low = bit_add(emulator.register(&Register::L), (operand % 256) as u8, false);
    let high = bit_add(emulator.register(&Register::H), (operand / 256) as u8, low.carry);

    emulator.set_register(Register::L, low.value);
    emulator.set_register(Register::H, high.value);

    emulator.set_flag(Flag::CY, high.carry);
    emulator.set_flag(Flag::H, high.half_carry);
    emulator.set_flag(Flag::N, false);

    Ok(())
}

/// The exact contract of `add_register_pair_to_hl`: relates the state after the body to
/// the state before, together with the result.
pub open spec fn add_register_pair_to_hl_rel(pre: Emulator, post: Emulator, opcode: u8, r: OpResult) -> bool {
    match spec_parse_register_pair(opcode, 0b00_110_000) {
            Ok(register_pair) => ({
                let operand = if register_pair == RegisterPair::Af {
                    pre.stack_pointer
                } else {
                    pre.pair_value(register_pair)
                };
                let low_carry = add8_carry(pre.l, (operand % 256) as u8, false);
                r is Ok && post == (Emulator {
                    l: add8_value(pre.l, (operand % 256) as u8, false),
                    h: add8_value(pre.h, (operand / 256) as u8, low_carry),
                    flag_cy: add8_carry(pre.h, (operand / 256) as u8, low_carry),
                    flag_h: add8_half_carry(pre.h, (operand / 256) as u8, low_carry),
                    flag_n: false,
                    ..pre
                })
            }),
            Err(e) => r == Err::<(), OpError>(spec_op_error(e)) && post == pre,
        }
}

/// ADD A, r
///
/// A <- A + r
///
/// Adds the contents of register r to those of register A and stores the
/// results in register A.
pub fn add_register_to_a(emulator: &mut Emulator, opcode: u8) -> (r: OpResult)
    ensures
        add_register_to_a_rel(*old(emulator), *final(emulator), opcode, r),
{
    let register = match opcode.parse_register(0b00000111) {
        Ok(register) => register,
        Err(e) => {
            return Err(op_error(e));
        },
    };

    let value = emulator.register(&register);

    emulator.add_to_a(value, false);

    Ok(())
}

/// The exact contract of `add_register_to_a`: relates the state after the body to
/// the state before, together with the result.
pub open spec fn add_register_to_a_rel(pre: Emulator, post: Emulator, opcode: u8, r: OpResult) -> bool {
    match spec_parse_register(opcode, 0b00000111) {
            Ok(register) => ({
                let value = pre.reg_val(register);
                r is Ok && post == (Emulator {
                    a: add8_value(pre.a, value, false),
                    flag_cy: add8_carry(pre.a, value, false),
                    flag_h: add8_half_carry(pre.a, value, false),
                    flag_n: false,
                    flag_z: add8_value(pre.a, value, false) == 0,
                    ..pre
                })
            }),
            Err(e) => r == Err::<(), OpError>(spec_op_error(e)) && post == pre,
        }
}

/// ADC A, (HL)
///
/// A <- A + (HL) + CY
///
/// Adds the contents of memory specified by register pair HL and CY to the
/// contents of register A and stores the results in register A.
pub fn add_with_carry_hl_location_to_a(emulator: &mut Emulator, opcode: u8) -> (r: OpResult)
    requires
        old(emulator).wf(),
    ensures
        final(emulator).wf(),
        add_with_carry_hl_location_to_a_rel(*old(emulator), *final(emulator), opcode, r),
{
    let value = match emulator.read_hl_location() {
        Ok(value) => value,
        Err(e) => {
            return Err(OpError::Memory(e));
        },
    };

    emulator.add_to_a(value, true);

    Ok(())
}

/// The exact contract of `add_with_carry_hl_location_to_a`: relates the state after the body to
/// the state before, together with the result.
pub open spec fn add_with_carry_hl_location_to_a_rel(pre: Emulator, post: Emulator, opcode: u8, r: OpResult) -> bool {
    ({
            let location = pre.pair_value(RegisterPair::Hl);
            let carry = pre.flag_cy;
            match pre.memory_mapping.spec_read(location) {
                Ok(value) => r is Ok && post == (Emulator {
                    cycles_processed: bump_cycles(pre.cycles_processed),
                    a: add8_value(pre.a, value, carry),
                    flag_cy: add8_carry(pre.a, value, carry),
                    flag_h: add8_half_carry(pre.a, value, carry),
                    flag_n: false,
                    flag_z: add8_value(pre.a, value, carry) == 0,
                    ..pre
                }),
                Err(e) => r == Err::<(), OpError>(OpError::Memory(e)) && post
                    == (Emulator {
                    cycles_processed: bump_cycles(pre.cycles_processed),
                    ..pre
                }),
            }
        })
}

/// ADC A, n
///
/// A <- A + n + CY
///
/// Adds 8-bit immediate operand n and CY to the contents of register A and
/// stores the results in register A.
pub fn add_with_carry_immediate_n_to_a(emulator: &mut Emulator, opcode: u8) -> (r: OpResult)
    requires
        old(emulator).wf(),
    ensures
        final(emulator).wf(),
        add_with_carry_immediate_n_to_a_rel(*old(emulator), *final(emulator), opcode, r),
{
    let n = match emulator.read_immediate_n() {
        Ok(value) => value,
        Err(e) => {
            return Err(OpError::Memory(e));
        },
    };

    emulator.add_to_a(n, true);

    Ok(())
}

/// The exact contract of `add_with_carry_immediate_n_to_a`: relates the state after the body to
/// the state before, together with the result.
pub open spec fn add_with_carry_immediate_n_to_a_rel(pre: Emulator, post: Emulator, opcode: u8, r: OpResult) -> bool {
    ({
            let carry = pre.flag_cy;
            match pre.memory_mapping.spec_read(pre.program_counter) {
                Ok(value) => r is Ok && post == (Emulator {
                    cycles_processed: bump_cycles(pre.cycles_processed),
                    program_counter: ((pre.program_counter + 1) % 0x10000) as u16,
                    a: add8_value(pre.a, value, carry),
                    flag_cy: add8_carry(pre.a, value, carry),
                    flag_h: add8_half_carry(pre.a, value, carry),
                    flag_n: false,
                    flag_z: add8_value(pre.a, value, carry) == 0,
                    ..pre
                }),
                Err(e) => r == Err::<(), OpError>(OpError::Memory(e)) && post
                    == (Emulator {
                    cycles_processed: bump_cycles(pre.cycles_processed),
                    program_counter: ((pre.program_counter + 1) % 0x10000) as u16,
                    ..pre
                }),
            }
        })
}

/// ADC A, r
///
/// A <- A + r + CY
///
/// Adds the contents of register r and CY to those of register A and stores
/// the results in register A.
pub fn add_with_carry_register_to_a(emulator: &mut Emulator, opcode: u8) -> (r: OpResult)
    ensures
        add_with_carry_register_to_a_rel(*old(emulator), *final(emulator), opcode, r),
{
    let register = match opcode.parse_register(0b00000111) {
        Ok(register) => register,
        Err(e) => {
            return Err(op_error(e));
        },
    };

    let value = emulator.register(&register);

    emulator.add_to_a(value, true);

    Ok(())
}

/// The exact contract of `add_with_carry_register_to_a`: relates the state after the body to
/// the state before, together with the result.
pub open spec fn add_with_carry_register_to_a_rel(pre: Emulator, post: Emulator, opcode: u8, r: OpResult) -> bool {
    match spec_parse_register(opcode, 0b00000111) {
            Ok(register) => ({
                let value = pre.reg_val(register);
                let carry = pre.flag_cy;
                r is Ok && post == (Emulator {
                    a: add8_value(pre.a, value, carry),
                    flag_cy: add8_carry(pre.a, value, carry),
                    flag_h: add8_half_carry(pre.a, value, carry),
                    flag_n: false,
                    flag_z: add8_value(pre.a, value, carry) == 0,
                    ..pre
                })
            }),
            Err(e) => r == Err::<(), OpError>(spec_op_error(e)) && post == pre,
        }
}

/// CP (HL)
///
/// A - (HL)
///
/// Compares the contents of register A and memory specified by register
/// pair HL: the flags of the subtraction are set, the result is discarded.
pub fn compare_hl_location_with_a(emulator: &mut Emulator, opcode: u8) -> (r: OpResult)
    requires
        old(emulator).wf(),
    ensures
        final(emulator).wf(),
        compare_hl_location_with_a_rel(*old(emulator), *final(emulator), opcode, r),
{
    let a = emulator.a();

    let value = match emulator.read_hl_location() {
        Ok(value) => value,
        Err(e) => {
            return Err(OpError::Memory(e));
        },
    };

    emulator.subtract_unsigned(a, value, false);

    Ok(())
}

/// The exact contract of `compare_hl_location_with_a`: relates the state after the body to
/// the state before, together with the result.
pub open spec fn compare_hl_location_with_a_rel(pre: Emulator, post: Emulator, opcode: u8, r: OpResult) -> bool {
    ({
            let location = pre.pair_value(RegisterPair::Hl);
            match pre.memory_mapping.spec_read(location) {
                Ok(value) => r is Ok && post == (Emulator {
                    cycles_processed: bump_cycles(pre.cycles_processed),
                    flag_cy: sub8_borrow(pre.a, value, false),
                    flag_h: sub8_half_borrow(pre.a, value, false),
                    flag_n: true,
                    flag_z: sub8_value(pre.a, value, false) == 0,
                    ..pre
                }),
                Err(e) => r == Err::<(), OpError>(OpError::Memory(e)) && post
                    == (Emulator {
                    cycles_processed: bump_cycles(pre.cycles_processed),
                    ..pre
                }),
            }
        })
}

/// CP n
///
/// A - n
///
/// Compares the contents of register A and 8-bit immediate operand n.
pub fn compare_immediate_n_with_a(emulator: &mut Emulator, opcode: u8) -> (r: OpResult)
    requires
        old(emulator).wf(),
    ensures
        final(emulator).wf(),
        compare_immediate_n_with_a_rel(*old(emulator), *final(emulator), opcode, r),
{
    let a = emulator.a();

    let value = match emulator.read_immediate_n() {
        Ok(value) => value,
        Err(e) => {
            return Err(OpError::Memory(e));
        },
    };

    emulator.subtract_unsigned(a, value, false);

    Ok(())
}

/// The exact contract of `compare_immediate_n_with_a`: relates the state after the body to
/// the state before, together with the result.
pub open spec fn compare_immediate_n_with_a_rel(pre: Emulator, post: Emulator, opcode: u8, r: OpResult) -> bool {
    ({
            match pre.memory_mapping.spec_read(pre.program_counter) {
                Ok(value) => r is Ok && post == (Emulator {
                    cycles_processed: bump_cycles(pre.cycles_processed),
                    program_counter: ((pre.program_counter + 1) % 0x10000) as u16,
                    flag_cy: sub8_borrow(pre.a, value, false),
                    flag_h: sub8_half_borrow(pre.a, value, false),
                    flag_n: true,
                    flag_z: sub8_value(pre.a, value, false) == 0,
                    ..pre
                }),
                Err(e) => r == Err::<(), OpError>(OpError::Memory(e)) && post
                    == (Emulator {
                    cycles_processed: bump_cycles(pre.cycles_processed),
                    program_counter: ((pre.program_counter + 1) % 0x10000) as u16,
                    ..pre
                }),
            }
        })
}

/// CP r
///
/// A - r
///
/// Compares the contents of register A and register r.
pub fn compare_register_with_a(emulator: &mut Emulator, opcode: u8) -> (r: OpResult)
    ensures
        compare_register_with_a_rel(*old(emulator), *final(emulator), opcode, r),
{
    let register = match opcode.parse_register(0b00_000_111) {
        Ok(register) => register,
        Err(e) => {
            return Err(op_error(e));
        },
    };

    let a = emulator.a();
    let value = emulator.register(&register);

    emulator.subtract_unsigned(a, value, false);

    Ok(())
}

/// The exact contract of `compare_register_with_a`: relates the state after the body to
/// the state before, together with the result.
pub open spec fn compare_register_with_a_rel(pre: Emulator, post: Emulator, opcode: u8, r: OpResult) -> bool {
    match spec_parse_register(opcode, 0b00_000_111) {
            Ok(register) => ({
                let value = pre.reg_val(register);
                r is Ok && post == (Emulator {
                    flag_cy: sub8_borrow(pre.a, value, false),
                    flag_h: sub8_half_borrow(pre.a, value, false),
                    flag_n: true,
                    flag_z: sub8_value(pre.a, value, false) == 0,
                    ..pre
                })
            }),
            Err(e) => r == Err::<(), OpError>(spec_op_error(e)) && post == pre,
        }
}

/// DEC (HL)
///
/// (HL) <- (HL) - 1
///
/// Decrements the contents of memory specified by register pair HL,
/// updating Z, N and H and preserving CY.
pub fn dec_hl_location(emulator: &mut Emulator, opcode: u8) -> (r: OpResult)
    requires
        old(emulator).wf(),
    ensures
        final(emulator).wf(),
        dec_hl_location_rel(*old(emulator), *final(emulator), opcode, r),
{
    let value = match emulator.read_hl_location() {
        Ok(value) => value,
        Err(e) => {
            return Err(OpError::Memory(e));
        },
    };

    let result = bit_subtract(value, 1, false);

    emulator.set_flag(Flag::H, result.half_borrow);
    emulator.set_flag(Flag::N, true);
    emulator.set_flag(Flag::Z, result.value == 0);

    match emulator.write_hl_location(result.value) {
        Ok(u) => Ok(u),
        Err(e) => Err(OpError::Memory(e)),
    }
}

/// The exact contract of `dec_hl_location`: relates the state after the body to
/// the state before, together with the result.
pub open spec fn dec_hl_location_rel(pre: Emulator, post: Emulator, opcode: u8, r: OpResult) -> bool {
    ({
            let location = pre.pair_value(RegisterPair::Hl);
            match pre.memory_mapping.spec_read(location) {
                Ok(value) => ({
                    let result = sub8_value(value, 1, false);
                    &&& mem_step(pre, post, location, result)
                    &&& post == (Emulator {
                        cycles_processed: bump_cycles(bump_cycles(pre.cycles_processed)),
                        flag_h: sub8_half_borrow(value, 1, false),
                        flag_n: true,
                        flag_z: result == 0,
                        memory_mapping: post.memory_mapping,
                        ..pre
                    })
                    &&& r == match pre.memory_mapping.spec_write(location, result) {
                        Ok(u) => Ok::<(), OpError>(u),
                        Err(e) => Err::<(), OpError>(OpError::Memory(e)),
                    }
                }),
                Err(e) => r == Err::<(), OpError>(OpError::Memory(e)) && post
                    == (Emulator {
                    cycles_processed: bump_cycles(pre.cycles_processed),
                    ..pre
                }),
            }
        })
}

/// DEC r
///
/// r <- r - 1
///
/// Decrements the contents of register r, updating Z, N and H and
/// preserving CY.
pub fn dec_register(emulator: &mut Emulator, opcode: u8) -> (r: OpResult)
    ensures
        dec_register_rel(*old(emulator), *final(emulator), opcode, r),
{
    let register = match opcode.parse_register(0b00_111_000) {
        Ok(register) => register,
        Err(e) => {
            return Err(op_error(e));
        },
    };

    let value = emulator.register(&register);
    let result = bit_subtract(value, 1, false);

    emulator.set_register(register, result.value);

    emulator.set_flag(Flag::H, result.half_borrow);
    emulator.set_flag(Flag::N, true);
    emulator.set_flag(Flag::Z, result.value == 0);

    Ok(())
}

/// The exact contract of `dec_register`: relates the state after the body to
/// the state before, together with the result.
pub open spec fn dec_register_rel(pre: Emulator, post: Emulator, opcode: u8, r: OpResult) -> bool {
    match spec_parse_register(opcode, 0b00_111_000) {
            Ok(register) => ({
                let value = pre.reg_val(register);
                r is Ok && post == (Emulator {
                    flag_h: sub8_half_borrow(value, 1, false),
                    flag_n: true,
                    flag_z: sub8_value(value, 1, false) == 0,
                    ..pre.with_reg(register, sub8_value(value, 1, false))
                })
            }),
            Err(e) => r == Err::<(), OpError>(spec_op_error(e)) && post == pre,
        }
}

/// DEC ss
///
/// ss <- ss - 1
///
/// Decrements the contents of register pair ss (the stack pointer for code
/// 0b11) by 1, with wrap-around and no flag updates.
pub fn dec_register_pair(emulator: &mut Emulator, opcode: u8) -> (r: OpResult)
    ensures
        dec_register_pair_rel(*old(emulator), *final(emulator), opcode, r),
{
    let register_pair = match opcode.parse_register_pair(0b00_110_000) {
        Ok(register_pair) => register_pair,
        Err(e) => {
            return Err(op_error(e));
        },
    };

    if register_pair == RegisterPair::Af {
        let value = emulator.stack_pointer().wrapping_sub(1);

        emulator.set_stack_pointer(value);
    } else {
        let value = emulator.register_pair(&register_pair).wrapping_sub(1);

        emulator.set_register_pair(register_pair, value);
    }

    Ok(())
}

/// The exact contract of `dec_register_pair`: relates the state after the body to
/// the state before, together with the result.
pub open spec fn dec_register_pair_rel(pre: Emulator, post: Emulator, opcode: u8, r: OpResult) -> bool {
    match spec_parse_register_pair(opcode, 0b00_110_000) {
            Ok(register_pair) => r is Ok && post == (if register_pair
                == RegisterPair::Af {
                (Emulator {
                    stack_pointer: ((pre.stack_pointer + 0xffff) % 0x10000) as u16,
                    ..pre
                })
            } else {
                pre.with_pair(
                    register_pair,
                    ((pre.pair_value(register_pair) + 0xffff) % 0x10000) as u16,
                )
            }),
            Err(e) => r == Err::<(), OpError>(spec_op_error(e)) && post == pre,
        }
}

/// INC (HL)
///
/// (HL) <- (HL) + 1
///
/// Increments the contents of memory specified by register pair HL,
/// updating Z, N and H and preserving CY.
pub fn inc_hl_location(emulator: &mut Emulator, opcode: u8) -> (r: OpResult)
    requires
        old(emulator).wf(),
    ensures
        final(emulator).wf(),
        inc_hl_location_rel(*old(emulator), *final(emulator), opcode, r),
{
    let value = match emulator.read_hl_location() {
        Ok(value) => value,
        Err(e) => {
            return Err(OpError::Memory(e));
        },
    };

    let result = bit_add(value, 1, false);

    emulator.set_flag(Flag::H, result.half_carry);
    emulator.set_flag(Flag::N, false);
    emulator.set_flag(Flag::Z, result.value == 0);

    match emulator.write_hl_location(result.value) {
        Ok(u) => Ok(u),
        Err(e) => Err(OpError::Memory(e)),
    }
}

/// The exact contract of `inc_hl_location`: relates the state after the body to
/// the state before, together with the result.
pub open spec fn inc_hl_location_rel(pre: Emulator, post: Emulator, opcode: u8, r: OpResult) -> bool {
    ({
            let location = pre.pair_value(RegisterPair::Hl);
            match pre.memory_mapping.spec_read(location) {
                Ok(value) => ({
                    let result = add8_value(value, 1, false);
                    &&& mem_step(pre, post, location, result)
                    &&& post == (Emulator {
                        cycles_processed: bump_cycles(bump_cycles(pre.cycles_processed)),
                        flag_h: add8_half_carry(value, 1, false),
                        flag_n: false,
                        flag_z: result == 0,
                        memory_mapping: post.memory_mapping,
                        ..pre
                    })
                    &&& r == match pre.memory_mapping.spec_write(location, result) {
                        Ok(u) => Ok::<(), OpError>(u),
                        Err(e) => Err::<(), OpError>(OpError::Memory(e)),
                    }
                }),
                Err(e) => r == Err::<(), OpError>(OpError::Memory(e)) && post
                    == (Emulator {
                    cycles_processed: bump_cycles(pre.cycles_processed),
                    ..pre
                }),
            }
        })
}

/// INC r
///
/// r <- r + 1
///
/// Increments the contents of register r, updating Z, N and H and
/// preserving CY.
pub fn inc_register(emulator: &mut Emulator, opcode: u8) -> (r: OpResult)
    ensures
        inc_register_rel(*old(emulator), *final(emulator), opcode, r),
{
    let register = match opcode.parse_register(0b00_111_000) {
        Ok(register) => register,
        Err(e) => {
            return Err(op_error(e));
        },
    };

    let value = emulator.register(&register);
    let result = bit_add(value, 1, false);

    emulator.set_register(register, result.value);

    emulator.set_flag(Flag::H, result.half_carry);
    emulator.set_flag(Flag::N, false);
    emulator.set_flag(Flag::Z, result.value == 0);

    Ok(())
}

/// The exact contract of `inc_register`: relates the state after the body to
/// the state before, together with the result.
pub open spec fn inc_register_rel(pre: Emulator, post: Emulator, opcode: u8, r: OpResult) -> bool {
    match spec_parse_register(opcode, 0b00_111_000) {
            Ok(register) => ({
                let value = pre.reg_val(register);
                r is Ok && post == (Emulator {
                    flag_h: add8_half_carry(value, 1, false),
                    flag_n: false,
                    flag_z: add8_value(value, 1, false) == 0,
                    ..pre.with_reg(register, add8_value(value, 1, false))
                })
            }),
            Err(e) => r == Err::<(), OpError>(spec_op_error(e)) && post == pre,
        }
}

/// INC ss
///
/// ss <- ss + 1
///
/// Increments the contents of register pair ss (the stack pointer for code
/// 0b11) by 1, with wrap-around and no flag updates.
pub fn inc_register_pair(emulator: &mut Emulator, opcode: u8) -> (r: OpResult)
    ensures
        inc_register_pair_rel(*old(emulator), *final(emulator), opcode, r),
{
    let register_pair = match opcode.parse_register_pair(0b00_110_000) {
        Ok(register_pair) => register_pair,
        Err(e) => {
            return Err(op_error(e));
        },
    };

    if register_pair == RegisterPair::Af {
        let value = emulator.stack_pointer().wrapping_add(1);

        emulator.set_stack_pointer(value);
    } else {
        let value = emulator.register_pair(&register_pair).wrapping_add(1);

        emulator.set_register_pair(register_pair, value);
    }

    Ok(())
}

/// The exact contract of `inc_register_pair`: relates the state after the body to
/// the state before, together with the result.
pub open spec fn inc_register_pair_rel(pre: Emulator, post: Emulator, opcode: u8, r: OpResult) -> bool {
    match spec_parse_register_pair(opcode, 0b00_110_000) {
            Ok(register_pair) => r is Ok && post == (if register_pair
                == RegisterPair::Af {
                (Emulator {
                    stack_pointer: ((pre.stack_pointer + 1) % 0x10000) as u16,
                    ..pre
                })
            } else {
                pre.with_pair(
                    register_pair,
                    ((pre.pair_value(register_pair) + 1) % 0x10000) as u16,
                )
            }),
            Err(e) => r == Err::<(), OpError>(spec_op_error(e)) && post == pre,
        }
}

/// SUB A, (HL)
///
/// A <- A - (HL)
///
/// Subtracts the contents of memory specified by register pair HL from the
/// contents of register A and stores the results in register A.
pub fn sub_hl_location_from_a(emulator: &mut Emulator, opcode: u8) -> (r: OpResult)
    requires
        old(emulator).wf(),
    ensures
        final(emulator).wf(),
        sub_hl_location_from_a_rel(*old(emulator), *final(emulator), opcode, r),
{
    let value = match emulator.read_hl_location() {
        Ok(value) => value,
        Err(e) => {
            return Err(OpError::Memory(e));
        },
    };

    emulator.subtract_from_a(value, false);

    Ok(())
}

/// The exact contract of `sub_hl_location_from_a`: relates the state after the body to
/// the state before, together with the result.
pub open spec fn sub_hl_location_from_a_rel(pre: Emulator, post: Emulator, opcode: u8, r: OpResult) -> bool {
    ({
            let location = pre.pair_value(RegisterPair::Hl);
            match pre.memory_mapping.spec_read(location) {
                Ok(value) => r is Ok && post == (Emulator {
                    cycles_processed: bump_cycles(pre.cycles_processed),
                    a: sub8_value(pre.a, value, false),
                    flag_cy: sub8_borrow(pre.a, value, false),
                    flag_h: sub8_half_borrow(pre.a, value, false),
                    flag_n: true,
                    flag_z: sub8_value(pre.a, value, false) == 0,
                    ..pre
                }),
                Err(e) => r == Err::<(), OpError>(OpError::Memory(e)) && post
                    == (Emulator {
                    cycles_processed: bump_cycles(pre.cycles_processed),
                    ..pre
                }),
            }
        })
}

/// SUB A, n
///
/// A <- A - n
///
/// Subtracts 8-bit immediate operand n from the contents of register A and
/// stores the results in register A.
pub fn sub_immediate_n_from_a(emulator: &mut Emulator, opcode: u8) -> (r: OpResult)
    requires
        old(emulator).wf(),
    ensures
        final(emulator).wf(),
        sub_immediate_n_from_a_rel(*old(emulator), *final(emulator), opcode, r),
{
    let n = match emulator.read_immediate_n() {
        Ok(value) => value,
        Err(e) => {
            return Err(OpError::Memory(e));
        },
    };

    emulator.subtract_from_a(n, false);

    Ok(())
}

/// The exact contract of `sub_immediate_n_from_a`: relates the state after the body to
/// the state before, together with the result.
pub open spec fn sub_immediate_n_from_a_rel(pre: Emulator, post: Emulator, opcode: u8, r: OpResult) -> bool {
    ({
            match pre.memory_mapping.spec_read(pre.program_counter) {
                Ok(value) => r is Ok && post == (Emulator {
                    cycles_processed: bump_cycles(pre.cycles_processed),
                    program_counter: ((pre.program_counter + 1) % 0x10000) as u16,
                    a: sub8_value(pre.a, value, false),
                    flag_cy: sub8_borrow(pre.a, value, false),
                    flag_h: sub8_half_borrow(pre.a, value, false),
                    flag_n: true,
                    flag_z: sub8_value(pre.a, value, false) == 0,
                    ..pre
                }),
                Err(e) => r == Err::<(), OpError>(OpError::Memory(e)) && post
                    == (Emulator {
                    cycles_processed: bump_cycles(pre.cycles_processed),
                    program_counter: ((pre.program_counter + 1) % 0x10000) as u16,
                    ..pre
                }),
            }
        })
}

/// SUB A, r
///
/// A <- A - r
///
/// Subtracts the contents of register r from those of register A and stores
/// the results in register A.
pub fn sub_register_from_a(emulator: &mut Emulator, opcode: u8) -> (r: OpResult)
    ensures
        sub_register_from_a_rel(*old(emulator), *final(emulator), opcode, r),
{
    let register = match opcode.parse_register(0b00000111) {
        Ok(register) => register,
        Err(e) => {
            return Err(op_error(e));
        },
    };

    let value = emulator.register(&register);

    emulator.subtract_from_a(value, false);

    Ok(())
}

/// The exact contract of `sub_register_from_a`: relates the state after the body to
/// the state before, together with the result.
pub open spec fn sub_register_from_a_rel(pre: Emulator, post: Emulator, opcode: u8, r: OpResult) -> bool {
    match spec_parse_register(opcode, 0b00000111) {
            Ok(register) => ({
                let value = pre.reg_val(register);
                r is Ok && post == (Emulator {
                    a: sub8_value(pre.a, value, false),
                    flag_cy: sub8_borrow(pre.a, value, false),
                    flag_h: sub8_half_borrow(pre.a, value, false),
                    flag_n: true,
                    flag_z: sub8_value(pre.a, value, false) == 0,
                    ..pre
                })
            }),
            Err(e) => r == Err::<(), OpError>(spec_op_error(e)) && post == pre,
        }
}

/// SBC A, (HL)
///
/// A <- A - (HL) - CY
///
/// Subtracts the contents of memory specified by register pair HL and CY
/// from the contents of register A and stores the results in register A.
pub fn sub_with_carry_hl_location_from_a(emulator: &mut Emulator, opcode: u8) -> (r: OpResult)
    requires
        old(emulator).wf(),
    ensures
        final(emulator).wf(),
        sub_with_carry_hl_location_from_a_rel(*old(emulator), *final(emulator), opcode, r),
{
    let value = match emulator.read_hl_location() {
        Ok(value) => value,
        Err(e) => {
            return Err(OpError::Memory(e));
        },
    };

    emulator.subtract_from_a(value, true);

    Ok(())
}

/// The exact contract of `sub_with_carry_hl_location_from_a`: relates the state after the body to
/// the state before, together with the result.
pub open spec fn sub_with_carry_hl_location_from_a_rel(pre: Emulator, post: Emulator, opcode: u8, r: OpResult) -> bool {
    ({
            let location = pre.pair_value(RegisterPair::Hl);
            let carry = pre.flag_cy;
            match pre.memory_mapping.spec_read(location) {
                Ok(value) => r is Ok && post == (Emulator {
                    cycles_processed: bump_cycles(pre.cycles_processed),
                    a: sub8_value(pre.a, value, carry),
                    flag_cy: sub8_borrow(pre.a, value, carry),
                    flag_h: sub8_half_borrow(pre.a, value, carry),
                    flag_n: true,
                    flag_z: sub8_value(pre.a, value, carry) == 0,
                    ..pre
                }),
                Err(e) => r == Err::<(), OpError>(OpError::Memory(e)) && post
                    == (Emulator {
                    cycles_processed: bump_cycles(pre.cycles_processed),
                    ..pre
                }),
            }
        })
}

/// SBC A, n
///
/// A <- A - n - CY
///
/// Subtracts 8-bit immediate operand n and CY from the contents of register
/// A and stores the results in register A.
pub fn sub_with_carry_immediate_n_from_a(emulator: &mut Emulator, opcode: u8) -> (r: OpResult)
    requires
        old(emulator).wf(),
    ensures
        final(emulator).wf(),
        sub_with_carry_immediate_n_from_a_rel(*old(emulator), *final(emulator), opcode, r),
{
    let n = match emulator.read_immediate_n() {
        Ok(value) => value,
        Err(e) => {
            return Err(OpError::Memory(e));
        },
    };

    emulator.subtract_from_a(n, true);

    Ok(())
}

/// The exact contract of `sub_with_carry_immediate_n_from_a`: relates the state after the body to
/// the state before, together with the result.
pub open spec fn sub_with_carry_immediate_n_from_a_rel(pre: Emulator, post: Emulator, opcode: u8, r: OpResult) -> bool {
    ({
            let carry = pre.flag_cy;
            match pre.memory_mapping.spec_read(pre.program_counter) {
                Ok(value) => r is Ok && post == (Emulator {
                    cycles_processed: bump_cycles(pre.cycles_processed),
                    program_counter: ((pre.program_counter + 1) % 0x10000) as u16,
                    a: sub8_value(pre.a, value, carry),
                    flag_cy: sub8_borrow(pre.a, value, carry),
                    flag_h: sub8_half_borrow(pre.a, value, carry),
                    flag_n: true,
                    flag_z: sub8_value(pre.a, value, carry) == 0,
                    ..pre
                }),
                Err(e) => r == Err::<(), OpError>(OpError::Memory(e)) && post
                    == (Emulator {
                    cycles_processed: bump_cycles(pre.cycles_processed),
                    program_counter: ((pre.program_counter + 1) % 0x10000) as u16,
                    ..pre
                }),
            }
        })
}

/// SBC A, r
///
/// A <- A - r - CY
///
/// Subtracts the contents of register r and CY from those of register A and
/// stores the results in register A.
pub fn sub_with_carry_register_from_a(emulator: &mut Emulator, opcode: u8) -> (r: OpResult)
    ensures
        sub_with_carry_register_from_a_rel(*old(emulator), *final(emulator), opcode, r),
{
    let register = match opcode.parse_register(0b00000111) {
        Ok(register) => register,
        Err(e) => {
            return Err(op_error(e));
        },
    };

    let value = emulator.register(&register);

    emulator.subtract_from_a(value, true);

    Ok(())
}

/// The exact contract of `sub_with_carry_register_from_a`: relates the state after the body to
/// the state before, together with the result.
pub open spec fn sub_with_carry_register_from_a_rel(pre: Emulator, post: Emulator, opcode: u8, r: OpResult) -> bool {
    match spec_parse_register(opcode, 0b00000111) {
            Ok(register) => ({
                let value = pre.reg_val(register);
                let carry = pre.flag_cy;
                r is Ok && post == (Emulator {
                    a: sub8_value(pre.a, value, carry),
                    flag_cy: sub8_borrow(pre.a, value, carry),
                    flag_h: sub8_half_borrow(pre.a, value, carry),
                    flag_n: true,
                    flag_z: sub8_value(pre.a, value, carry) == 0,
                    ..pre
                })
            }),
            Err(e) => r == Err::<(), OpError>(spec_op_error(e)) && post == pre,
        }
}

} // verus!
