//! The rotate and shift instruction family: rotates through and around the
//! carry, arithmetic and logical shifts, and the nibble swap, on a
//! register, on the (HL) memory operand, and the four A-specialised rotate
//! forms that force Z clear. CY receives the shifted-out bit; H and N are
//! cleared; the CB-prefixed forms set Z from the result.

use vstd::prelude::*;

use crate::emulator::{bump_cycles, mem_step, Emulator};
use crate::flag::Flag;
use crate::instruction::{op_error, spec_op_error, OpError, OpResult};
use crate::opcode::{spec_parse_register, Opcode};
use crate::register::RegisterPair;

verus! {

/// A byte rotated left by one, with the given bit fed into bit 0.
pub open spec fn rotate_left_value(value: u8, low_bit: bool) -> u8 {
    ((value % 128) * 2 + (if low_bit {
        1int
    } else {
        0int
    })) as u8
}

/// A byte rotated right by one, with the given bit fed into bit 7.
pub open spec fn rotate_right_value(value: u8, high_bit: bool) -> u8 {
    (value / 2 + (if high_bit {
        128int
    } else {
        0int
    })) as u8
}

/// A byte with its high and low nibbles exchanged.
pub open spec fn swap_value(value: u8) -> u8 {
    (value / 16 + (value % 16) * 16) as u8
}

/// Rotates a value left: bit 7 goes to CY; bit 0 receives bit 7 for the
/// copy form and the old CY otherwise. H and N are cleared and Z follows
/// the result.
fn rotate_value_left(emulator: &mut Emulator, value: u8, with_copy: bool) -> (r: u8)
    ensures
        ({
            let low_bit = if with_copy {
                value >= 128
            } else {
                old(emulator).flag_cy
            };
            r == rotate_left_value(value, low_bit) && *final(emulator) == (Emulator {
                flag_cy: value >= 128,
                flag_h: false,
                flag_n: false,
                flag_z: rotate_left_value(value, low_bit) == 0,
                ..*old(emulator)
            })
        }),
{
    let low_bit: u8 = if with_copy {
        if value >= 128 {
            1
        } else {
            0
        }
    } else {
        if emulator.flag(Flag::CY) {
            1
        } else {
            0
        }
    };

    let rotated = (value % 128) * 2 + low_bit;

    emulator.set_flag(Flag::CY, value >= 128);
    emulator.set_flag(Flag::H, false);
    emulator.set_flag(Flag::N, false);
    emulator.set_flag(Flag::Z, rotated == 0);

    rotated
}

/// Rotates a value right: bit 0 goes to CY; bit 7 receives bit 0 for the
/// copy form and the old CY otherwise. H and N are cleared and Z follows
/// the result.
fn rotate_value_right(emulator: &mut Emulator, value: u8, with_copy: bool) -> (r: u8)
    ensures
        ({
            let high_bit = if with_copy {
                value % 2 == 1
            } else {
                old(emulator).flag_cy
            };
            r == rotate_right_value(value, high_bit) && *final(emulator) == (Emulator {
                flag_cy: value % 2 == 1,
                flag_h: false,
                flag_n: false,
                flag_z: rotate_right_value(value, high_bit) == 0,
                ..*old(emulator)
            })
        }),
{
    let high_bit: u8 = if with_copy {
        value % 2
    } else {
        if emulator.flag(Flag::CY) {
            1
        } else {
            0
        }
    };

    let rotated = value / 2 + high_bit * 128;

    emulator.set_flag(Flag::CY, value % 2 == 1);
    emulator.set_flag(Flag::H, false);
    emulator.set_flag(Flag::N, false);
    emulator.set_flag(Flag::Z, rotated == 0);

    rotated
}

/// Shifts a value left by one: bit 7 goes to CY and zero enters bit 0.
fn shift_value_left(emulator: &mut Emulator, value: u8) -> (r: u8)
    ensures
        r == rotate_left_value(value, false),
        *final(emulator) == (Emulator {
            flag_cy: value >= 128,
            flag_h: false,
            flag_n: false,
            flag_z: rotate_left_value(value, false) == 0,
            ..*old(emulator)
        }),
{
    let shifted = (value % 128) * 2;

    emulator.set_flag(Flag::CY, value >= 128);
    emulator.set_flag(Flag::H, false);
    emulator.set_flag(Flag::N, false);
    emulator.set_flag(Flag::Z, shifted == 0);

    shifted
}

/// Shifts a value right by one: bit 0 goes to CY; bit 7 is preserved for
/// the arithmetic form and zeroed for the logical form.
fn shift_value_right(emulator: &mut Emulator, value: u8, copy_bit: bool) -> (r: u8)
    ensures
        ({
            let high_bit = copy_bit && value >= 128;
            r == rotate_right_value(value, high_bit) && *final(emulator) == (Emulator {
                flag_cy: value % 2 == 1,
                flag_h: false,
                flag_n: false,
                flag_z: rotate_right_value(value, high_bit) == 0,
                ..*old(emulator)
            })
        }),
{
    let high_bit: u8 = if copy_bit && value >= 128 {
        1
    } else {
        0
    };

    let shifted = value / 2 + high_bit * 128;

    emulator.set_flag(Flag::CY, value % 2 == 1);
    emulator.set_flag(Flag::H, false);
    emulator.set_flag(Flag::N, false);
    emulator.set_flag(Flag::Z, shifted == 0);

    shifted
}

/// RLCA
///
/// Rotates the contents of register A to the left; bit 7 is copied to both
/// the CY flag and bit 0. Z is forced clear.
pub fn rotate_a_left_copy_carry(emulator: &mut Emulator, opcode: u8) -> (r: OpResult)
    ensures
        rotate_a_left_copy_carry_rel(*old(emulator), *final(emulator), opcode, r),
{
    let value = emulator.a();

    let rotated = rotate_value_left(emulator, value, true);

    emulator.set_a(rotated);

    emulator.set_flag(Flag::Z, false);

    Ok(())
}

/// The exact contract of `rotate_a_left_copy_carry`: relates the state after the body to
/// the state before, together with the result.
pub open spec fn rotate_a_left_copy_carry_rel(pre: Emulator, post: Emulator, opcode: u8, r: OpResult) -> bool {
    &&& r is Ok
    &&& post == (Emulator {
            a: rotate_left_value(pre.a, pre.a >= 128),
            flag_cy: pre.a >= 128,
            flag_h: false,
            flag_n: false,
            flag_z: false,
            ..pre
        })
}

/// RLA
///
/// Rotates the contents of register A to the left through the CY flag: bit
/// 7 goes to CY and the old CY enters bit 0. Z is forced clear.
pub fn rotate_a_left_through_carry(emulator: &mut Emulator, opcode: u8) -> (r: OpResult)
    ensures
        rotate_a_left_through_carry_rel(*old(emulator), *final(emulator), opcode, r),
{
    let value = emulator.a();

    let rotated = rotate_value_left(emulator, value, false);

    emulator.set_a(rotated);

    emulator.set_flag(Flag::Z, false);

    Ok(())
}

/// The exact contract of `rotate_a_left_through_carry`: relates the state after the body to
/// the state before, together with the result.
pub open spec fn rotate_a_left_through_carry_rel(pre: Emulator, post: Emulator, opcode: u8, r: OpResult) -> bool {
    &&& r is Ok
    &&& post == (Emulator {
            a: rotate_left_value(pre.a, pre.flag_cy),
            flag_cy: pre.a >= 128,
            flag_h: false,
            flag_n: false,
            flag_z: false,
            ..pre
        })
}

/// RRCA
///
/// Rotates the contents of register A to the right; bit 0 is copied to
/// both the CY flag and bit 7. Z is forced clear.
pub fn rotate_a_right_copy_carry(emulator: &mut Emulator, opcode: u8) -> (r: OpResult)
    ensures
        rotate_a_right_copy_carry_rel(*old(emulator), *final(emulator), opcode, r),
{
    let value = emulator.a();

    let rotated = rotate_value_right(emulator, value, true);

    emulator.set_a(rotated);

    emulator.set_flag(Flag::Z, false);

    Ok(())
}

/// The exact contract of `rotate_a_right_copy_carry`: relates the state after the body to
/// the state before, together with the result.
pub open spec fn rotate_a_right_copy_carry_rel(pre: Emulator, post: Emulator, opcode: u8, r: OpResult) -> bool {
    &&& r is Ok
    &&& post == (Emulator {
            a: rotate_right_value(pre.a, pre.a % 2 == 1),
            flag_cy: pre.a % 2 == 1,
            flag_h: false,
            flag_n: false,
            flag_z: false,
            ..pre
        })
}

/// RRA
///
/// Rotates the contents of register A to the right through the CY flag:
/// bit 0 goes to CY and the old CY enters bit 7. Z is forced clear.
pub fn rotate_a_right_through_carry(emulator: &mut Emulator, opcode: u8) -> (r: OpResult)
    ensures
        rotate_a_right_through_carry_rel(*old(emulator), *final(emulator), opcode, r),
{
    let value = emulator.a();

    let rotated = rotate_value_right(emulator, value, false);

    emulator.set_a(rotated);

    emulator.set_flag(Flag::Z, false);

    Ok(())
}

/// The exact contract of `rotate_a_right_through_carry`: relates the state after the body to
/// the state before, together with the result.
pub open spec fn rotate_a_right_through_carry_rel(pre: Emulator, post: Emulator, opcode: u8, r: OpResult) -> bool {
    &&& r is Ok
    &&& post == (Emulator {
            a: rotate_right_value(pre.a, pre.flag_cy),
            flag_cy: pre.a % 2 == 1,
            flag_h: false,
            flag_n: false,
            flag_z: false,
            ..pre
        })
}

/// RLC (HL)
///
/// Rotates the contents of memory specified by register pair HL to the
/// left; bit 7 is copied to both the CY flag and bit 0.
pub fn rotate_hl_location_left_copy_carry(emulator: &mut Emulator, opcode: u8) -> (r: OpResult)
    requires
        old(emulator).wf(),
    ensures
        final(emulator).wf(),
        rotate_hl_location_left_copy_carry_rel(*old(emulator), *final(emulator), opcode, r),
{
    let value = match emulator.read_hl_location() {
        Ok(value) => value,
        Err(e) => {
            return Err(OpError::Memory(e));
        },
    };

    let rotated = rotate_value_left(emulator, value, true);

    match emulator.write_hl_location(rotated) {
        Ok(u) => Ok(u),
        Err(e) => Err(OpError::Memory(e)),
    }
}

/// The exact contract of `rotate_hl_location_left_copy_carry`: relates the state after the body to
/// the state before, together with the result.
pub open spec fn rotate_hl_location_left_copy_carry_rel(pre: Emulator, post: Emulator, opcode: u8, r: OpResult) -> bool {
    ({
            let location = pre.pair_value(RegisterPair::Hl);
            match pre.memory_mapping.spec_read(location) {
                Ok(value) => ({
                    let result = rotate_left_value(value, value >= 128);
                    &&& mem_step(pre, post, location, result)
                    &&& post == (Emulator {
                        cycles_processed: bump_cycles(bump_cycles(pre.cycles_processed)),
                        flag_cy: value >= 128,
                        flag_h: false,
                        flag_n: false,
                        flag_z: result == 0,
                        memory_mapping: post.memory_mapping,
                        ..pre
                    })
                    &&& r == match pre.memory_mapping.spec_write(location, result) {
                        Ok(u) => Ok::<(), OpError>(u),
                        Err(e) => Err::<(), OpError>(OpError::Memory(e)),
                    }
                }),
                Err(e) => r == Err::<(), OpError>(OpError::Memory(e)) && post
                    == (Emulator {
                    cycles_processed: bump_cycles(pre.cycles_processed),
                    ..pre
                }),
            }
        })
}

/// RL (HL)
///
/// Rotates the contents of memory specified by register pair HL to the
/// left through the CY flag.
pub fn rotate_hl_location_left_through_carry(emulator: &mut Emulator, opcode: u8) -> (r: OpResult)
    requires
        old(emulator).wf(),
    ensures
        final(emulator).wf(),
        rotate_hl_location_left_through_carry_rel(*old(emulator), *final(emulator), opcode, r),
{
    let value = match emulator.read_hl_location() {
        Ok(value) => value,
        Err(e) => {
            return Err(OpError::Memory(e));
        },
    };

    let rotated = rotate_value_left(emulator, value, false);

    match emulator.write_hl_location(rotated) {
        Ok(u) => Ok(u),
        Err(e) => Err(OpError::Memory(e)),
    }
}

/// The exact contract of `rotate_hl_location_left_through_carry`: relates the state after the body to
/// the state before, together with the result.
pub open spec fn rotate_hl_location_left_through_carry_rel(pre: Emulator, post: Emulator, opcode: u8, r: OpResult) -> bool {
    ({
            let location = pre.pair_value(RegisterPair::Hl);
            match pre.memory_mapping.spec_read(location) {
                Ok(value) => ({
                    let result = rotate_left_value(value, pre.flag_cy);
                    &&& mem_step(pre, post, location, result)
                    &&& post == (Emulator {
                        cycles_processed: bump_cycles(bump_cycles(pre.cycles_processed)),
                        flag_cy: value >= 128,
                        flag_h: false,
                        flag_n: false,
                        flag_z: result == 0,
                        memory_mapping: post.memory_mapping,
                        ..pre
                    })
                    &&& r == match pre.memory_mapping.spec_write(location, result) {
                        Ok(u) => Ok::<(), OpError>(u),
                        Err(e) => Err::<(), OpError>(OpError::Memory(e)),
                    }
                }),
                Err(e) => r == Err::<(), OpError>(OpError::Memory(e)) && post
                    == (Emulator {
                    cycles_processed: bump_cycles(pre.cycles_processed),
                    ..pre
                }),
            }
        })
}

/// RRC (HL)
///
/// Rotates the contents of memory specified by register pair HL to the
/// right; bit 0 is copied to both the CY flag and bit 7.
pub fn rotate_hl_location_right_copy_carry(emulator: &mut Emulator, opcode: u8) -> (r: OpResult)
    requires
        old(emulator).wf(),
    ensures
        final(emulator).wf(),
        rotate_hl_location_right_copy_carry_rel(*old(emulator), *final(emulator), opcode, r),
{
    let value = match emulator.read_hl_location() {
        Ok(value) => value,
        Err(e) => {
            return Err(OpError::Memory(e));
        },
    };

    let rotated = rotate_value_right(emulator, value, true);

    match emulator.write_hl_location(rotated) {
        Ok(u) => Ok(u),
        Err(e) => Err(OpError::Memory(e)),
    }
}

/// The exact contract of `rotate_hl_location_right_copy_carry`: relates the state after the body to
/// the state before, together with the result.
pub open spec fn rotate_hl_location_right_copy_carry_rel(pre: Emulator, post: Emulator, opcode: u8, r: OpResult) -> bool {
    ({
            let location = pre.pair_value(RegisterPair::Hl);
            match pre.memory_mapping.spec_read(location) {
                Ok(value) => ({
                    let result = rotate_right_value(value, value % 2 == 1);
                    &&& mem_step(pre, post, location, result)
                    &&& post == (Emulator {
                        cycles_processed: bump_cycles(bump_cycles(pre.cycles_processed)),
                        flag_cy: value % 2 == 1,
                        flag_h: false,
                        flag_n: false,
                        flag_z: result == 0,
                        memory_mapping: post.memory_mapping,
                        ..pre
                    })
                    &&& r == match pre.memory_mapping.spec_write(location, result) {
                        Ok(u) => Ok::<(), OpError>(u),
                        Err(e) => Err::<(), OpError>(OpError::Memory(e)),
                    }
                }),
                Err(e) => r == Err::<(), OpError>(OpError::Memory(e)) && post
                    == (Emulator {
                    cycles_processed: bump_cycles(pre.cycles_processed),
                    ..pre
                }),
            }
        })
}

/// RR (HL)
///
/// Rotates the contents of memory specified by register pair HL to the
/// right through the CY flag.
pub fn rotate_hl_location_right_through_carry(emulator: &mut Emulator, opcode: u8) -> (r: OpResult)
    requires
        old(emulator).wf(),
    ensures
        final(emulator).wf(),
        rotate_hl_location_right_through_carry_rel(*old(emulator), *final(emulator), opcode, r),
{
    let value = match emulator.read_hl_location() {
        Ok(value) => value,
        Err(e) => {
            return Err(OpError::Memory(e));
        },
    };

    let rotated = rotate_value_right(emulator, value, false);

    match emulator.write_hl_location(rotated) {
        Ok(u) => Ok(u),
        Err(e) => Err(OpError::Memory(e)),
    }
}

/// The exact contract of `rotate_hl_location_right_through_carry`: relates the state after the body to
/// the state before, together with the result.
pub open spec fn rotate_hl_location_right_through_carry_rel(pre: Emulator, post: Emulator, opcode: u8, r: OpResult) -> bool {
    ({
            let location = pre.pair_value(RegisterPair::Hl);
            match pre.memory_mapping.spec_read(location) {
                Ok(value) => ({
                    let result = rotate_right_value(value, pre.flag_cy);
                    &&& mem_step(pre, post, location, result)
                    &&& post == (Emulator {
                        cycles_processed: bump_cycles(bump_cycles(pre.cycles_processed)),
                        flag_cy: value % 2 == 1,
                        flag_h: false,
                        flag_n: false,
                        flag_z: result == 0,
                        memory_mapping: post.memory_mapping,
                        ..pre
                    })
                    &&& r == match pre.memory_mapping.spec_write(location, result) {
                        Ok(u) => Ok::<(), OpError>(u),
                        Err(e) => Err::<(), OpError>(OpError::Memory(e)),
                    }
                }),
                Err(e) => r == Err::<(), OpError>(OpError::Memory(e)) && post
                    == (Emulator {
                    cycles_processed: bump_cycles(pre.cycles_processed),
                    ..pre
                }),
            }
        })
}

/// RLC r
///
/// Rotates the contents of register r to the left; bit 7 is copied to both
/// the CY flag and bit 0.
pub fn rotate_register_left_copy_carry(emulator: &mut Emulator, opcode: u8) -> (r: OpResult)
    ensures
        rotate_register_left_copy_carry_rel(*old(emulator), *final(emulator), opcode, r),
{
    let register = match opcode.parse_register(0b00_000_111) {
        Ok(register) => register,
        Err(e) => {
            return Err(op_error(e));
        },
    };

    let value = emulator.register(&register);

    let rotated = rotate_value_left(emulator, value, true);

    emulator.set_register(register, rotated);

    Ok(())
}

/// The exact contract of `rotate_register_left_copy_carry`: relates the state after the body to
/// the state before, together with the result.
pub open spec fn rotate_register_left_copy_carry_rel(pre: Emulator, post: Emulator, opcode: u8, r: OpResult) -> bool {
    match spec_parse_register(opcode, 0b00_000_111) {
            Ok(register) => ({
                let value = pre.reg_val(register);
                let result = rotate_left_value(value, value >= 128);
                r is Ok && post == (Emulator {
                    flag_cy: value >= 128,
                    flag_h: false,
                    flag_n: false,
                    flag_z: result == 0,
                    ..pre.with_reg(register, result)
                })
            }),
            Err(e) => r == Err::<(), OpError>(spec_op_error(e)) && post == pre,
        }
}

/// RL r
///
/// Rotates the contents of register r to the left through the CY flag.
pub fn rotate_register_left_through_carry(emulator: &mut Emulator, opcode: u8) -> (r: OpResult)
    ensures
        rotate_register_left_through_carry_rel(*old(emulator), *final(emulator), opcode, r),
{
    let register = match opcode.parse_register(0b00_000_111) {
        Ok(register) => register,
        Err(e) => {
            return Err(op_error(e));
        },
    };

    let value = emulator.register(&register);

    let rotated = rotate_value_left(emulator, value, false);

    emulator.set_register(register, rotated);

    Ok(())
}

/// The exact contract of `rotate_register_left_through_carry`: relates the state after the body to
/// the state before, together with the result.
pub open spec fn rotate_register_left_through_carry_rel(pre: Emulator, post: Emulator, opcode: u8, r: OpResult) -> bool {
    match spec_parse_register(opcode, 0b00_000_111) {
            Ok(register) => ({
                let value = pre.reg_val(register);
                let result = rotate_left_value(value, pre.flag_cy);
                r is Ok && post == (Emulator {
                    flag_cy: value >= 128,
                    flag_h: false,
                    flag_n: false,
                    flag_z: result == 0,
                    ..pre.with_reg(register, result)
                })
            }),
            Err(e) => r == Err::<(), OpError>(spec_op_error(e)) && post == pre,
        }
}

/// RRC r
///
/// Rotates the contents of register r to the right; bit 0 is copied to
/// both the CY flag and bit 7.
pub fn rotate_register_right_copy_carry(emulator: &mut Emulator, opcode: u8) -> (r: OpResult)
    ensures
        rotate_register_right_copy_carry_rel(*old(emulator), *final(emulator), opcode, r),
{
    let register = match opcode.parse_register(0b00_000_111) {
        Ok(register) => register,
        Err(e) => {
            return Err(op_error(e));
        },
    };

    let value = emulator.register(&register);

    let rotated = rotate_value_right(emulator, value, true);

    emulator.set_register(register, rotated);

    Ok(())
}

/// The exact contract of `rotate_register_right_copy_carry`: relates the state after the body to
/// the state before, together with the result.
pub open spec fn rotate_register_right_copy_carry_rel(pre: Emulator, post: Emulator, opcode: u8, r: OpResult) -> bool {
    match spec_parse_register(opcode, 0b00_000_111) {
            Ok(register) => ({
                let value = pre.reg_val(register);
                let result = rotate_right_value(value, value % 2 == 1);
                r is Ok && post == (Emulator {
                    flag_cy: value % 2 == 1,
                    flag_h: false,
                    flag_n: false,
                    flag_z: result == 0,
                    ..pre.with_reg(register, result)
                })
            }),
            Err(e) => r == Err::<(), OpError>(spec_op_error(e)) && post == pre,
        }
}

/// RR r
///
/// Rotates the contents of register r to the right through the CY flag.
pub fn rotate_register_right_through_carry(emulator: &mut Emulator, opcode: u8) -> (r: OpResult)
    ensures
        rotate_register_right_through_carry_rel(*old(emulator), *final(emulator), opcode, r),
{
    let register = match opcode.parse_register(0b00_000_111) {
        Ok(register) => register,
        Err(e) => {
            return Err(op_error(e));
        },
    };

    let value = emulator.register(&register);

    let rotated = rotate_value_right(emulator, value, false);

    emulator.set_register(register, rotated);

    Ok(())
}

/// The exact contract of `rotate_register_right_through_carry`: relates the state after the body to
/// the state before, together with the result.
pub open spec fn rotate_register_right_through_carry_rel(pre: Emulator, post: Emulator, opcode: u8, r: OpResult) -> bool {
    match spec_parse_register(opcode, 0b00_000_111) {
            Ok(register) => ({
                let value = pre.reg_val(register);
                let result = rotate_right_value(value, pre.flag_cy);
                r is Ok && post == (Emulator {
                    flag_cy: value % 2 == 1,
                    flag_h: false,
                    flag_n: false,
                    flag_z: result == 0,
                    ..pre.with_reg(register, result)
                })
            }),
            Err(e) => r == Err::<(), OpError>(spec_op_error(e)) && post == pre,
        }
}

/// SLA (HL)
///
/// Shifts the contents of memory specified by register pair HL to the
/// left; bit 7 goes to CY and zero enters bit 0.
pub fn shift_hl_location_left(emulator: &mut Emulator, opcode: u8) -> (r: OpResult)
    requires
        old(emulator).wf(),
    ensures
        final(emulator).wf(),
        shift_hl_location_left_rel(*old(emulator), *final(emulator), opcode, r),
{
    let value = match emulator.read_hl_location() {
        Ok(value) => value,
        Err(e) => {
            return Err(OpError::Memory(e));
        },
    };

    let shifted = shift_value_left(emulator, value);

    match emulator.write_hl_location(shifted) {
        Ok(u) => Ok(u),
        Err(e) => Err(OpError::Memory(e)),
    }
}

/// The exact contract of `shift_hl_location_left`: relates the state after the body to
/// the state before, together with the result.
pub open spec fn shift_hl_location_left_rel(pre: Emulator, post: Emulator, opcode: u8, r: OpResult) -> bool {
    ({
            let location = pre.pair_value(RegisterPair::Hl);
            match pre.memory_mapping.spec_read(location) {
                Ok(value) => ({
                    let result = rotate_left_value(value, false);
                    &&& mem_step(pre, post, location, result)
                    &&& post == (Emulator {
                        cycles_processed: bump_cycles(bump_cycles(pre.cycles_processed)),
                        flag_cy: value >= 128,
                        flag_h: false,
                        flag_n: false,
                        flag_z: result == 0,
                        memory_mapping: post.memory_mapping,
                        ..pre
                    })
                    &&& r == match pre.memory_mapping.spec_write(location, result) {
                        Ok(u) => Ok::<(), OpError>(u),
                        Err(e) => Err::<(), OpError>(OpError::Memory(e)),
                    }
                }),
                Err(e) => r == Err::<(), OpError>(OpError::Memory(e)) && post
                    == (Emulator {
                    cycles_processed: bump_cycles(pre.cycles_processed),
                    ..pre
                }),
            }
        })
}

/// SRL (HL)
///
/// Shifts the contents of memory specified by register pair HL to the
/// right; bit 0 goes to CY and zero enters bit 7.
pub fn shift_hl_location_right(emulator: &mut Emulator, opcode: u8) -> (r: OpResult)
    requires
        old(emulator).wf(),
    ensures
        final(emulator).wf(),
        shift_hl_location_right_rel(*old(emulator), *final(emulator), opcode, r),
{
    let value = match emulator.read_hl_location() {
        Ok(value) => value,
        Err(e) => {
            return Err(OpError::Memory(e));
        },
    };

    let shifted = shift_value_right(emulator, value, false);

    match emulator.write_hl_location(shifted) {
        Ok(u) => Ok(u),
        Err(e) => Err(OpError::Memory(e)),
    }
}

/// The exact contract of `shift_hl_location_right`: relates the state after the body to
/// the state before, together with the result.
pub open spec fn shift_hl_location_right_rel(pre: Emulator, post: Emulator, opcode: u8, r: OpResult) -> bool {
    ({
            let location = pre.pair_value(RegisterPair::Hl);
            match pre.memory_mapping.spec_read(location) {
                Ok(value) => ({
                    let result = rotate_right_value(value, false);
                    &&& mem_step(pre, post, location, result)
                    &&& post == (Emulator {
                        cycles_processed: bump_cycles(bump_cycles(pre.cycles_processed)),
                        flag_cy: value % 2 == 1,
                        flag_h: false,
                        flag_n: false,
                        flag_z: result == 0,
                        memory_mapping: post.memory_mapping,
                        ..pre
                    })
                    &&& r == match pre.memory_mapping.spec_write(location, result) {
                        Ok(u) => Ok::<(), OpError>(u),
                        Err(e) => Err::<(), OpError>(OpError::Memory(e)),
                    }
                }),
                Err(e) => r == Err::<(), OpError>(OpError::Memory(e)) && post
                    == (Emulator {
                    cycles_processed: bump_cycles(pre.cycles_processed),
                    ..pre
                }),
            }
        })
}

/// SRA (HL)
///
/// Shifts the contents of memory specified by register pair HL to the
/// right arithmetically; bit 0 goes to CY and bit 7 is preserved.
pub fn shift_hl_location_right_copy_bit(emulator: &mut Emulator, opcode: u8) -> (r: OpResult)
    requires
        old(emulator).wf(),
    ensures
        final(emulator).wf(),
        shift_hl_location_right_copy_bit_rel(*old(emulator), *final(emulator), opcode, r),
{
    let value = match emulator.read_hl_location() {
        Ok(value) => value,
        Err(e) => {
            return Err(OpError::Memory(e));
        },
    };

    let shifted = shift_value_right(emulator, value, true);

    match emulator.write_hl_location(shifted) {
        Ok(u) => Ok(u),
        Err(e) => Err(OpError::Memory(e)),
    }
}

/// The exact contract of `shift_hl_location_right_copy_bit`: relates the state after the body to
/// the state before, together with the result.
pub open spec fn shift_hl_location_right_copy_bit_rel(pre: Emulator, post: Emulator, opcode: u8, r: OpResult) -> bool {
    ({
            let location = pre.pair_value(RegisterPair::Hl);
            match pre.memory_mapping.spec_read(location) {
                Ok(value) => ({
                    let result = rotate_right_value(value, value >= 128);
                    &&& mem_step(pre, post, location, result)
                    &&& post == (Emulator {
                        cycles_processed: bump_cycles(bump_cycles(pre.cycles_processed)),
                        flag_cy: value % 2 == 1,
                        flag_h: false,
                        flag_n: false,
                        flag_z: result == 0,
                        memory_mapping: post.memory_mapping,
                        ..pre
                    })
                    &&& r == match pre.memory_mapping.spec_write(location, result) {
                        Ok(u) => Ok::<(), OpError>(u),
                        Err(e) => Err::<(), OpError>(OpError::Memory(e)),
                    }
                }),
                Err(e) => r == Err::<(), OpError>(OpError::Memory(e)) && post
                    == (Emulator {
                    cycles_processed: bump_cycles(pre.cycles_processed),
                    ..pre
                }),
            }
        })
}

/// SLA r
///
/// Shifts the contents of register r to the left; bit 7 goes to CY and
/// zero enters bit 0.
pub fn shift_register_left(emulator: &mut Emulator, opcode: u8) -> (r: OpResult)
    ensures
        shift_register_left_rel(*old(emulator), *final(emulator), opcode, r),
{
    let register = match opcode.parse_register(0b00_000_111) {
        Ok(register) => register,
        Err(e) => {
            return Err(op_error(e));
        },
    };

    let value = emulator.register(&register);

    let shifted = shift_value_left(emulator, value);

    emulator.set_register(register, shifted);

    Ok(())
}

/// The exact contract of `shift_register_left`: relates the state after the body to
/// the state before, together with the result.
pub open spec fn shift_register_left_rel(pre: Emulator, post: Emulator, opcode: u8, r: OpResult) -> bool {
    match spec_parse_register(opcode, 0b00_000_111) {
            Ok(register) => ({
                let value = pre.reg_val(register);
                let result = rotate_left_value(value, false);
                r is Ok && post == (Emulator {
                    flag_cy: value >= 128,
                    flag_h: false,
                    flag_n: false,
                    flag_z: result == 0,
                    ..pre.with_reg(register, result)
                })
            }),
            Err(e) => r == Err::<(), OpError>(spec_op_error(e)) && post == pre,
        }
}

/// SRL r
///
/// Shifts the contents of register r to the right; bit 0 goes to CY and
/// zero enters bit 7.
pub fn shift_register_right(emulator: &mut Emulator, opcode: u8) -> (r: OpResult)
    ensures
        shift_register_right_rel(*old(emulator), *final(emulator), opcode, r),
{
    let register = match opcode.parse_register(0b00_000_111) {
        Ok(register) => register,
        Err(e) => {
            return Err(op_error(e));
        },
    };

    let value = emulator.register(&register);

    let shifted = shift_value_right(emulator, value, false);

    emulator.set_register(register, shifted);

    Ok(())
}

/// The exact contract of `shift_register_right`: relates the state after the body to
/// the state before, together with the result.
pub open spec fn shift_register_right_rel(pre: Emulator, post: Emulator, opcode: u8, r: OpResult) -> bool {
    match spec_parse_register(opcode, 0b00_000_111) {
            Ok(register) => ({
                let value = pre.reg_val(register);
                let result = rotate_right_value(value, false);
                r is Ok && post == (Emulator {
                    flag_cy: value % 2 == 1,
                    flag_h: false,
                    flag_n: false,
                    flag_z: result == 0,
                    ..pre.with_reg(register, result)
                })
            }),
            Err(e) => r == Err::<(), OpError>(spec_op_error(e)) && post == pre,
        }
}

/// SRA r
///
/// Shifts the contents of register r to the right arithmetically; bit 0
/// goes to CY and bit 7 is preserved.
pub fn shift_register_right_copy_bit(emulator: &mut Emulator, opcode: u8) -> (r: OpResult)
    ensures
        shift_register_right_copy_bit_rel(*old(emulator), *final(emulator), opcode, r),
{
    let register = match opcode.parse_register(0b00_000_111) {
        Ok(register) => register,
        Err(e) => {
            return Err(op_error(e));
        },
    };

    let value = emulator.register(&register);

    let shifted = shift_value_right(emulator, value, true);

    emulator.set_register(register, shifted);

    Ok(())
}

/// The exact contract of `shift_register_right_copy_bit`: relates the state after the body to
/// the state before, together with the result.
pub open spec fn shift_register_right_copy_bit_rel(pre: Emulator, post: Emulator, opcode: u8, r: OpResult) -> bool {
    match spec_parse_register(opcode, 0b00_000_111) {
            Ok(register) => ({
                let value = pre.reg_val(register);
                let result = rotate_right_value(value, value >= 128);
                r is Ok && post == (Emulator {
                    flag_cy: value % 2 == 1,
                    flag_h: false,
                    flag_n: false,
                    flag_z: result == 0,
                    ..pre.with_reg(register, result)
                })
            }),
            Err(e) => r == Err::<(), OpError>(spec_op_error(e)) && post == pre,
        }
}

/// SWAP (HL)
///
/// Exchanges the high and low nibbles of memory specified by register pair
/// HL; Z follows the result, CY, H and N are cleared.
pub fn swap_bits_of_hl_location(emulator: &mut Emulator, opcode: u8) -> (r: OpResult)
    requires
        old(emulator).wf(),
    ensures
        final(emulator).wf(),
        swap_bits_of_hl_location_rel(*old(emulator), *final(emulator), opcode, r),
{
    let value = match emulator.read_hl_location() {
        Ok(value) => value,
        Err(e) => {
            return Err(OpError::Memory(e));
        },
    };

    let swapped = value / 16 + (value % 16) * 16;

    emulator.set_flag(Flag::CY, false);
    emulator.set_flag(Flag::H, false);
    emulator.set_flag(Flag::N, false);
    emulator.set_flag(Flag::Z, swapped == 0);

    match emulator.write_hl_location(swapped) {
        Ok(u) => Ok(u),
        Err(e) => Err(OpError::Memory(e)),
    }
}

/// The exact contract of `swap_bits_of_hl_location`: relates the state after the body to
/// the state before, together with the result.
pub open spec fn swap_bits_of_hl_location_rel(pre: Emulator, post: Emulator, opcode: u8, r: OpResult) -> bool {
    ({
            let location = pre.pair_value(RegisterPair::Hl);
            match pre.memory_mapping.spec_read(location) {
                Ok(value) => ({
                    let result = swap_value(value);
                    &&& mem_step(pre, post, location, result)
                    &&& post == (Emulator {
                        cycles_processed: bump_cycles(bump_cycles(pre.cycles_processed)),
                        flag_cy: false,
                        flag_h: false,
                        flag_n: false,
                        flag_z: result == 0,
                        memory_mapping: post.memory_mapping,
                        ..pre
                    })
                    &&& r == match pre.memory_mapping.spec_write(location, result) {
                        Ok(u) => Ok::<(), OpError>(u),
                        Err(e) => Err::<(), OpError>(OpError::Memory(e)),
                    }
                }),
                Err(e) => r == Err::<(), OpError>(OpError::Memory(e)) && post
                    == (Emulator {
                    cycles_processed: bump_cycles(pre.cycles_processed),
                    ..pre
                }),
            }
        })
}

/// SWAP r
///
/// Exchanges the high and low nibbles of register r; Z follows the result,
/// CY, H and N are cleared.
pub fn swap_bits_of_register(emulator: &mut Emulator, opcode: u8) -> (r: OpResult)
    ensures
        swap_bits_of_register_rel(*old(emulator), *final(emulator), opcode, r),
{
    let register = match opcode.parse_register(0b00_000_111) {
        Ok(register) => register,
        Err(e) => {
            return Err(op_error(e));
        },
    };

    let value = emulator.register(&register);

    let swapped = value / 16 + (value % 16) * 16;

    emulator.set_register(register, swapped);

    emulator.set_flag(Flag::CY, false);
    emulator.set_flag(Flag::H, false);
    emulator.set_flag(Flag::N, false);
    emulator.set_flag(Flag::Z, swapped == 0);

    Ok(())
}

/// The exact contract of `swap_bits_of_register`: relates the state after the body to
/// the state before, together with the result.
pub open spec fn swap_bits_of_register_rel(pre: Emulator, post: Emulator, opcode: u8, r: OpResult) -> bool {
    match spec_parse_register(opcode, 0b00_000_111) {
            Ok(register) => ({
                let value = pre.reg_val(register);
                let result = swap_value(value);
                r is Ok && post == (Emulator {
                    flag_cy: false,
                    flag_h: false,
                    flag_n: false,
                    flag_z: result == 0,
                    ..pre.with_reg(register, result)
                })
            }),
            Err(e) => r == Err::<(), OpError>(spec_op_error(e)) && post == pre,
        }
}

} // verus!
