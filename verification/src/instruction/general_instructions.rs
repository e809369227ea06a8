//! The general instruction family: accumulator complement, decimal adjust,
//! the interrupt-enable latch, carry-flag manipulation, no-operation, the
//! CB prefix, and the Halt and Stop mode transitions.

use vstd::prelude::*;

use crate::bits::{add8_value, sub8_value};
use crate::emulator::{bump_cycles, EmulationState, Emulator};
use crate::flag::Flag;
use crate::instruction::{OpError, OpResult};

verus! {

/// The offset that the decimal adjust adds to or subtracts from the
/// accumulator: 0x06 when the low digit overflowed, 0x60 when the high
/// digit did, as witnessed by the digits themselves after an addition and
/// by the H and CY flags alone after a subtraction.
pub open spec fn daa_offset(a: u8, n: bool, h: bool, cy: bool) -> u8 {
    ((if (!n && a % 16 > 9) || h {
        0x06int
    } else {
        0int
    }) + (if (!n && a > 0x99) || cy {
        0x60int
    } else {
        0int
    })) as u8
}

/// The CY flag after the decimal adjust: set exactly when the 0x60 part of
/// the offset was applied.
pub open spec fn daa_carry(a: u8, n: bool, cy: bool) -> bool {
    (!n && a > 0x99) || cy
}

/// The accumulator after the decimal adjust: the offset is subtracted after
/// a subtraction (N set) and added otherwise, wrapping.
pub open spec fn daa_value(a: u8, n: bool, h: bool, cy: bool) -> u8 {
    if n {
        sub8_value(a, daa_offset(a, n, h, cy), false)
    } else {
        add8_value(a, daa_offset(a, n, h, cy), false)
    }
}

/// The state after the accumulator complement: A inverted, N and H set,
/// Z and CY untouched.
pub open spec fn complement_a_effect(s: Emulator) -> Emulator {
    Emulator { a: !s.a, flag_n: true, flag_h: true, ..s }
}

/// Complementing the accumulator twice is a no-op on A and leaves the
/// flags in a predictable state: N and H are set after each pass, Z and
/// CY never move.
pub proof fn lemma_complement_a_idempotent(s: Emulator)
    ensures
        complement_a_effect(complement_a_effect(s)) == (Emulator {
            flag_n: true,
            flag_h: true,
            ..s
        }),
{
    let a = s.a;

    assert(!(!a) == a) by (bit_vector);
}

/// CPL
///
/// A <- NOT A
///
/// Takes the one's complement of register A and stores the result in
/// register A; N and H are set, Z and CY are unchanged.
pub fn complement_a(emulator: &mut Emulator, opcode: u8) -> (r: OpResult)
    ensures
        complement_a_rel(*old(emulator), *final(emulator), opcode, r),
{
    let value = emulator.a();

    emulator.set_a(!value);

    emulator.set_flag(Flag::N, true);
    emulator.set_flag(Flag::H, true);

    Ok(())
}

/// The exact contract of `complement_a`: relates the state after the body to
/// the state before, together with the result.
pub open spec fn complement_a_rel(pre: Emulator, post: Emulator, opcode: u8, r: OpResult) -> bool {
    &&& r is Ok
    &&& post == complement_a_effect(pre)
}

/// DAA
///
/// Decimal adjust accumulator
///
/// Adjusts register A after a BCD addition or subtraction so that both
/// digits are decimal again: H is cleared, Z follows the result, N is
/// unchanged, and CY reports the high-digit overflow.
pub fn decimal_adjust_a(emulator: &mut Emulator, opcode: u8) -> (r: OpResult)
    ensures
        decimal_adjust_a_rel(*old(emulator), *final(emulator), opcode, r),
{
    let a = emulator.a();

    let h = emulator.flag(Flag::H);
    let n = emulator.flag(Flag::N);
    let cy = emulator.flag(Flag::CY);

    let mut carry = false;
    let mut offset: u8 = 0;

    if (!n && a % 16 > 0x09) || h {
        offset = offset + 0x06;
    }

    if (!n && a > 0x99) || cy {
        carry = true;
        offset = offset + 0x60;
    }

    let adjusted = if n {
        a.wrapping_sub(offset)
    } else {
        a.wrapping_add(offset)
    };

    emulator.set_a(adjusted);

    emulator.set_flag(Flag::CY, carry);
    emulator.set_flag(Flag::H, false);
    emulator.set_flag(Flag::Z, adjusted == 0);

    Ok(())
}

/// The exact contract of `decimal_adjust_a`: relates the state after the body to
/// the state before, together with the result.
pub open spec fn decimal_adjust_a_rel(pre: Emulator, post: Emulator, opcode: u8, r: OpResult) -> bool {
    &&& r is Ok
    &&& post == (Emulator {
            a: daa_value(pre.a, pre.flag_n, pre.flag_h, pre.flag_cy),
            flag_cy: daa_carry(pre.a, pre.flag_n, pre.flag_cy),
            flag_h: false,
            flag_z: daa_value(pre.a, pre.flag_n, pre.flag_h, pre.flag_cy) == 0,
            ..pre
        })
}

/// DI
///
/// IME <- 0
///
/// Resets the interrupt master enable flag.
pub fn di(emulator: &mut Emulator, opcode: u8) -> (r: OpResult)
    ensures
        di_rel(*old(emulator), *final(emulator), opcode, r),
{
    emulator.set_interrupt_master_enable(false);

    Ok(())
}

/// The exact contract of `di`: relates the state after the body to
/// the state before, together with the result.
pub open spec fn di_rel(pre: Emulator, post: Emulator, opcode: u8, r: OpResult) -> bool {
    &&& r is Ok
    &&& post == (Emulator { interrupt_master_enable: false, ..pre })
}

/// EI
///
/// IME <- 1
///
/// Sets the interrupt master enable flag. The effect is immediate within
/// the same step; the real hardware's one-instruction delay is not
/// modelled.
pub fn ei(emulator: &mut Emulator, opcode: u8) -> (r: OpResult)
    ensures
        ei_rel(*old(emulator), *final(emulator), opcode, r),
{
    emulator.set_interrupt_master_enable(true);

    Ok(())
}

/// The exact contract of `ei`: relates the state after the body to
/// the state before, together with the result.
pub open spec fn ei_rel(pre: Emulator, post: Emulator, opcode: u8, r: OpResult) -> bool {
    &&& r is Ok
    &&& post == (Emulator { interrupt_master_enable: true, ..pre })
}

/// CCF
///
/// CY <- NOT CY
///
/// Flips the CY flag and clears N and H.
pub fn flip_carry(emulator: &mut Emulator, opcode: u8) -> (r: OpResult)
    ensures
        flip_carry_rel(*old(emulator), *final(emulator), opcode, r),
{
    emulator.flip_flag(Flag::CY);

    emulator.set_flag(Flag::N, false);
    emulator.set_flag(Flag::H, false);

    Ok(())
}

/// The exact contract of `flip_carry`: relates the state after the body to
/// the state before, together with the result.
pub open spec fn flip_carry_rel(pre: Emulator, post: Emulator, opcode: u8, r: OpResult) -> bool {
    &&& r is Ok
    &&& post == (Emulator {
            flag_cy: !pre.flag_cy,
            flag_n: false,
            flag_h: false,
            ..pre
        })
}

/// HALT
///
/// Enters the Halt mode; each following step consumes one cycle and
/// performs no decode until an interrupt becomes pending.
pub fn halt(emulator: &mut Emulator, opcode: u8) -> (r: OpResult)
    ensures
        halt_rel(*old(emulator), *final(emulator), opcode, r),
{
    emulator.set_state(EmulationState::Halt);

    Ok(())
}

/// The exact contract of `halt`: relates the state after the body to
/// the state before, together with the result.
pub open spec fn halt_rel(pre: Emulator, post: Emulator, opcode: u8, r: OpResult) -> bool {
    &&& r is Ok
    &&& post == (Emulator { state: EmulationState::Halt, ..pre })
}

/// NOP
///
/// Performs no operation.
pub fn noop(emulator: &mut Emulator, opcode: u8) -> (r: OpResult)
    ensures
        noop_rel(*old(emulator), *final(emulator), opcode, r),
{
    Ok(())
}

/// The exact contract of `noop`: relates the state after the body to
/// the state before, together with the result.
pub open spec fn noop_rel(pre: Emulator, post: Emulator, opcode: u8, r: OpResult) -> bool {
    &&& r is Ok
    &&& post == pre
}

/// PREFIX
///
/// Sets the prefix latch: the next fetched byte resolves against the
/// CB-prefixed table.
pub fn prefix(emulator: &mut Emulator, opcode: u8) -> (r: OpResult)
    ensures
        prefix_rel(*old(emulator), *final(emulator), opcode, r),
{
    emulator.set_prefix(true);

    Ok(())
}

/// The exact contract of `prefix`: relates the state after the body to
/// the state before, together with the result.
pub open spec fn prefix_rel(pre: Emulator, post: Emulator, opcode: u8, r: OpResult) -> bool {
    &&& r is Ok
    &&& post == (Emulator { prefixed: true, ..pre })
}

/// SCF
///
/// CY <- 1
///
/// Sets the CY flag and clears N and H.
pub fn set_carry(emulator: &mut Emulator, opcode: u8) -> (r: OpResult)
    ensures
        set_carry_rel(*old(emulator), *final(emulator), opcode, r),
{
    emulator.set_flag(Flag::CY, true);

    emulator.set_flag(Flag::N, false);
    emulator.set_flag(Flag::H, false);

    Ok(())
}

/// The exact contract of `set_carry`: relates the state after the body to
/// the state before, together with the result.
pub open spec fn set_carry_rel(pre: Emulator, post: Emulator, opcode: u8, r: OpResult) -> bool {
    &&& r is Ok
    &&& post == (Emulator {
            flag_cy: true,
            flag_n: false,
            flag_h: false,
            ..pre
        })
}

/// STOP
///
/// Consumes the byte following the opcode and enters the Stop mode, which
/// each following step leaves untouched until a joypad signal arrives.
pub fn stop(emulator: &mut Emulator, opcode: u8) -> (r: OpResult)
    requires
        old(emulator).wf(),
    ensures
        final(emulator).wf(),
        stop_rel(*old(emulator), *final(emulator), opcode, r),
{
    match emulator.read_immediate_n() {
        Ok(value) => {},
        Err(e) => {
            return Err(OpError::Memory(e));
        },
    };

    emulator.set_state(EmulationState::Stop);

    Ok(())
}

/// The exact contract of `stop`: relates the state after the body to
/// the state before, together with the result.
pub open spec fn stop_rel(pre: Emulator, post: Emulator, opcode: u8, r: OpResult) -> bool {
    match pre.memory_mapping.spec_read(pre.program_counter) {
            Ok(value) => r is Ok && post == (Emulator {
                cycles_processed: bump_cycles(pre.cycles_processed),
                program_counter: ((pre.program_counter + 1) % 0x10000) as u16,
                state: EmulationState::Stop,
                ..pre
            }),
            Err(e) => r == Err::<(), OpError>(OpError::Memory(e)) && post == (Emulator {
                cycles_processed: bump_cycles(pre.cycles_processed),
                program_counter: ((pre.program_counter + 1) % 0x10000) as u16,
                ..pre
            }),
        }
}

} // verus!
