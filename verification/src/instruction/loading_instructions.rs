//! The loading instruction family: 8-bit moves between registers,
//! immediates and memory; the high-RAM `0xFF00 + k` addressing mode; the
//! post-increment and post-decrement HL forms; the 16-bit immediate loads;
//! and the stack push and pop.

use vstd::prelude::*;

use crate::addresses::PORT_REGISTER_START;
use crate::emulator::{
    bump_cycles, lemma_mem_step_compose, mem_step, mem_step2, signed_add_carry,
    signed_add_half_carry, signed_add_value, Emulator,
};
use crate::instruction::{op_error, spec_op_error, OpError, OpResult};
use crate::memory_component::MemoryError;
use crate::opcode::{spec_parse_register, spec_parse_register_pair, Opcode};
use crate::register::{Register, RegisterPair};

verus! {

/// The address one below the stack pointer, wrapping.
pub open spec fn stack_minus_1(sp: u16) -> u16 {
    ((sp + 0xffff) % 0x10000) as u16
}

/// The address two below the stack pointer, wrapping.
pub open spec fn stack_minus_2(sp: u16) -> u16 {
    ((sp + 0xfffe) % 0x10000) as u16
}

/// Relates the states around a push of register pair qq: the high byte is
/// written at SP-1 and the low byte at SP-2, and when both writes are
/// accepted the stack pointer drops by two. For AF the low byte pushed is
/// the packed flag byte, whose low nibble is zero.
pub open spec fn push_rel(pre: Emulator, post: Emulator, pair: RegisterPair, r: OpResult) -> bool {
    let value = pre.pair_value(pair);
    let high = (value / 256) as u8;
    let low = (value % 256) as u8;
    match pre.memory_mapping.spec_write(stack_minus_1(pre.stack_pointer), high) {
        Err(e) => {
            &&& r == Err::<(), OpError>(OpError::Memory(e))
            &&& mem_step(pre, post, stack_minus_1(pre.stack_pointer), high)
            &&& post == (Emulator {
                cycles_processed: bump_cycles(pre.cycles_processed),
                memory_mapping: post.memory_mapping,
                ..pre
            })
        },
        Ok(u) => {
            &&& mem_step2(
                pre,
                post,
                stack_minus_1(pre.stack_pointer),
                high,
                stack_minus_2(pre.stack_pointer),
                low,
            )
            &&& match pre.memory_mapping.spec_write(stack_minus_2(pre.stack_pointer), low) {
                Err(e) => r == Err::<(), OpError>(OpError::Memory(e)) && post == (Emulator {
                    cycles_processed: bump_cycles(bump_cycles(pre.cycles_processed)),
                    memory_mapping: post.memory_mapping,
                    ..pre
                }),
                Ok(u2) => r is Ok && post == (Emulator {
                    cycles_processed: bump_cycles(bump_cycles(pre.cycles_processed)),
                    memory_mapping: post.memory_mapping,
                    stack_pointer: stack_minus_2(pre.stack_pointer),
                    ..pre
                }),
            }
        },
    }
}

/// Relates the states around a pop into register pair qq: the low byte is
/// read at SP and the high byte at SP+1, the pair loads the combination,
/// and the stack pointer rises by two. For AF the low nibble of the popped
/// flag byte reads back as zero.
pub open spec fn pop_rel(pre: Emulator, post: Emulator, pair: RegisterPair, r: OpResult) -> bool {
    let sp = pre.stack_pointer;
    match pre.memory_mapping.spec_read(sp) {
        Err(e) => r == Err::<(), OpError>(OpError::Memory(e)) && post == (Emulator {
            cycles_processed: bump_cycles(pre.cycles_processed),
            ..pre
        }),
        Ok(low) => match pre.memory_mapping.spec_read(((sp + 1) % 0x10000) as u16) {
            Err(e) => r == Err::<(), OpError>(OpError::Memory(e)) && post == (Emulator {
                cycles_processed: bump_cycles(bump_cycles(pre.cycles_processed)),
                ..pre
            }),
            Ok(high) => r is Ok && post == (Emulator {
                cycles_processed: bump_cycles(bump_cycles(pre.cycles_processed)),
                stack_pointer: ((sp + 2) % 0x10000) as u16,
                ..pre.with_pair(pair, (high * 256 + low) as u16)
            }),
        },
    }
}

/// Relates the states around `LD (nn), A`: the 16-bit address is read from
/// the operand bytes and the accumulator is written there.
pub open spec fn store_a_at_nn_rel(pre: Emulator, post: Emulator, r: OpResult) -> bool {
    let pc = pre.program_counter;
    match pre.memory_mapping.spec_read(pc) {
        Err(e) => r == Err::<(), OpError>(OpError::Memory(e)) && post == (Emulator {
            cycles_processed: bump_cycles(pre.cycles_processed),
            program_counter: ((pc + 1) % 0x10000) as u16,
            ..pre
        }),
        Ok(low) => match pre.memory_mapping.spec_read(((pc + 1) % 0x10000) as u16) {
            Err(e) => r == Err::<(), OpError>(OpError::Memory(e)) && post == (Emulator {
                cycles_processed: bump_cycles(bump_cycles(pre.cycles_processed)),
                program_counter: ((pc + 2) % 0x10000) as u16,
                ..pre
            }),
            Ok(high) => ({
                let nn = (high * 256 + low) as u16;
                &&& mem_step(pre, post, nn, pre.a)
                &&& post == (Emulator {
                    cycles_processed: bump_cycles(
                        bump_cycles(bump_cycles(pre.cycles_processed)),
                    ),
                    program_counter: ((pc + 2) % 0x10000) as u16,
                    memory_mapping: post.memory_mapping,
                    ..pre
                })
                &&& r == match pre.memory_mapping.spec_write(nn, pre.a) {
                    Ok(u) => Ok::<(), OpError>(u),
                    Err(e) => Err::<(), OpError>(OpError::Memory(e)),
                }
            }),
        },
    }
}

/// Relates the states around `LD A, (nn)`: the 16-bit address is read from
/// the operand bytes and the accumulator loads the byte found there.
pub open spec fn load_a_from_nn_rel(pre: Emulator, post: Emulator, r: OpResult) -> bool {
    let pc = pre.program_counter;
    match pre.memory_mapping.spec_read(pc) {
        Err(e) => r == Err::<(), OpError>(OpError::Memory(e)) && post == (Emulator {
            cycles_processed: bump_cycles(pre.cycles_processed),
            program_counter: ((pc + 1) % 0x10000) as u16,
            ..pre
        }),
        Ok(low) => match pre.memory_mapping.spec_read(((pc + 1) % 0x10000) as u16) {
            Err(e) => r == Err::<(), OpError>(OpError::Memory(e)) && post == (Emulator {
                cycles_processed: bump_cycles(bump_cycles(pre.cycles_processed)),
                program_counter: ((pc + 2) % 0x10000) as u16,
                ..pre
            }),
            Ok(high) => ({
                let nn = (high * 256 + low) as u16;
                match pre.memory_mapping.spec_read(nn) {
                    Err(e) => r == Err::<(), OpError>(OpError::Memory(e)) && post == (Emulator {
                        cycles_processed: bump_cycles(
                            bump_cycles(bump_cycles(pre.cycles_processed)),
                        ),
                        program_counter: ((pc + 2) % 0x10000) as u16,
                        ..pre
                    }),
                    Ok(value) => r is Ok && post == (Emulator {
                        cycles_processed: bump_cycles(
                            bump_cycles(bump_cycles(pre.cycles_processed)),
                        ),
                        program_counter: ((pc + 2) % 0x10000) as u16,
                        a: value,
                        ..pre
                    }),
                }
            }),
        },
    }
}

/// Pushing a register pair and popping it back restores the stack pointer
/// and the pair's observable value, provided the two stack cells accept
/// stores and do not share storage. For AF the low nibble of F reads back
/// as zero both before and after, so the pair value round-trips exactly.
pub proof fn lemma_push_pop_round_trip(
    s0: Emulator,
    s1: Emulator,
    s2: Emulator,
    pair: RegisterPair,
    r1: OpResult,
    r2: OpResult,
)
    requires
        push_rel(s0, s1, pair, r1),
        pop_rel(s1, s2, pair, r2),
        s0.memory_mapping.write_accepted(stack_minus_1(s0.stack_pointer)),
        s0.memory_mapping.stores(stack_minus_1(s0.stack_pointer)),
        s0.memory_mapping.aliased(
            stack_minus_1(s0.stack_pointer),
            stack_minus_1(s0.stack_pointer),
        ),
        s0.memory_mapping.write_accepted(stack_minus_2(s0.stack_pointer)),
        s0.memory_mapping.stores(stack_minus_2(s0.stack_pointer)),
        s0.memory_mapping.aliased(
            stack_minus_2(s0.stack_pointer),
            stack_minus_2(s0.stack_pointer),
        ),
        !s0.memory_mapping.aliased(
            stack_minus_2(s0.stack_pointer),
            stack_minus_1(s0.stack_pointer),
        ),
    ensures
        r1 is Ok,
        r2 is Ok,
        s2.stack_pointer == s0.stack_pointer,
        s2.pair_value(pair) == s0.pair_value(pair),
{
    let sp = s0.stack_pointer;
    let value = s0.pair_value(pair);
    let high = (value / 256) as u8;
    let low = (value % 256) as u8;

    assert(((stack_minus_2(sp) + 1) % 0x10000) as u16 == stack_minus_1(sp));
    assert(s1.memory_mapping.spec_read(stack_minus_2(sp)) == Ok::<u8, MemoryError>(low));
    assert(s1.memory_mapping.spec_read(stack_minus_1(sp)) == Ok::<u8, MemoryError>(high));
    assert(((stack_minus_2(sp) + 2) % 0x10000) as u16 == sp);

    assert(s2 == (Emulator {
        cycles_processed: bump_cycles(bump_cycles(s1.cycles_processed)),
        stack_pointer: sp,
        ..s1.with_pair(pair, (high * 256 + low) as u16)
    }));

    assert((high * 256 + low) as u16 == value);

    match pair {
        RegisterPair::Af => {
            assert(s0.flags_value() < 256);
            assert(value % 256 == s0.flags_value());
            assert(value / 256 == s0.a);
            assert(s2.pair_value(pair) == s0.pair_value(pair));
        },
        RegisterPair::Bc => {
            assert(s2.pair_value(pair) == s0.pair_value(pair));
        },
        RegisterPair::De => {
            assert(s2.pair_value(pair) == s0.pair_value(pair));
        },
        RegisterPair::Hl => {
            assert(s2.pair_value(pair) == s0.pair_value(pair));
        },
    }
}

/// Storing the accumulator at an immediate address and loading it back
/// restores A byte-for-byte through the bus, provided the address accepts
/// stores, both instructions read the same operand bytes, and the store
/// does not land on the second instruction's own operands.
pub proof fn lemma_store_load_a_round_trip(
    s0: Emulator,
    s1: Emulator,
    s2: Emulator,
    low: u8,
    high: u8,
    r1: OpResult,
    r2: OpResult,
)
    requires
        s0.memory_mapping.spec_read(s0.program_counter) == Ok::<u8, MemoryError>(low),
        s0.memory_mapping.spec_read(((s0.program_counter + 1) % 0x10000) as u16) == Ok::<
            u8,
            MemoryError,
        >(high),
        store_a_at_nn_rel(s0, s1, r1),
        s1.memory_mapping.spec_read(s1.program_counter) == Ok::<u8, MemoryError>(low),
        s1.memory_mapping.spec_read(((s1.program_counter + 1) % 0x10000) as u16) == Ok::<
            u8,
            MemoryError,
        >(high),
        load_a_from_nn_rel(s1, s2, r2),
        s0.memory_mapping.write_accepted((high * 256 + low) as u16),
        s0.memory_mapping.stores((high * 256 + low) as u16),
        s0.memory_mapping.aliased((high * 256 + low) as u16, (high * 256 + low) as u16),
    ensures
        r1 is Ok,
        r2 is Ok,
        s2.a == s0.a,
{
}

/// LD (BC), A
///
/// (BC) <- A
///
/// Loads the contents of register A into the memory specified by register
/// pair BC.
pub fn load_a_into_bc_location(emulator: &mut Emulator, opcode: u8) -> (r: OpResult)
    requires
        old(emulator).wf(),
    ensures
        final(emulator).wf(),
        load_a_into_bc_location_rel(*old(emulator), *final(emulator), opcode, r),
{
    let value = emulator.a();
    let location = emulator.register_pair(&RegisterPair::Bc);

    match emulator.write(location, value) {
        Ok(u) => Ok(u),
        Err(e) => Err(OpError::Memory(e)),
    }
}

/// The exact contract of `load_a_into_bc_location`: relates the state after the body to
/// the state before, together with the result.
pub open spec fn load_a_into_bc_location_rel(pre: Emulator, post: Emulator, opcode: u8, r: OpResult) -> bool {
    ({
            let location = pre.pair_value(RegisterPair::Bc);
            &&& mem_step(pre, post, location, pre.a)
            &&& post == (Emulator {
                cycles_processed: bump_cycles(pre.cycles_processed),
                memory_mapping: post.memory_mapping,
                ..pre
            })
            &&& r == match pre.memory_mapping.spec_write(location, pre.a) {
                Ok(u) => Ok::<(), OpError>(u),
                Err(e) => Err::<(), OpError>(OpError::Memory(e)),
            }
        })
}

/// LD (C), A
///
/// (0xFF00 + C) <- A
///
/// Loads the contents of register A into the port/register area at the
/// address formed from register C.
pub fn load_a_into_c_location(emulator: &mut Emulator, opcode: u8) -> (r: OpResult)
    requires
        old(emulator).wf(),
    ensures
        final(emulator).wf(),
        load_a_into_c_location_rel(*old(emulator), *final(emulator), opcode, r),
{
    let value = emulator.a();
    let offset = emulator.register(&Register::C);

    match emulator.write(PORT_REGISTER_START + (offset as u16), value) {
        Ok(u) => Ok(u),
        Err(e) => Err(OpError::Memory(e)),
    }
}

/// The exact contract of `load_a_into_c_location`: relates the state after the body to
/// the state before, together with the result.
pub open spec fn load_a_into_c_location_rel(pre: Emulator, post: Emulator, opcode: u8, r: OpResult) -> bool {
    ({
            let location = (PORT_REGISTER_START + pre.c) as u16;
            &&& mem_step(pre, post, location, pre.a)
            &&& post == (Emulator {
                cycles_processed: bump_cycles(pre.cycles_processed),
                memory_mapping: post.memory_mapping,
                ..pre
            })
            &&& r == match pre.memory_mapping.spec_write(location, pre.a) {
                Ok(u) => Ok::<(), OpError>(u),
                Err(e) => Err::<(), OpError>(OpError::Memory(e)),
            }
        })
}

/// LD (DE), A
///
/// (DE) <- A
///
/// Loads the contents of register A into the memory specified by register
/// pair DE.
pub fn load_a_into_de_location(emulator: &mut Emulator, opcode: u8) -> (r: OpResult)
    requires
        old(emulator).wf(),
    ensures
        final(emulator).wf(),
        load_a_into_de_location_rel(*old(emulator), *final(emulator), opcode, r),
{
    let value = emulator.a();
    let location = emulator.register_pair(&RegisterPair::De);

    match emulator.write(location, value) {
        Ok(u) => Ok(u),
        Err(e) => Err(OpError::Memory(e)),
    }
}

/// The exact contract of `load_a_into_de_location`: relates the state after the body to
/// the state before, together with the result.
pub open spec fn load_a_into_de_location_rel(pre: Emulator, post: Emulator, opcode: u8, r: OpResult) -> bool {
    ({
            let location = pre.pair_value(RegisterPair::De);
            &&& mem_step(pre, post, location, pre.a)
            &&& post == (Emulator {
                cycles_processed: bump_cycles(pre.cycles_processed),
                memory_mapping: post.memory_mapping,
                ..pre
            })
            &&& r == match pre.memory_mapping.spec_write(location, pre.a) {
                Ok(u) => Ok::<(), OpError>(u),
                Err(e) => Err::<(), OpError>(OpError::Memory(e)),
            }
        })
}

/// LD (HL-), A
///
/// (HL) <- A; HL <- HL - 1
///
/// Loads the contents of register A into the memory specified by register
/// pair HL, then decrements HL with wrap-around.
#[verifier::rlimit(50)]
#[verifier::spinoff_prover]
pub fn load_a_into_hl_location_dec(emulator: &mut Emulator, opcode: u8) -> (r: OpResult)
    requires
        old(emulator).wf(),
    ensures
        final(emulator).wf(),
        load_a_into_hl_location_dec_rel(*old(emulator), *final(emulator), opcode, r),
{
    let value = emulator.a();

    match emulator.write_hl_location(value) {
        Ok(u) => {},
        Err(e) => {
            return Err(OpError::Memory(e));
        },
    };

    let hl = emulator.hl();

    emulator.set_register_pair(RegisterPair::Hl, hl.wrapping_sub(1));

    Ok(())
}

/// The exact contract of `load_a_into_hl_location_dec`: relates the state after the body to
/// the state before, together with the result.
pub open spec fn load_a_into_hl_location_dec_rel(pre: Emulator, post: Emulator, opcode: u8, r: OpResult) -> bool {
    ({
            let location = pre.pair_value(RegisterPair::Hl);
            match pre.memory_mapping.spec_write(location, pre.a) {
                Err(e) => r == Err::<(), OpError>(OpError::Memory(e)) && mem_step(
                    pre,
                    post,
                    location,
                    pre.a,
                ) && post == (Emulator {
                    cycles_processed: bump_cycles(pre.cycles_processed),
                    memory_mapping: post.memory_mapping,
                    ..pre
                }),
                Ok(u) => r is Ok && mem_step(
                    pre,
                    post,
                    location,
                    pre.a,
                ) && post == (Emulator {
                    cycles_processed: bump_cycles(pre.cycles_processed),
                    memory_mapping: post.memory_mapping,
                    ..pre.with_pair(
                        RegisterPair::Hl,
                        ((location + 0xffff) % 0x10000) as u16,
                    )
                }),
            }
        })
}

/// LD (HL+), A
///
/// (HL) <- A; HL <- HL + 1
///
/// Loads the contents of register A into the memory specified by register
/// pair HL, then increments HL with wrap-around.
#[verifier::rlimit(50)]
#[verifier::spinoff_prover]
pub fn load_a_into_hl_location_inc(emulator: &mut Emulator, opcode: u8) -> (r: OpResult)
    requires
        old(emulator).wf(),
    ensures
        final(emulator).wf(),
        load_a_into_hl_location_inc_rel(*old(emulator), *final(emulator), opcode, r),
{
    let value = emulator.a();

    match emulator.write_hl_location(value) {
        Ok(u) => {},
        Err(e) => {
            return Err(OpError::Memory(e));
        },
    };

    let hl = emulator.hl();

    emulator.set_register_pair(RegisterPair::Hl, hl.wrapping_add(1));

    Ok(())
}

/// The exact contract of `load_a_into_hl_location_inc`: relates the state after the body to
/// the state before, together with the result.
pub open spec fn load_a_into_hl_location_inc_rel(pre: Emulator, post: Emulator, opcode: u8, r: OpResult) -> bool {
    ({
            let location = pre.pair_value(RegisterPair::Hl);
            match pre.memory_mapping.spec_write(location, pre.a) {
                Err(e) => r == Err::<(), OpError>(OpError::Memory(e)) && mem_step(
                    pre,
                    post,
                    location,
                    pre.a,
                ) && post == (Emulator {
                    cycles_processed: bump_cycles(pre.cycles_processed),
                    memory_mapping: post.memory_mapping,
                    ..pre
                }),
                Ok(u) => r is Ok && mem_step(
                    pre,
                    post,
                    location,
                    pre.a,
                ) && post == (Emulator {
                    cycles_processed: bump_cycles(pre.cycles_processed),
                    memory_mapping: post.memory_mapping,
                    ..pre.with_pair(
                        RegisterPair::Hl,
                        ((location + 1) % 0x10000) as u16,
                    )
                }),
            }
        })
}

/// LDH (n), A
///
/// (0xFF00 + n) <- A
///
/// Loads the contents of register A into the port/register area at the
/// address formed from 8-bit immediate operand n.
pub fn load_a_into_immediate_n_location(emulator: &mut Emulator, opcode: u8) -> (r: OpResult)
    requires
        old(emulator).wf(),
    ensures
        final(emulator).wf(),
        load_a_into_immediate_n_location_rel(*old(emulator), *final(emulator), opcode, r),
{
    let value = emulator.a();

    let offset = match emulator.read_immediate_n() {
        Ok(v) => v,
        Err(e) => {
            return Err(OpError::Memory(e));
        },
    };

    match emulator.write(PORT_REGISTER_START + (offset as u16), value) {
        Ok(u) => Ok(u),
        Err(e) => Err(OpError::Memory(e)),
    }
}

/// The exact contract of `load_a_into_immediate_n_location`: relates the state after the body to
/// the state before, together with the result.
pub open spec fn load_a_into_immediate_n_location_rel(pre: Emulator, post: Emulator, opcode: u8, r: OpResult) -> bool {
    match pre.memory_mapping.spec_read(pre.program_counter) {
            Err(e) => r == Err::<(), OpError>(OpError::Memory(e)) && post == (Emulator {
                cycles_processed: bump_cycles(pre.cycles_processed),
                program_counter: ((pre.program_counter + 1) % 0x10000) as u16,
                ..pre
            }),
            Ok(offset) => ({
                let location = (PORT_REGISTER_START + offset) as u16;
                &&& mem_step(pre, post, location, pre.a)
                &&& post == (Emulator {
                    cycles_processed: bump_cycles(bump_cycles(pre.cycles_processed)),
                    program_counter: ((pre.program_counter + 1) % 0x10000) as u16,
                    memory_mapping: post.memory_mapping,
                    ..pre
                })
                &&& r == match pre.memory_mapping.spec_write(
                    location,
                    pre.a,
                ) {
                    Ok(u) => Ok::<(), OpError>(u),
                    Err(e) => Err::<(), OpError>(OpError::Memory(e)),
                }
            }),
        }
}

/// LD (nn), A
///
/// (nn) <- A
///
/// Loads the contents of register A into the memory specified by 16-bit
/// immediate operand nn.
pub fn load_a_into_immediate_nn_location(emulator: &mut Emulator, opcode: u8) -> (r: OpResult)
    requires
        old(emulator).wf(),
    ensures
        final(emulator).wf(),
        load_a_into_immediate_nn_location_rel(*old(emulator), *final(emulator), opcode, r),
{
    let value = emulator.a();

    let nn = match emulator.read_immediate_nn() {
        Ok(v) => v,
        Err(e) => {
            return Err(OpError::Memory(e));
        },
    };

    match emulator.write(nn, value) {
        Ok(u) => Ok(u),
        Err(e) => Err(OpError::Memory(e)),
    }
}

/// The exact contract of `load_a_into_immediate_nn_location`: relates the state after the body to
/// the state before, together with the result.
pub open spec fn load_a_into_immediate_nn_location_rel(pre: Emulator, post: Emulator, opcode: u8, r: OpResult) -> bool {
    store_a_at_nn_rel(pre, post, r)
}

/// LD A, (BC)
///
/// A <- (BC)
///
/// Loads the contents of memory specified by register pair BC into
/// register A.
pub fn load_bc_location_into_a(emulator: &mut Emulator, opcode: u8) -> (r: OpResult)
    requires
        old(emulator).wf(),
    ensures
        final(emulator).wf(),
        load_bc_location_into_a_rel(*old(emulator), *final(emulator), opcode, r),
{
    let location = emulator.register_pair(&RegisterPair::Bc);

    let value = match emulator.read(location) {
        Ok(v) => v,
        Err(e) => {
            return Err(OpError::Memory(e));
        },
    };

    emulator.set_a(value);

    Ok(())
}

/// The exact contract of `load_bc_location_into_a`: relates the state after the body to
/// the state before, together with the result.
pub open spec fn load_bc_location_into_a_rel(pre: Emulator, post: Emulator, opcode: u8, r: OpResult) -> bool {
    ({
            let location = pre.pair_value(RegisterPair::Bc);
            match pre.memory_mapping.spec_read(location) {
                Ok(value) => r is Ok && post == (Emulator {
                    cycles_processed: bump_cycles(pre.cycles_processed),
                    a: value,
                    ..pre
                }),
                Err(e) => r == Err::<(), OpError>(OpError::Memory(e)) && post
                    == (Emulator {
                    cycles_processed: bump_cycles(pre.cycles_processed),
                    ..pre
                }),
            }
        })
}

/// LD A, (C)
///
/// A <- (0xFF00 + C)
///
/// Loads the contents of the port/register area at the address formed from
/// register C into register A.
pub fn load_c_location_into_a(emulator: &mut Emulator, opcode: u8) -> (r: OpResult)
    requires
        old(emulator).wf(),
    ensures
        final(emulator).wf(),
        load_c_location_into_a_rel(*old(emulator), *final(emulator), opcode, r),
{
    let offset = emulator.register(&Register::C);

    let value = match emulator.read(PORT_REGISTER_START + (offset as u16)) {
        Ok(v) => v,
        Err(e) => {
            return Err(OpError::Memory(e));
        },
    };

    emulator.set_a(value);

    Ok(())
}

/// The exact contract of `load_c_location_into_a`: relates the state after the body to
/// the state before, together with the result.
pub open spec fn load_c_location_into_a_rel(pre: Emulator, post: Emulator, opcode: u8, r: OpResult) -> bool {
    ({
            let location = (PORT_REGISTER_START + pre.c) as u16;
            match pre.memory_mapping.spec_read(location) {
                Ok(value) => r is Ok && post == (Emulator {
                    cycles_processed: bump_cycles(pre.cycles_processed),
                    a: value,
                    ..pre
                }),
                Err(e) => r == Err::<(), OpError>(OpError::Memory(e)) && post
                    == (Emulator {
                    cycles_processed: bump_cycles(pre.cycles_processed),
                    ..pre
                }),
            }
        })
}

/// LD A, (DE)
///
/// A <- (DE)
///
/// Loads the contents of memory specified by register pair DE into
/// register A.
pub fn load_de_location_into_a(emulator: &mut Emulator, opcode: u8) -> (r: OpResult)
    requires
        old(emulator).wf(),
    ensures
        final(emulator).wf(),
        load_de_location_into_a_rel(*old(emulator), *final(emulator), opcode, r),
{
    let location = emulator.register_pair(&RegisterPair::De);

    let value = match emulator.read(location) {
        Ok(v) => v,
        Err(e) => {
            return Err(OpError::Memory(e));
        },
    };

    emulator.set_a(value);

    Ok(())
}

/// The exact contract of `load_de_location_into_a`: relates the state after the body to
/// the state before, together with the result.
pub open spec fn load_de_location_into_a_rel(pre: Emulator, post: Emulator, opcode: u8, r: OpResult) -> bool {
    ({
            let location = pre.pair_value(RegisterPair::De);
            match pre.memory_mapping.spec_read(location) {
                Ok(value) => r is Ok && post == (Emulator {
                    cycles_processed: bump_cycles(pre.cycles_processed),
                    a: value,
                    ..pre
                }),
                Err(e) => r == Err::<(), OpError>(OpError::Memory(e)) && post
                    == (Emulator {
                    cycles_processed: bump_cycles(pre.cycles_processed),
                    ..pre
                }),
            }
        })
}

/// LD SP, HL
///
/// SP <- HL
///
/// Loads the contents of register pair HL into the stack pointer.
pub fn load_hl_into_sp(emulator: &mut Emulator, opcode: u8) -> (r: OpResult)
    ensures
        load_hl_into_sp_rel(*old(emulator), *final(emulator), opcode, r),
{
    let value = emulator.hl();

    emulator.set_stack_pointer(value);

    Ok(())
}

/// The exact contract of `load_hl_into_sp`: relates the state after the body to
/// the state before, together with the result.
pub open spec fn load_hl_into_sp_rel(pre: Emulator, post: Emulator, opcode: u8, r: OpResult) -> bool {
    &&& r is Ok
    &&& post == (Emulator {
            stack_pointer: pre.pair_value(RegisterPair::Hl),
            ..pre
        })
}

/// LD A, (HL-)
///
/// A <- (HL); HL <- HL - 1
///
/// Loads the contents of the memory specified by register pair HL into
/// register A, then decrements HL with wrap-around.
pub fn load_hl_location_dec_into_a(emulator: &mut Emulator, opcode: u8) -> (r: OpResult)
    requires
        old(emulator).wf(),
    ensures
        final(emulator).wf(),
        load_hl_location_dec_into_a_rel(*old(emulator), *final(emulator), opcode, r),
{
    let location = emulator.register_pair(&RegisterPair::Hl);

    let value = match emulator.read(location) {
        Ok(v) => v,
        Err(e) => {
            return Err(OpError::Memory(e));
        },
    };

    emulator.set_a(value);

    emulator.set_register_pair(RegisterPair::Hl, location.wrapping_sub(1));

    Ok(())
}

/// The exact contract of `load_hl_location_dec_into_a`: relates the state after the body to
/// the state before, together with the result.
pub open spec fn load_hl_location_dec_into_a_rel(pre: Emulator, post: Emulator, opcode: u8, r: OpResult) -> bool {
    ({
            let location = pre.pair_value(RegisterPair::Hl);
            match pre.memory_mapping.spec_read(location) {
                Ok(value) => r is Ok && post == (Emulator {
                    cycles_processed: bump_cycles(pre.cycles_processed),
                    a: value,
                    ..pre.with_pair(
                        RegisterPair::Hl,
                        ((location + 0xffff) % 0x10000) as u16,
                    )
                }),
                Err(e) => r == Err::<(), OpError>(OpError::Memory(e)) && post
                    == (Emulator {
                    cycles_processed: bump_cycles(pre.cycles_processed),
                    ..pre
                }),
            }
        })
}

/// LD A, (HL+)
///
/// A <- (HL); HL <- HL + 1
///
/// Loads the contents of the memory specified by register pair HL into
/// register A, then increments HL with wrap-around.
pub fn load_hl_location_inc_into_a(emulator: &mut Emulator, opcode: u8) -> (r: OpResult)
    requires
        old(emulator).wf(),
    ensures
        final(emulator).wf(),
        load_hl_location_inc_into_a_rel(*old(emulator), *final(emulator), opcode, r),
{
    let location = emulator.register_pair(&RegisterPair::Hl);

    let value = match emulator.read(location) {
        Ok(v) => v,
        Err(e) => {
            return Err(OpError::Memory(e));
        },
    };

    emulator.set_a(value);

    emulator.set_register_pair(RegisterPair::Hl, location.wrapping_add(1));

    Ok(())
}

/// The exact contract of `load_hl_location_inc_into_a`: relates the state after the body to
/// the state before, together with the result.
pub open spec fn load_hl_location_inc_into_a_rel(pre: Emulator, post: Emulator, opcode: u8, r: OpResult) -> bool {
    ({
            let location = pre.pair_value(RegisterPair::Hl);
            match pre.memory_mapping.spec_read(location) {
                Ok(value) => r is Ok && post == (Emulator {
                    cycles_processed: bump_cycles(pre.cycles_processed),
                    a: value,
                    ..pre.with_pair(RegisterPair::Hl, ((location + 1) % 0x10000) as u16)
                }),
                Err(e) => r == Err::<(), OpError>(OpError::Memory(e)) && post
                    == (Emulator {
                    cycles_processed: bump_cycles(pre.cycles_processed),
                    ..pre
                }),
            }
        })
}

/// LD r, (HL)
///
/// r <- (HL)
///
/// Loads the contents of memory specified by register pair HL into
/// register r.
pub fn load_hl_location_into_register(emulator: &mut Emulator, opcode: u8) -> (r: OpResult)
    requires
        old(emulator).wf(),
    ensures
        final(emulator).wf(),
        load_hl_location_into_register_rel(*old(emulator), *final(emulator), opcode, r),
{
    let location = emulator.register_pair(&RegisterPair::Hl);

    let value = match emulator.read(location) {
        Ok(v) => v,
        Err(e) => {
            return Err(OpError::Memory(e));
        },
    };

    let destination = match opcode.parse_register(0b00111000) {
        Ok(register) => register,
        Err(e) => {
            return Err(op_error(e));
        },
    };

    emulator.set_register(destination, value);

    Ok(())
}

/// The exact contract of `load_hl_location_into_register`: relates the state after the body to
/// the state before, together with the result.
pub open spec fn load_hl_location_into_register_rel(pre: Emulator, post: Emulator, opcode: u8, r: OpResult) -> bool {
    ({
            let location = pre.pair_value(RegisterPair::Hl);
            match pre.memory_mapping.spec_read(location) {
                Err(e) => r == Err::<(), OpError>(OpError::Memory(e)) && post
                    == (Emulator {
                    cycles_processed: bump_cycles(pre.cycles_processed),
                    ..pre
                }),
                Ok(value) => match spec_parse_register(opcode, 0b00111000) {
                    Ok(register) => r is Ok && post == (Emulator {
                        cycles_processed: bump_cycles(pre.cycles_processed),
                        ..pre.with_reg(register, value)
                    }),
                    Err(e) => r == Err::<(), OpError>(spec_op_error(e)) && post
                        == (Emulator {
                        cycles_processed: bump_cycles(pre.cycles_processed),
                        ..pre
                    }),
                },
            }
        })
}

/// LD (HL), n
///
/// (HL) <- n
///
/// Loads 8-bit immediate operand n into the memory specified by register
/// pair HL.
pub fn load_immediate_n_into_hl_location(emulator: &mut Emulator, opcode: u8) -> (r: OpResult)
    requires
        old(emulator).wf(),
    ensures
        final(emulator).wf(),
        load_immediate_n_into_hl_location_rel(*old(emulator), *final(emulator), opcode, r),
{
    let n = match emulator.read_immediate_n() {
        Ok(v) => v,
        Err(e) => {
            return Err(OpError::Memory(e));
        },
    };

    match emulator.write_hl_location(n) {
        Ok(u) => Ok(u),
        Err(e) => Err(OpError::Memory(e)),
    }
}

/// The exact contract of `load_immediate_n_into_hl_location`: relates the state after the body to
/// the state before, together with the result.
pub open spec fn load_immediate_n_into_hl_location_rel(pre: Emulator, post: Emulator, opcode: u8, r: OpResult) -> bool {
    match pre.memory_mapping.spec_read(pre.program_counter) {
            Err(e) => r == Err::<(), OpError>(OpError::Memory(e)) && post == (Emulator {
                cycles_processed: bump_cycles(pre.cycles_processed),
                program_counter: ((pre.program_counter + 1) % 0x10000) as u16,
                ..pre
            }),
            Ok(value) => ({
                let location = pre.pair_value(RegisterPair::Hl);
                &&& mem_step(pre, post, location, value)
                &&& post == (Emulator {
                    cycles_processed: bump_cycles(bump_cycles(pre.cycles_processed)),
                    program_counter: ((pre.program_counter + 1) % 0x10000) as u16,
                    memory_mapping: post.memory_mapping,
                    ..pre
                })
                &&& r == match pre.memory_mapping.spec_write(location, value) {
                    Ok(u) => Ok::<(), OpError>(u),
                    Err(e) => Err::<(), OpError>(OpError::Memory(e)),
                }
            }),
        }
}

/// LD r, n
///
/// r <- n
///
/// Loads 8-bit immediate operand n into register r.
pub fn load_immediate_n_into_register(emulator: &mut Emulator, opcode: u8) -> (r: OpResult)
    requires
        old(emulator).wf(),
    ensures
        final(emulator).wf(),
        load_immediate_n_into_register_rel(*old(emulator), *final(emulator), opcode, r),
{
    let n = match emulator.read_immediate_n() {
        Ok(v) => v,
        Err(e) => {
            return Err(OpError::Memory(e));
        },
    };

    let destination = match opcode.parse_register(0b00111000) {
        Ok(register) => register,
        Err(e) => {
            return Err(op_error(e));
        },
    };

    emulator.set_register(destination, n);

    Ok(())
}

/// The exact contract of `load_immediate_n_into_register`: relates the state after the body to
/// the state before, together with the result.
pub open spec fn load_immediate_n_into_register_rel(pre: Emulator, post: Emulator, opcode: u8, r: OpResult) -> bool {
    match pre.memory_mapping.spec_read(pre.program_counter) {
            Err(e) => r == Err::<(), OpError>(OpError::Memory(e)) && post == (Emulator {
                cycles_processed: bump_cycles(pre.cycles_processed),
                program_counter: ((pre.program_counter + 1) % 0x10000) as u16,
                ..pre
            }),
            Ok(value) => match spec_parse_register(opcode, 0b00111000) {
                Ok(register) => r is Ok && post == (Emulator {
                    cycles_processed: bump_cycles(pre.cycles_processed),
                    program_counter: ((pre.program_counter + 1) % 0x10000) as u16,
                    ..pre.with_reg(register, value)
                }),
                Err(e) => r == Err::<(), OpError>(spec_op_error(e)) && post
                    == (Emulator {
                    cycles_processed: bump_cycles(pre.cycles_processed),
                    program_counter: ((pre.program_counter + 1) % 0x10000) as u16,
                    ..pre
                }),
            },
        }
}

/// LDH A, (n)
///
/// A <- (0xFF00 + n)
///
/// Loads the contents of the port/register area at the address formed from
/// 8-bit immediate operand n into register A.
pub fn load_immediate_n_location_into_a(emulator: &mut Emulator, opcode: u8) -> (r: OpResult)
    requires
        old(emulator).wf(),
    ensures
        final(emulator).wf(),
        load_immediate_n_location_into_a_rel(*old(emulator), *final(emulator), opcode, r),
{
    let offset = match emulator.read_immediate_n() {
        Ok(v) => v,
        Err(e) => {
            return Err(OpError::Memory(e));
        },
    };

    let value = match emulator.read(PORT_REGISTER_START + (offset as u16)) {
        Ok(v) => v,
        Err(e) => {
            return Err(OpError::Memory(e));
        },
    };

    emulator.set_a(value);

    Ok(())
}

/// The exact contract of `load_immediate_n_location_into_a`: relates the state after the body to
/// the state before, together with the result.
pub open spec fn load_immediate_n_location_into_a_rel(pre: Emulator, post: Emulator, opcode: u8, r: OpResult) -> bool {
    match pre.memory_mapping.spec_read(pre.program_counter) {
            Err(e) => r == Err::<(), OpError>(OpError::Memory(e)) && post == (Emulator {
                cycles_processed: bump_cycles(pre.cycles_processed),
                program_counter: ((pre.program_counter + 1) % 0x10000) as u16,
                ..pre
            }),
            Ok(offset) => match pre.memory_mapping.spec_read(
                (PORT_REGISTER_START + offset) as u16,
            ) {
                Err(e) => r == Err::<(), OpError>(OpError::Memory(e)) && post
                    == (Emulator {
                    cycles_processed: bump_cycles(bump_cycles(pre.cycles_processed)),
                    program_counter: ((pre.program_counter + 1) % 0x10000) as u16,
                    ..pre
                }),
                Ok(value) => r is Ok && post == (Emulator {
                    cycles_processed: bump_cycles(bump_cycles(pre.cycles_processed)),
                    program_counter: ((pre.program_counter + 1) % 0x10000) as u16,
                    a: value,
                    ..pre
                }),
            },
        }
}

/// LD dd, nn
///
/// dd <- nn
///
/// Loads 16-bit immediate operand nn into register pair dd (the stack
/// pointer for code 0b11).
pub fn load_immediate_nn_into_register_pair(emulator: &mut Emulator, opcode: u8) -> (r: OpResult)
    requires
        old(emulator).wf(),
    ensures
        final(emulator).wf(),
        load_immediate_nn_into_register_pair_rel(*old(emulator), *final(emulator), opcode, r),
{
    let register_pair = match opcode.parse_register_pair(0b00_110_000) {
        Ok(register_pair) => register_pair,
        Err(e) => {
            return Err(op_error(e));
        },
    };

    let nn = match emulator.read_immediate_nn() {
        Ok(v) => v,
        Err(e) => {
            return Err(OpError::Memory(e));
        },
    };

    if register_pair == RegisterPair::Af {
        emulator.set_stack_pointer(nn);
    } else {
        emulator.set_register_pair(register_pair, nn);
    }

    Ok(())
}

/// The exact contract of `load_immediate_nn_into_register_pair`: relates the state after the body to
/// the state before, together with the result.
pub open spec fn load_immediate_nn_into_register_pair_rel(pre: Emulator, post: Emulator, opcode: u8, r: OpResult) -> bool {
    match spec_parse_register_pair(opcode, 0b00_110_000) {
            Err(e) => r == Err::<(), OpError>(spec_op_error(e)) && post == pre,
            Ok(register_pair) => ({
                let pc = pre.program_counter;
                match pre.memory_mapping.spec_read(pc) {
                    Err(e) => r == Err::<(), OpError>(OpError::Memory(e)) && post
                        == (Emulator {
                        cycles_processed: bump_cycles(pre.cycles_processed),
                        program_counter: ((pc + 1) % 0x10000) as u16,
                        ..pre
                    }),
                    Ok(low) => match pre.memory_mapping.spec_read(
                        ((pc + 1) % 0x10000) as u16,
                    ) {
                        Err(e) => r == Err::<(), OpError>(OpError::Memory(e)) && post
                            == (Emulator {
                            cycles_processed: bump_cycles(
                                bump_cycles(pre.cycles_processed),
                            ),
                            program_counter: ((pc + 2) % 0x10000) as u16,
                            ..pre
                        }),
                        Ok(high) => r is Ok && post == (if register_pair
                            == RegisterPair::Af {
                            (Emulator {
                                cycles_processed: bump_cycles(
                                    bump_cycles(pre.cycles_processed),
                                ),
                                program_counter: ((pc + 2) % 0x10000) as u16,
                                stack_pointer: (high * 256 + low) as u16,
                                ..pre
                            })
                        } else {
                            (Emulator {
                                cycles_processed: bump_cycles(
                                    bump_cycles(pre.cycles_processed),
                                ),
                                program_counter: ((pc + 2) % 0x10000) as u16,
                                ..pre.with_pair(
                                    register_pair,
                                    (high * 256 + low) as u16,
                                )
                            })
                        }),
                    },
                }
            }),
        }
}

/// LD A, (nn)
///
/// A <- (nn)
///
/// Loads the contents of the memory specified by 16-bit immediate operand
/// nn into register A.
pub fn load_immediate_nn_location_into_a(emulator: &mut Emulator, opcode: u8) -> (r: OpResult)
    requires
        old(emulator).wf(),
    ensures
        final(emulator).wf(),
        load_immediate_nn_location_into_a_rel(*old(emulator), *final(emulator), opcode, r),
{
    let nn = match emulator.read_immediate_nn() {
        Ok(v) => v,
        Err(e) => {
            return Err(OpError::Memory(e));
        },
    };

    let value = match emulator.read(nn) {
        Ok(v) => v,
        Err(e) => {
            return Err(OpError::Memory(e));
        },
    };

    emulator.set_a(value);

    Ok(())
}

/// The exact contract of `load_immediate_nn_location_into_a`: relates the state after the body to
/// the state before, together with the result.
pub open spec fn load_immediate_nn_location_into_a_rel(pre: Emulator, post: Emulator, opcode: u8, r: OpResult) -> bool {
    load_a_from_nn_rel(pre, post, r)
}

/// LD (HL), r
///
/// (HL) <- r
///
/// Loads the contents of register r into the memory specified by register
/// pair HL.
pub fn load_register_into_hl_location(emulator: &mut Emulator, opcode: u8) -> (r: OpResult)
    requires
        old(emulator).wf(),
    ensures
        final(emulator).wf(),
        load_register_into_hl_location_rel(*old(emulator), *final(emulator), opcode, r),
{
    let register = match opcode.parse_register(0b00000111) {
        Ok(register) => register,
        Err(e) => {
            return Err(op_error(e));
        },
    };

    let value = emulator.register(&register);

    match emulator.write_hl_location(value) {
        Ok(u) => Ok(u),
        Err(e) => Err(OpError::Memory(e)),
    }
}

/// The exact contract of `load_register_into_hl_location`: relates the state after the body to
/// the state before, together with the result.
pub open spec fn load_register_into_hl_location_rel(pre: Emulator, post: Emulator, opcode: u8, r: OpResult) -> bool {
    match spec_parse_register(opcode, 0b00000111) {
            Err(e) => r == Err::<(), OpError>(spec_op_error(e)) && post == pre,
            Ok(register) => ({
                let location = pre.pair_value(RegisterPair::Hl);
                let value = pre.reg_val(register);
                &&& mem_step(pre, post, location, value)
                &&& post == (Emulator {
                    cycles_processed: bump_cycles(pre.cycles_processed),
                    memory_mapping: post.memory_mapping,
                    ..pre
                })
                &&& r == match pre.memory_mapping.spec_write(location, value) {
                    Ok(u) => Ok::<(), OpError>(u),
                    Err(e) => Err::<(), OpError>(OpError::Memory(e)),
                }
            }),
        }
}

/// LD r, r'
///
/// r <- r'
///
/// Loads the contents of register r' into register r.
pub fn load_register_into_register(emulator: &mut Emulator, opcode: u8) -> (r: OpResult)
    ensures
        load_register_into_register_rel(*old(emulator), *final(emulator), opcode, r),
{
    let source = match opcode.parse_register(0b00000111) {
        Ok(register) => register,
        Err(e) => {
            return Err(op_error(e));
        },
    };

    let destination = match opcode.parse_register(0b00111000) {
        Ok(register) => register,
        Err(e) => {
            return Err(op_error(e));
        },
    };

    let value = emulator.register(&source);

    emulator.set_register(destination, value);

    Ok(())
}

/// The exact contract of `load_register_into_register`: relates the state after the body to
/// the state before, together with the result.
pub open spec fn load_register_into_register_rel(pre: Emulator, post: Emulator, opcode: u8, r: OpResult) -> bool {
    match spec_parse_register(opcode, 0b00000111) {
            Err(e) => r == Err::<(), OpError>(spec_op_error(e)) && post == pre,
            Ok(source) => match spec_parse_register(opcode, 0b00111000) {
                Err(e) => r == Err::<(), OpError>(spec_op_error(e)) && post == pre,
                Ok(destination) => r is Ok && post == pre.with_reg(
                    destination,
                    pre.reg_val(source),
                ),
            },
        }
}

/// LDHL SP, e
///
/// HL <- SP + e
///
/// Loads the sum of the stack pointer and signed 8-bit immediate operand e
/// into register pair HL; CY and H come from the low-byte lane and Z and N
/// are cleared.
pub fn load_sp_and_immediate_e_into_hl(emulator: &mut Emulator, opcode: u8) -> (r: OpResult)
    requires
        old(emulator).wf(),
    ensures
        final(emulator).wf(),
        load_sp_and_immediate_e_into_hl_rel(*old(emulator), *final(emulator), opcode, r),
{
    let e = match emulator.read_immediate_e() {
        Ok(v) => v,
        Err(e) => {
            return Err(OpError::Memory(e));
        },
    };

    let sp = emulator.stack_pointer();
    let value = emulator.add_signed(sp, e, false);

    emulator.set_register_pair(RegisterPair::Hl, value);

    Ok(())
}

/// The exact contract of `load_sp_and_immediate_e_into_hl`: relates the state after the body to
/// the state before, together with the result.
pub open spec fn load_sp_and_immediate_e_into_hl_rel(pre: Emulator, post: Emulator, opcode: u8, r: OpResult) -> bool {
    match pre.memory_mapping.spec_read(pre.program_counter) {
            Err(e) => r == Err::<(), OpError>(OpError::Memory(e)) && post == (Emulator {
                cycles_processed: bump_cycles(pre.cycles_processed),
                program_counter: ((pre.program_counter + 1) % 0x10000) as u16,
                ..pre
            }),
            Ok(value) => r is Ok && post == (Emulator {
                cycles_processed: bump_cycles(pre.cycles_processed),
                program_counter: ((pre.program_counter + 1) % 0x10000) as u16,
                flag_cy: signed_add_carry(pre.stack_pointer, value as i8, false),
                flag_h: signed_add_half_carry(pre.stack_pointer, value as i8, false),
                flag_n: false,
                flag_z: false,
                ..pre.with_pair(
                    RegisterPair::Hl,
                    signed_add_value(pre.stack_pointer, value as i8),
                )
            }),
        }
}

/// LD (nn), SP
///
/// (nn) <- SPL; (nn + 1) <- SPH
///
/// Loads the stack pointer into memory specified by 16-bit immediate
/// operand nn, low byte first.
pub fn load_sp_into_nn_location(emulator: &mut Emulator, opcode: u8) -> (r: OpResult)
    requires
        old(emulator).wf(),
    ensures
        final(emulator).wf(),
        load_sp_into_nn_location_rel(*old(emulator), *final(emulator), opcode, r),
{
    let nn = match emulator.read_immediate_nn() {
        Ok(v) => v,
        Err(e) => {
            return Err(OpError::Memory(e));
        },
    };

    let sp = emulator.stack_pointer();

    let sp_low = (sp % 256) as u8;
    let sp_high = (sp / 256) as u8;

    match emulator.write(nn, sp_low) {
        Ok(u) => {},
        Err(e) => {
            return Err(OpError::Memory(e));
        },
    };

    let ghost mid = *emulator;

    let r = match emulator.write(nn.wrapping_add(1), sp_high) {
        Ok(u) => Ok(u),
        Err(e) => Err(OpError::Memory(e)),
    };

    proof {
        lemma_mem_step_compose(
            *old(emulator),
            mid,
            *emulator,
            nn,
            sp_low,
            ((nn + 1) % 0x10000) as u16,
            sp_high,
        );
    }

    r
}

/// The exact contract of `load_sp_into_nn_location`: relates the state after the body to
/// the state before, together with the result.
pub open spec fn load_sp_into_nn_location_rel(pre: Emulator, post: Emulator, opcode: u8, r: OpResult) -> bool {
    ({
            let pc = pre.program_counter;
            let sp_low = (pre.stack_pointer % 256) as u8;
            let sp_high = (pre.stack_pointer / 256) as u8;
            match pre.memory_mapping.spec_read(pc) {
                Err(e) => r == Err::<(), OpError>(OpError::Memory(e)) && post
                    == (Emulator {
                    cycles_processed: bump_cycles(pre.cycles_processed),
                    program_counter: ((pc + 1) % 0x10000) as u16,
                    ..pre
                }),
                Ok(low) => match pre.memory_mapping.spec_read(((pc + 1) % 0x10000) as u16) {
                    Err(e) => r == Err::<(), OpError>(OpError::Memory(e)) && post
                        == (Emulator {
                        cycles_processed: bump_cycles(bump_cycles(pre.cycles_processed)),
                        program_counter: ((pc + 2) % 0x10000) as u16,
                        ..pre
                    }),
                    Ok(high) => ({
                        let nn = (high * 256 + low) as u16;
                        match pre.memory_mapping.spec_write(nn, sp_low) {
                            Err(e) => {
                                &&& r == Err::<(), OpError>(OpError::Memory(e))
                                &&& mem_step(pre, post, nn, sp_low)
                                &&& post == (Emulator {
                                    cycles_processed: bump_cycles(
                                        bump_cycles(bump_cycles(pre.cycles_processed)),
                                    ),
                                    program_counter: ((pc + 2) % 0x10000) as u16,
                                    memory_mapping: post.memory_mapping,
                                    ..pre
                                })
                            },
                            Ok(u) => {
                                &&& mem_step2(
                                    pre,
                                    post,
                                    nn,
                                    sp_low,
                                    ((nn + 1) % 0x10000) as u16,
                                    sp_high,
                                )
                                &&& post == (Emulator {
                                    cycles_processed: bump_cycles(
                                        bump_cycles(
                                            bump_cycles(
                                                bump_cycles(pre.cycles_processed),
                                            ),
                                        ),
                                    ),
                                    program_counter: ((pc + 2) % 0x10000) as u16,
                                    memory_mapping: post.memory_mapping,
                                    ..pre
                                })
                                &&& r == match pre.memory_mapping.spec_write(
                                    ((nn + 1) % 0x10000) as u16,
                                    sp_high,
                                ) {
                                    Ok(u2) => Ok::<(), OpError>(u2),
                                    Err(e) => Err::<(), OpError>(OpError::Memory(e)),
                                }
                            },
                        }
                    }),
                },
            }
        })
}

/// POP qq
///
/// qqL <- (SP); qqH <- (SP + 1); SP <- SP + 2
///
/// Pops two bytes from the stack into register pair qq (AF for code 0b11;
/// the low nibble of the popped flag byte reads back as zero).
pub fn pop_register_pair(emulator: &mut Emulator, opcode: u8) -> (r: OpResult)
    requires
        old(emulator).wf(),
    ensures
        final(emulator).wf(),
        pop_register_pair_rel(*old(emulator), *final(emulator), opcode, r),
{
    let register_pair = match opcode.parse_register_pair(0b00_110_000) {
        Ok(register_pair) => register_pair,
        Err(e) => {
            return Err(op_error(e));
        },
    };

    let sp = emulator.stack_pointer();

    let low = match emulator.read(sp) {
        Ok(v) => v,
        Err(e) => {
            return Err(OpError::Memory(e));
        },
    };

    let high = match emulator.read(sp.wrapping_add(1)) {
        Ok(v) => v,
        Err(e) => {
            return Err(OpError::Memory(e));
        },
    };

    emulator.set_register_pair(register_pair, (high as u16) * 256 + (low as u16));

    emulator.set_stack_pointer(sp.wrapping_add(2));

    Ok(())
}

/// The exact contract of `pop_register_pair`: relates the state after the body to
/// the state before, together with the result.
pub open spec fn pop_register_pair_rel(pre: Emulator, post: Emulator, opcode: u8, r: OpResult) -> bool {
    match spec_parse_register_pair(opcode, 0b00_110_000) {
            Ok(register_pair) => pop_rel(pre, post, register_pair, r),
            Err(e) => r == Err::<(), OpError>(spec_op_error(e)) && post == pre,
        }
}

/// PUSH qq
///
/// (SP - 1) <- qqH; (SP - 2) <- qqL; SP <- SP - 2
///
/// Pushes register pair qq onto the stack, high byte first (AF for code
/// 0b11; the low byte pushed is the packed flag byte).
pub fn push_register_pair(emulator: &mut Emulator, opcode: u8) -> (r: OpResult)
    requires
        old(emulator).wf(),
    ensures
        final(emulator).wf(),
        push_register_pair_rel(*old(emulator), *final(emulator), opcode, r),
{
    let register_pair = match opcode.parse_register_pair(0b00_110_000) {
        Ok(register_pair) => register_pair,
        Err(e) => {
            return Err(op_error(e));
        },
    };

    let value = emulator.register_pair(&register_pair);
    let sp = emulator.stack_pointer();

    let high = (value / 256) as u8;
    let low = (value % 256) as u8;

    match emulator.write(sp.wrapping_sub(1), high) {
        Ok(u) => {},
        Err(e) => {
            return Err(OpError::Memory(e));
        },
    };

    let ghost mid = *emulator;

    match emulator.write(sp.wrapping_sub(2), low) {
        Ok(u) => {},
        Err(e) => {
            proof {
                lemma_mem_step_compose(
                    *old(emulator),
                    mid,
                    *emulator,
                    stack_minus_1(sp),
                    high,
                    stack_minus_2(sp),
                    low,
                );
            }

            return Err(OpError::Memory(e));
        },
    };

    proof {
        lemma_mem_step_compose(
            *old(emulator),
            mid,
            *emulator,
            stack_minus_1(sp),
            high,
            stack_minus_2(sp),
            low,
        );
    }

    emulator.set_stack_pointer(sp.wrapping_sub(2));

    Ok(())
}

/// The exact contract of `push_register_pair`: relates the state after the body to
/// the state before, together with the result.
pub open spec fn push_register_pair_rel(pre: Emulator, post: Emulator, opcode: u8, r: OpResult) -> bool {
    match spec_parse_register_pair(opcode, 0b00_110_000) {
            Ok(register_pair) => push_rel(pre, post, register_pair, r),
            Err(e) => r == Err::<(), OpError>(spec_op_error(e)) && post == pre,
        }
}

} // verus!
