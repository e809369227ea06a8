//! The call instruction family: calls and returns, their
//! condition-controlled forms, the interrupt-returning RETI, and the
//! restart traps. A call pushes the program counter after its operands
//! have been consumed, high byte at SP-1 and low byte at SP-2.

use vstd::prelude::*;

use crate::emulator::{
    bump_cycles, lemma_mem_step_compose, mem_step, mem_step2, Emulator,
};
use crate::instruction::{op_error, spec_op_error, OpError, OpResult};
use crate::opcode::{spec_parse_condition, spec_parse_page, Opcode};

verus! {

/// The address one below the stack pointer, wrapping.
pub open spec fn sp_minus_1(sp: u16) -> u16 {
    ((sp + 0xffff) % 0x10000) as u16
}

/// The address two below the stack pointer, wrapping.
pub open spec fn sp_minus_2(sp: u16) -> u16 {
    ((sp + 0xfffe) % 0x10000) as u16
}

/// Relates the states before and after the return-address push: the high
/// byte of the program counter is written at SP-1 and the low byte at
/// SP-2, aborting at the first refused write; the stack pointer itself is
/// not yet moved.
pub open spec fn push_pc_rel(pre: Emulator, post: Emulator, r: OpResult) -> bool {
    let high = (pre.program_counter / 256) as u8;
    let low = (pre.program_counter % 256) as u8;
    match pre.memory_mapping.spec_write(sp_minus_1(pre.stack_pointer), high) {
        Err(e) => {
            &&& r == Err::<(), OpError>(OpError::Memory(e))
            &&& mem_step(pre, post, sp_minus_1(pre.stack_pointer), high)
            &&& post == (Emulator {
                cycles_processed: bump_cycles(pre.cycles_processed),
                memory_mapping: post.memory_mapping,
                ..pre
            })
        },
        Ok(u) => {
            &&& mem_step2(
                pre,
                post,
                sp_minus_1(pre.stack_pointer),
                high,
                sp_minus_2(pre.stack_pointer),
                low,
            )
            &&& post == (Emulator {
                cycles_processed: bump_cycles(bump_cycles(pre.cycles_processed)),
                memory_mapping: post.memory_mapping,
                ..pre
            })
            &&& r == match pre.memory_mapping.spec_write(sp_minus_2(pre.stack_pointer), low) {
                Ok(u2) => Ok::<(), OpError>(u2),
                Err(e) => Err::<(), OpError>(OpError::Memory(e)),
            }
        },
    }
}

/// Pushes the program counter onto the stack: high byte at SP-1, low byte
/// at SP-2, leaving the stack pointer itself unchanged.
fn store_program_counter(emulator: &mut Emulator) -> (r: OpResult)
    requires
        old(emulator).wf(),
    ensures
        final(emulator).wf(),
        push_pc_rel(*old(emulator), *final(emulator), r),
{
    let pc = emulator.program_counter();
    let sp = emulator.stack_pointer();

    let high = (pc / 256) as u8;
    let low = (pc % 256) as u8;

    match emulator.write(sp.wrapping_sub(1), high) {
        Ok(u) => {},
        Err(e) => {
            return Err(OpError::Memory(e));
        },
    };

    let ghost mid = *emulator;

    let r = match emulator.write(sp.wrapping_sub(2), low) {
        Ok(u) => Ok(u),
        Err(e) => Err(OpError::Memory(e)),
    };

    proof {
        lemma_mem_step_compose(
            *old(emulator),
            mid,
            *emulator,
            sp_minus_1(old(emulator).stack_pointer),
            high,
            sp_minus_2(old(emulator).stack_pointer),
            low,
        );
    }

    r
}

/// CALL nn
///
/// (SP - 1) <- PCH; (SP - 2) <- PCL; SP <- SP - 2; PC <- nn
///
/// Reads the 16-bit target, pushes the program counter that now points
/// past the operands, decrements the stack pointer by two, and loads the
/// target into the program counter.
pub fn call(emulator: &mut Emulator, opcode: u8) -> (r: OpResult)
    requires
        old(emulator).wf(),
    ensures
        final(emulator).wf(),
        call_rel(*old(emulator), *final(emulator), opcode, r),
{
    let nn = match emulator.read_immediate_nn() {
        Ok(value) => value,
        Err(e) => {
            return Err(OpError::Memory(e));
        },
    };

    let ghost fetched = *emulator;

    let r = call_tail(emulator, nn);

    proof {
        assert(call_tail_rel(fetched, *emulator, nn, r));
    }

    r
}

/// The exact contract of `call`: relates the state after the body to
/// the state before, together with the result.
pub open spec fn call_rel(pre: Emulator, post: Emulator, opcode: u8, r: OpResult) -> bool {
    ({
            let pc = pre.program_counter;
            match pre.memory_mapping.spec_read(pc) {
                Err(e) => r == Err::<(), OpError>(OpError::Memory(e)) && post
                    == (Emulator {
                    cycles_processed: bump_cycles(pre.cycles_processed),
                    program_counter: ((pc + 1) % 0x10000) as u16,
                    ..pre
                }),
                Ok(low) => match pre.memory_mapping.spec_read(((pc + 1) % 0x10000) as u16) {
                    Err(e) => r == Err::<(), OpError>(OpError::Memory(e)) && post
                        == (Emulator {
                        cycles_processed: bump_cycles(bump_cycles(pre.cycles_processed)),
                        program_counter: ((pc + 2) % 0x10000) as u16,
                        ..pre
                    }),
                    Ok(high) => ({
                        let fetched = (Emulator {
                            cycles_processed: bump_cycles(
                                bump_cycles(pre.cycles_processed),
                            ),
                            program_counter: ((pc + 2) % 0x10000) as u16,
                            ..pre
                        });
                        call_tail_rel(fetched, post, (high * 256 + low) as u16, r)
                    }),
                },
            }
        })
}

/// Relates the states around the push-and-jump tail of a taken call: the
/// return address is pushed, and when both writes are accepted the stack
/// pointer drops by two and the program counter loads the target.
pub open spec fn call_tail_rel(pre: Emulator, post: Emulator, target: u16, r: OpResult) -> bool {
    let high = (pre.program_counter / 256) as u8;
    let low = (pre.program_counter % 256) as u8;
    match pre.memory_mapping.spec_write(sp_minus_1(pre.stack_pointer), high) {
        Err(e) => {
            &&& r == Err::<(), OpError>(OpError::Memory(e))
            &&& mem_step(pre, post, sp_minus_1(pre.stack_pointer), high)
            &&& post == (Emulator {
                cycles_processed: bump_cycles(pre.cycles_processed),
                memory_mapping: post.memory_mapping,
                ..pre
            })
        },
        Ok(u) => {
            &&& mem_step2(
                pre,
                post,
                sp_minus_1(pre.stack_pointer),
                high,
                sp_minus_2(pre.stack_pointer),
                low,
            )
            &&& match pre.memory_mapping.spec_write(sp_minus_2(pre.stack_pointer), low) {
                Err(e) => r == Err::<(), OpError>(OpError::Memory(e)) && post == (Emulator {
                    cycles_processed: bump_cycles(bump_cycles(pre.cycles_processed)),
                    memory_mapping: post.memory_mapping,
                    ..pre
                }),
                Ok(u2) => r is Ok && post == (Emulator {
                    cycles_processed: bump_cycles(bump_cycles(bump_cycles(pre.cycles_processed))),
                    memory_mapping: post.memory_mapping,
                    stack_pointer: sp_minus_2(pre.stack_pointer),
                    program_counter: target,
                    ..pre
                }),
            }
        },
    }
}

/// The push-and-jump tail shared by the taken call forms.
fn call_tail(emulator: &mut Emulator, target: u16) -> (r: OpResult)
    requires
        old(emulator).wf(),
    ensures
        final(emulator).wf(),
        call_tail_rel(*old(emulator), *final(emulator), target, r),
{
    match store_program_counter(emulator) {
        Ok(u) => {},
        Err(e) => {
            return Err(e);
        },
    };

    let sp = emulator.stack_pointer();

    emulator.set_stack_pointer(sp.wrapping_sub(2));

    emulator.set_program_counter(target);

    Ok(())
}

/// CALL cc, nn
///
/// Reads the 16-bit target either way; when the condition holds, pushes
/// the program counter, decrements the stack pointer by two and jumps.
pub fn call_if_condition(emulator: &mut Emulator, opcode: u8) -> (r: OpResult)
    requires
        old(emulator).wf(),
    ensures
        final(emulator).wf(),
        call_if_condition_rel(*old(emulator), *final(emulator), opcode, r),
{
    let condition = match opcode.parse_condition(0b00_011_000) {
        Ok(condition) => condition,
        Err(e) => {
            return Err(op_error(e));
        },
    };

    let taken = condition.check(emulator);

    let nn = match emulator.read_immediate_nn() {
        Ok(value) => value,
        Err(e) => {
            return Err(OpError::Memory(e));
        },
    };

    if taken {
        call_tail(emulator, nn)
    } else {
        Ok(())
    }
}

/// The exact contract of `call_if_condition`: relates the state after the body to
/// the state before, together with the result.
pub open spec fn call_if_condition_rel(pre: Emulator, post: Emulator, opcode: u8, r: OpResult) -> bool {
    match spec_parse_condition(opcode, 0b00_011_000) {
            Ok(condition) => ({
                let pc = pre.program_counter;
                match pre.memory_mapping.spec_read(pc) {
                    Err(e) => r == Err::<(), OpError>(OpError::Memory(e)) && post
                        == (Emulator {
                        cycles_processed: bump_cycles(pre.cycles_processed),
                        program_counter: ((pc + 1) % 0x10000) as u16,
                        ..pre
                    }),
                    Ok(low) => match pre.memory_mapping.spec_read(
                        ((pc + 1) % 0x10000) as u16,
                    ) {
                        Err(e) => r == Err::<(), OpError>(OpError::Memory(e)) && post
                            == (Emulator {
                            cycles_processed: bump_cycles(
                                bump_cycles(pre.cycles_processed),
                            ),
                            program_counter: ((pc + 2) % 0x10000) as u16,
                            ..pre
                        }),
                        Ok(high) => ({
                            let fetched = (Emulator {
                                cycles_processed: bump_cycles(
                                    bump_cycles(pre.cycles_processed),
                                ),
                                program_counter: ((pc + 2) % 0x10000) as u16,
                                ..pre
                            });
                            if condition.spec_holds(pre) {
                                call_tail_rel(
                                    fetched,
                                    post,
                                    (high * 256 + low) as u16,
                                    r,
                                )
                            } else {
                                r is Ok && post == fetched
                            }
                        }),
                    },
                }
            }),
            Err(e) => r == Err::<(), OpError>(spec_op_error(e)) && post == pre,
        }
}

/// Relates the states around a taken return: the low byte of the new
/// program counter is read at SP and the high byte at SP+1, the program
/// counter loads the pair, and the stack pointer rises by two.
pub open spec fn ret_rel(pre: Emulator, post: Emulator, r: OpResult) -> bool {
    let sp = pre.stack_pointer;
    match pre.memory_mapping.spec_read(sp) {
        Err(e) => r == Err::<(), OpError>(OpError::Memory(e)) && post == (Emulator {
            cycles_processed: bump_cycles(pre.cycles_processed),
            ..pre
        }),
        Ok(low) => match pre.memory_mapping.spec_read(((sp + 1) % 0x10000) as u16) {
            Err(e) => r == Err::<(), OpError>(OpError::Memory(e)) && post == (Emulator {
                cycles_processed: bump_cycles(bump_cycles(pre.cycles_processed)),
                ..pre
            }),
            Ok(high) => r is Ok && post == (Emulator {
                cycles_processed: bump_cycles(bump_cycles(bump_cycles(pre.cycles_processed))),
                program_counter: (high * 256 + low) as u16,
                stack_pointer: ((sp + 2) % 0x10000) as u16,
                ..pre
            }),
        },
    }
}

/// RET
///
/// PCL <- (SP); PCH <- (SP + 1); SP <- SP + 2
///
/// Pops the return address into the program counter and raises the stack
/// pointer by two.
pub fn ret(emulator: &mut Emulator, opcode: u8) -> (r: OpResult)
    requires
        old(emulator).wf(),
    ensures
        final(emulator).wf(),
        ret_rel(*old(emulator), *final(emulator), r),
{
    let sp = emulator.stack_pointer();

    let low = match emulator.read(sp) {
        Ok(value) => value,
        Err(e) => {
            return Err(OpError::Memory(e));
        },
    };

    let high = match emulator.read(sp.wrapping_add(1)) {
        Ok(value) => value,
        Err(e) => {
            return Err(OpError::Memory(e));
        },
    };

    emulator.set_program_counter((high as u16) * 256 + (low as u16));

    emulator.set_stack_pointer(sp.wrapping_add(2));

    Ok(())
}

/// RET cc
///
/// Pops the return address into the program counter when the condition
/// holds; an untaken return does nothing.
pub fn ret_if_condition(emulator: &mut Emulator, opcode: u8) -> (r: OpResult)
    requires
        old(emulator).wf(),
    ensures
        final(emulator).wf(),
        ret_if_condition_rel(*old(emulator), *final(emulator), opcode, r),
{
    let condition = match opcode.parse_condition(0b00_011_000) {
        Ok(condition) => condition,
        Err(e) => {
            return Err(op_error(e));
        },
    };

    if condition.check(emulator) {
        ret(emulator, opcode)
    } else {
        Ok(())
    }
}

/// The exact contract of `ret_if_condition`: relates the state after the body to
/// the state before, together with the result.
pub open spec fn ret_if_condition_rel(pre: Emulator, post: Emulator, opcode: u8, r: OpResult) -> bool {
    match spec_parse_condition(opcode, 0b00_011_000) {
            Ok(condition) => if condition.spec_holds(pre) {
                ret_rel(pre, post, r)
            } else {
                r is Ok && post == pre
            },
            Err(e) => r == Err::<(), OpError>(spec_op_error(e)) && post == pre,
        }
}

/// RETI
///
/// Sets the interrupt master enable flag and pops the return address into
/// the program counter.
pub fn reti(emulator: &mut Emulator, opcode: u8) -> (r: OpResult)
    requires
        old(emulator).wf(),
    ensures
        final(emulator).wf(),
        reti_rel(*old(emulator), *final(emulator), opcode, r),
{
    emulator.set_interrupt_master_enable(true);

    ret(emulator, opcode)
}

/// The exact contract of `reti`: relates the state after the body to
/// the state before, together with the result.
pub open spec fn reti_rel(pre: Emulator, post: Emulator, opcode: u8, r: OpResult) -> bool {
    ret_rel(
            (Emulator { interrupt_master_enable: true, ..pre }),
            post,
            r,
        )
}

/// RST t
///
/// (SP - 1) <- PCH; (SP - 2) <- PCL; SP <- SP - 2; PC <- t * 0x08
///
/// Pushes the program counter, decrements the stack pointer by two, and
/// jumps to the page-zero trap address selected by the opcode.
pub fn reset_to_page(emulator: &mut Emulator, opcode: u8) -> (r: OpResult)
    requires
        old(emulator).wf(),
    ensures
        final(emulator).wf(),
        reset_to_page_rel(*old(emulator), *final(emulator), opcode, r),
{
    let page = match opcode.parse_page(0b00_111_000) {
        Ok(page) => page,
        Err(e) => {
            return Err(op_error(e));
        },
    };

    call_tail(emulator, page)
}

/// The exact contract of `reset_to_page`: relates the state after the body to
/// the state before, together with the result.
pub open spec fn reset_to_page_rel(pre: Emulator, post: Emulator, opcode: u8, r: OpResult) -> bool {
    match spec_parse_page(opcode, 0b00_111_000) {
            Ok(page) => call_tail_rel(pre, post, page, r),
            Err(e) => r == Err::<(), OpError>(spec_op_error(e)) && post == pre,
        }
}

} // verus!
