//! The CPU state: the eight-register file with its packed flag byte, the
//! 16-bit program counter and stack pointer, the interrupt-master-enable
//! latch, the prefix and jumped latches, the run mode, the cycle counter,
//! and the memory bus. Every accessor and mutator carries a contract that
//! pins the whole state after the call.

use vstd::prelude::*;

use crate::addresses::PROGRAM_COUNTER_START;
use crate::bits::{
    add8_carry, add8_half_carry, add8_value, bit_add, bit_subtract, sub8_borrow, sub8_half_borrow,
    sub8_value,
};
use crate::flag::Flag;
use crate::memory_component::{
    BusComponent, MemoryComponent, MemoryError, SerialTransferComponent, SoundComponent,
    StackComponent, UnimplementedMemory, UnusableRamComponent, WorkRamComponent,
};
use crate::memory_mapping::MemoryMapping;
use crate::register::{Register, RegisterPair};

verus! {

/// The run mode of the CPU.
#[derive(Clone, Copy, Debug, Eq, PartialEq, Structural)]
pub enum EmulationState {
    /// Waiting for an interrupt; each step consumes one cycle.
    Halt,
    /// Executing instructions.
    Run,
    /// Stopped until a joypad signal; each step is a no-op.
    Stop,
}

/// The CPU with its memory bus.
pub struct Emulator {
    /// The accumulator.
    pub a: u8,
    /// The B register.
    pub b: u8,
    /// The C register.
    pub c: u8,
    /// The cycle counter: one M-cycle per bus access, plus one for every
    /// explicit load of the program counter.
    pub cycles_processed: usize,
    /// The D register.
    pub d: u8,
    /// The E register.
    pub e: u8,
    /// The CY flag (bit 4 of F).
    pub flag_cy: bool,
    /// The H flag (bit 5 of F).
    pub flag_h: bool,
    /// The N flag (bit 6 of F).
    pub flag_n: bool,
    /// The Z flag (bit 7 of F).
    pub flag_z: bool,
    /// The H register.
    pub h: u8,
    /// The interrupt-master-enable latch.
    pub interrupt_master_enable: bool,
    /// Whether an interrupt is pending, as signalled by the external
    /// interrupt controller; a pending interrupt releases the Halt mode.
    pub interrupt_pending: bool,
    /// Set by every taken jump; test harnesses use it to see that a branch
    /// actually fired.
    pub jumped: bool,
    /// The L register.
    pub l: u8,
    /// The memory bus.
    pub memory_mapping: MemoryMapping,
    /// The prefix latch: true for exactly the one fetch that follows a CB
    /// byte.
    pub prefixed: bool,
    /// The program counter.
    pub program_counter: u16,
    /// The stack pointer.
    pub stack_pointer: u16,
    /// The run mode.
    pub state: EmulationState,
}

/// The cycle counter after charging one M-cycle (the counter wraps).
pub open spec fn bump_cycles(cycles: usize) -> usize {
    if cycles == usize::MAX {
        0
    } else {
        (cycles + 1) as usize
    }
}

/// The magnitude of a signed 8-bit offset.
pub open spec fn signed_magnitude(e: i8) -> u8 {
    if e >= 0 {
        e as u8
    } else {
        (-(e as int)) as u8
    }
}

/// The 16-bit wrapping sum of a base and a signed 8-bit offset.
pub open spec fn signed_add_value(base: u16, e: i8) -> u16 {
    if e >= 0 {
        ((base + signed_magnitude(e)) % 0x10000) as u16
    } else {
        ((base + 0x10000 - signed_magnitude(e)) % 0x10000) as u16
    }
}

/// The CY flag of a signed 16-bit add: computed in the low 8-bit lane, as an
/// unsigned add for a non-negative offset and as an unsigned subtract of the
/// magnitude otherwise.
pub open spec fn signed_add_carry(base: u16, e: i8, carry: bool) -> bool {
    if e >= 0 {
        add8_carry((base % 256) as u8, signed_magnitude(e), carry)
    } else {
        sub8_borrow((base % 256) as u8, signed_magnitude(e), carry)
    }
}

/// The H flag of a signed 16-bit add, computed in the low 8-bit lane.
pub open spec fn signed_add_half_carry(base: u16, e: i8, carry: bool) -> bool {
    if e >= 0 {
        add8_half_carry((base % 256) as u8, signed_magnitude(e), carry)
    } else {
        sub8_half_borrow((base % 256) as u8, signed_magnitude(e), carry)
    }
}

/// Relates the memory bus before and after one write of `value` at
/// `location`: reads change exactly on the written storage cell, and the
/// address routing is untouched.
pub open spec fn mem_step(pre: Emulator, post: Emulator, location: u16, value: u8) -> bool {
    &&& post.memory_mapping.wf()
    &&& forall|x: u16|
        post.memory_mapping.spec_read(x) == pre.memory_mapping.read_after_write(location, value, x)
    &&& forall|x: u16| post.memory_mapping.owner(x) == pre.memory_mapping.owner(x)
    &&& post.memory_mapping.components@.len() == pre.memory_mapping.components@.len()
    &&& forall|x: u16|
        post.memory_mapping.write_accepted(x) <==> pre.memory_mapping.write_accepted(x)
    &&& forall|x: u16| post.memory_mapping.stores(x) <==> pre.memory_mapping.stores(x)
    &&& forall|x: u16, y: u16|
        post.memory_mapping.aliased(x, y) <==> pre.memory_mapping.aliased(x, y)
    &&& forall|x: u16, v: u8|
        #[trigger] post.memory_mapping.spec_write(x, v) == pre.memory_mapping.spec_write(x, v)
}

/// What a read at `x` returns after two writes in order: first `v1` at
/// `l1`, then `v2` at `l2`.
pub open spec fn read_after_write2(
    m: MemoryMapping,
    l1: u16,
    v1: u8,
    l2: u16,
    v2: u8,
    x: u16,
) -> Result<u8, MemoryError> {
    if m.write_accepted(l2) && m.stores(l2) && m.aliased(l2, x) {
        Ok(v2)
    } else {
        m.read_after_write(l1, v1, x)
    }
}

/// Relates the memory bus before and after two writes in order.
pub open spec fn mem_step2(
    pre: Emulator,
    post: Emulator,
    l1: u16,
    v1: u8,
    l2: u16,
    v2: u8,
) -> bool {
    &&& post.memory_mapping.wf()
    &&& forall|x: u16|
        post.memory_mapping.spec_read(x) == read_after_write2(pre.memory_mapping, l1, v1, l2, v2, x)
    &&& forall|x: u16| post.memory_mapping.owner(x) == pre.memory_mapping.owner(x)
    &&& post.memory_mapping.components@.len() == pre.memory_mapping.components@.len()
    &&& forall|x: u16|
        post.memory_mapping.write_accepted(x) <==> pre.memory_mapping.write_accepted(x)
    &&& forall|x: u16| post.memory_mapping.stores(x) <==> pre.memory_mapping.stores(x)
    &&& forall|x: u16, y: u16|
        post.memory_mapping.aliased(x, y) <==> pre.memory_mapping.aliased(x, y)
    &&& forall|x: u16, v: u8|
        #[trigger] post.memory_mapping.spec_write(x, v) == pre.memory_mapping.spec_write(x, v)
}

/// Two single-write steps compose into one two-write step.
pub proof fn lemma_mem_step_compose(
    pre: Emulator,
    mid: Emulator,
    post: Emulator,
    l1: u16,
    v1: u8,
    l2: u16,
    v2: u8,
)
    requires
        mem_step(pre, mid, l1, v1),
        mem_step(mid, post, l2, v2),
    ensures
        mem_step2(pre, post, l1, v1, l2, v2),
{
}

impl Emulator {
    /// The CPU invariant: the bus is well formed.
    pub open spec fn wf(self) -> bool {
        self.memory_mapping.wf()
    }

    /// The value of a register.
    pub open spec fn reg_val(self, register: Register) -> u8 {
        match register {
            Register::A => self.a,
            Register::B => self.b,
            Register::C => self.c,
            Register::D => self.d,
            Register::E => self.e,
            Register::H => self.h,
            Register::L => self.l,
        }
    }

    /// This state with one register replaced.
    pub open spec fn with_reg(self, register: Register, value: u8) -> Self {
        match register {
            Register::A => Emulator { a: value, ..self },
            Register::B => Emulator { b: value, ..self },
            Register::C => Emulator { c: value, ..self },
            Register::D => Emulator { d: value, ..self },
            Register::E => Emulator { e: value, ..self },
            Register::H => Emulator { h: value, ..self },
            Register::L => Emulator { l: value, ..self },
        }
    }

    /// Whether a flag is set.
    pub open spec fn flag_val(self, flag: Flag) -> bool {
        match flag {
            Flag::Z => self.flag_z,
            Flag::N => self.flag_n,
            Flag::H => self.flag_h,
            Flag::CY => self.flag_cy,
        }
    }

    /// This state with one flag replaced.
    pub open spec fn with_flag(self, flag: Flag, value: bool) -> Self {
        match flag {
            Flag::Z => Emulator { flag_z: value, ..self },
            Flag::N => Emulator { flag_n: value, ..self },
            Flag::H => Emulator { flag_h: value, ..self },
            Flag::CY => Emulator { flag_cy: value, ..self },
        }
    }

    /// The packed flag byte `Z N H CY 0 0 0 0`: the low nibble always reads
    /// back as zero.
    pub open spec fn flags_value(self) -> u8 {
        ((if self.flag_z {
            0x80int
        } else {
            0int
        }) + (if self.flag_n {
            0x40int
        } else {
            0int
        }) + (if self.flag_h {
            0x20int
        } else {
            0int
        }) + (if self.flag_cy {
            0x10int
        } else {
            0int
        })) as u8
    }

    /// The 16-bit value of a register pair; for AF the low byte is the
    /// packed flag byte.
    pub open spec fn pair_value(self, register_pair: RegisterPair) -> u16 {
        match register_pair {
            RegisterPair::Af => (self.a * 256 + self.flags_value()) as u16,
            RegisterPair::Bc => (self.b * 256 + self.c) as u16,
            RegisterPair::De => (self.d * 256 + self.e) as u16,
            RegisterPair::Hl => (self.h * 256 + self.l) as u16,
        }
    }

    /// This state with one register pair replaced. Writing AF replaces the
    /// flags from bits 7..4 of the low byte; its bits 3..0 are discarded.
    pub open spec fn with_pair(self, register_pair: RegisterPair, value: u16) -> Self {
        match register_pair {
            RegisterPair::Af => Emulator {
                a: (value / 256) as u8,
                flag_z: (value % 256) / 128 == 1,
                flag_n: ((value % 256) / 64) % 2 == 1,
                flag_h: ((value % 256) / 32) % 2 == 1,
                flag_cy: ((value % 256) / 16) % 2 == 1,
                ..self
            },
            RegisterPair::Bc => Emulator { b: (value / 256) as u8, c: (value % 256) as u8, ..self },
            RegisterPair::De => Emulator { d: (value / 256) as u8, e: (value % 256) as u8, ..self },
            RegisterPair::Hl => Emulator { h: (value / 256) as u8, l: (value % 256) as u8, ..self },
        }
    }

    /// The carry fed into an ALU operation: the CY flag when the operation
    /// is a with-carry form, zero otherwise.
    pub open spec fn alu_carry_in(self, with_carry: bool) -> bool {
        with_carry && self.flag_cy
    }

    /// Creates a CPU at power-on: program counter at its start constant,
    /// flags clear, Run mode, and a bus where every address is unmapped.
    pub fn new() -> (r: Self)
        ensures
            r.wf(),
            r.a == 0 && r.b == 1 && r.c == 0 && r.d == 0 && r.e == 0 && r.h == 0 && r.l == 0,
            !r.flag_z && !r.flag_n && !r.flag_h && !r.flag_cy,
            r.cycles_processed == 0,
            !r.interrupt_master_enable && !r.interrupt_pending && !r.jumped && !r.prefixed,
            r.program_counter == PROGRAM_COUNTER_START,
            r.stack_pointer == 0,
            r.state == EmulationState::Run,
            r.memory_mapping.components@.len() == 1,
            r.memory_mapping.components@[0] == BusComponent::Unimplemented(UnimplementedMemory {  }),
            forall|x: u16| r.memory_mapping.owner(x) == 0,
            forall|x: u16|
                r.memory_mapping.spec_read(x) == Err::<u8, MemoryError>(
                    MemoryError::ReadError(x, "unimplemented"),
                ),
            forall|x: u16| !r.memory_mapping.write_accepted(x),
    {
        Emulator {
            a: 0,
            b: 1,
            c: 0,
            cycles_processed: 0,
            d: 0,
            e: 0,
            flag_cy: false,
            flag_h: false,
            flag_n: false,
            flag_z: false,
            h: 0,
            interrupt_master_enable: false,
            interrupt_pending: false,
            jumped: false,
            l: 0,
            memory_mapping: MemoryMapping::new(),
            prefixed: false,
            program_counter: PROGRAM_COUNTER_START,
            stack_pointer: 0,
            state: EmulationState::Run,
        }
    }

    /// The accumulator.
    pub fn a(&self) -> (r: u8)
        ensures
            r == self.a,
    {
        self.a
    }

    /// Registers a memory component on the bus; it shadows earlier owners at
    /// the addresses it maps.
    pub fn add_memory_component(&mut self, memory_component: BusComponent)
        requires
            old(self).wf(),
            memory_component.inv(),
        ensures
            final(self).wf(),
            final(self).memory_mapping.components@ == old(
                self,
            ).memory_mapping.components@.push(memory_component),
            forall|x: u16|
                final(self).memory_mapping.owner(x) == if memory_component.is_mapped(x) {
                    old(self).memory_mapping.components@.len() as int
                } else {
                    old(self).memory_mapping.owner(x)
                },
            *final(self) == (Emulator {
                memory_mapping: final(self).memory_mapping,
                ..*old(self)
            }),
    {
        self.memory_mapping.register_component(memory_component);
    }

    /// Adds a signed 8-bit offset to a 16-bit base with wrap-around. CY and
    /// H are computed in the low 8-bit lane — as an add for a non-negative
    /// offset, as a subtract of the magnitude otherwise — and N and Z are
    /// cleared, the contract of the 16-bit signed-add instructions.
    pub fn add_signed(&mut self, a: u16, b: i8, with_carry: bool) -> (r: u16)
        ensures
            r == signed_add_value(a, b),
            *final(self) == (Emulator {
                flag_cy: signed_add_carry(a, b, old(self).alu_carry_in(with_carry)),
                flag_h: signed_add_half_carry(a, b, old(self).alu_carry_in(with_carry)),
                flag_n: false,
                flag_z: false,
                ..*old(self)
            }),
    {
        let has_carry = with_carry && self.flag_cy;

        if b >= 0 {
            let magnitude = b as u8;
            let low = bit_add((a % 256) as u8, magnitude, has_carry);

            self.flag_cy = low.carry;
            self.flag_h = low.half_carry;
            self.flag_n = false;
            self.flag_z = false;

            a.wrapping_add(magnitude as u16)
        } else {
            let magnitude = (-(b as i16)) as u8;
            let low = bit_subtract((a % 256) as u8, magnitude, has_carry);

            self.flag_cy = low.borrow;
            self.flag_h = low.half_borrow;
            self.flag_n = false;
            self.flag_z = false;

            a.wrapping_sub(magnitude as u16)
        }
    }

    /// Adds a value (plus CY for the with-carry forms) into the
    /// accumulator, updating all four flags.
    pub fn add_to_a(&mut self, value: u8, with_carry: bool)
        ensures
            *final(self) == (Emulator {
                a: add8_value(old(self).a, value, old(self).alu_carry_in(with_carry)),
                flag_cy: add8_carry(old(self).a, value, old(self).alu_carry_in(with_carry)),
                flag_h: add8_half_carry(old(self).a, value, old(self).alu_carry_in(with_carry)),
                flag_n: false,
                flag_z: add8_value(old(self).a, value, old(self).alu_carry_in(with_carry)) == 0,
                ..*old(self)
            }),
    {
        let a = self.a;
        let result = self.add_unsigned(a, value, with_carry);

        self.a = result;
    }

    /// Adds two bytes (plus CY for the with-carry forms), updating all four
    /// flags from the sum; an addition always leaves N clear.
    pub fn add_unsigned(&mut self, a: u8, b: u8, with_carry: bool) -> (r: u8)
        ensures
            r == add8_value(a, b, old(self).alu_carry_in(with_carry)),
            *final(self) == (Emulator {
                flag_cy: add8_carry(a, b, old(self).alu_carry_in(with_carry)),
                flag_h: add8_half_carry(a, b, old(self).alu_carry_in(with_carry)),
                flag_n: false,
                flag_z: add8_value(a, b, old(self).alu_carry_in(with_carry)) == 0,
                ..*old(self)
            }),
    {
        let has_carry = with_carry && self.flag_cy;

        let result = bit_add(a, b, has_carry);

        self.flag_cy = result.carry;
        self.flag_h = result.half_carry;
        self.flag_n = false;
        self.flag_z = result.value == 0;

        result.value
    }

    /// Bitwise-ANDs a value into the accumulator: Z from the result, H set,
    /// N and CY clear.
    pub fn bitwise_and_with_a(&mut self, value: u8)
        ensures
            *final(self) == (Emulator {
                a: old(self).a & value,
                flag_cy: false,
                flag_h: true,
                flag_n: false,
                flag_z: (old(self).a & value) == 0,
                ..*old(self)
            }),
    {
        let result = self.a & value;

        self.flag_cy = false;
        self.flag_h = true;
        self.flag_n = false;
        self.flag_z = result == 0;

        self.a = result;
    }

    /// Bitwise-ORs a value into the accumulator: Z from the result, H, N
    /// and CY clear.
    pub fn bitwise_or_with_a(&mut self, value: u8)
        ensures
            *final(self) == (Emulator {
                a: old(self).a | value,
                flag_cy: false,
                flag_h: false,
                flag_n: false,
                flag_z: (old(self).a | value) == 0,
                ..*old(self)
            }),
    {
        let result = self.a | value;

        self.flag_cy = false;
        self.flag_h = false;
        self.flag_n = false;
        self.flag_z = result == 0;

        self.a = result;
    }

    /// Bitwise-XORs a value into the accumulator: Z from the result, H, N
    /// and CY clear.
    pub fn bitwise_xor_with_a(&mut self, value: u8)
        ensures
            *final(self) == (Emulator {
                a: old(self).a ^ value,
                flag_cy: false,
                flag_h: false,
                flag_n: false,
                flag_z: (old(self).a ^ value) == 0,
                ..*old(self)
            }),
    {
        let result = self.a ^ value;

        self.flag_cy = false;
        self.flag_h = false;
        self.flag_n = false;
        self.flag_z = result == 0;

        self.a = result;
    }

    /// The number of M-cycles processed since the last reset of the counter.
    pub fn cycles(&self) -> (r: usize)
        ensures
            r == self.cycles_processed,
    {
        self.cycles_processed
    }

    /// Whether a flag is set.
    pub fn flag(&self, flag: Flag) -> (r: bool)
        ensures
            r == self.flag_val(flag),
    {
        match flag {
            Flag::Z => self.flag_z,
            Flag::N => self.flag_n,
            Flag::H => self.flag_h,
            Flag::CY => self.flag_cy,
        }
    }

    /// Inverts one flag.
    pub fn flip_flag(&mut self, flag: Flag)
        ensures
            *final(self) == old(self).with_flag(flag, !old(self).flag_val(flag)),
    {
        match flag {
            Flag::Z => self.flag_z = !self.flag_z,
            Flag::N => self.flag_n = !self.flag_n,
            Flag::H => self.flag_h = !self.flag_h,
            Flag::CY => self.flag_cy = !self.flag_cy,
        }
    }

    /// The HL register pair.
    pub fn hl(&self) -> (r: u16)
        ensures
            r == self.pair_value(RegisterPair::Hl),
    {
        (self.h as u16) * 256 + (self.l as u16)
    }

    /// Charges one internal M-cycle that performs no bus access, as the
    /// 16-bit arithmetic of the signed stack-pointer add does.
    pub fn internal_cycle(&mut self)
        ensures
            *final(self) == (Emulator {
                cycles_processed: bump_cycles(old(self).cycles_processed),
                ..*old(self)
            }),
    {
        self.cycles_processed = self.cycles_processed.wrapping_add(1);
    }

    /// The interrupt-master-enable latch.
    pub fn interrupt_master_enable(&self) -> (r: bool)
        ensures
            r == self.interrupt_master_enable,
    {
        self.interrupt_master_enable
    }

    /// Signals that the front-end saw a joypad press, which releases the
    /// Stop mode.
    pub fn joypad_signal(&mut self)
        ensures
            *final(self) == (Emulator { state: EmulationState::Run, ..*old(self) }),
    {
        self.state = EmulationState::Run;
    }

    /// Jumps relative to the current program counter by a signed 8-bit
    /// offset, with wrap-around; records the jump and charges the one cycle
    /// of the program-counter load.
    pub fn jump_relative_to(&mut self, value: i8)
        ensures
            *final(self) == (Emulator {
                program_counter: signed_add_value(old(self).program_counter, value),
                jumped: true,
                cycles_processed: bump_cycles(old(self).cycles_processed),
                ..*old(self)
            }),
    {
        let location = if value >= 0 {
            self.program_counter.wrapping_add(value as u16)
        } else {
            self.program_counter.wrapping_sub((-(value as i16)) as u16)
        };

        self.jump_to(location);
    }

    /// Jumps to an absolute target: loads the program counter (one cycle)
    /// and records the jump.
    pub fn jump_to(&mut self, location: u16)
        ensures
            *final(self) == (Emulator {
                program_counter: location,
                jumped: true,
                cycles_processed: bump_cycles(old(self).cycles_processed),
                ..*old(self)
            }),
    {
        self.set_program_counter(location);

        self.jumped = true;
    }

    /// Reads a byte from the bus without charging a cycle; a debugging and
    /// test accessor, not a CPU memory cycle.
    pub fn memory_location(&self, location: u16) -> (r: Result<u8, MemoryError>)
        requires
            self.wf(),
        ensures
            r == self.memory_mapping.spec_read(location),
    {
        self.memory_mapping.read(location)
    }

    /// The prefix latch.
    pub fn prefixed(&self) -> (r: bool)
        ensures
            r == self.prefixed,
    {
        self.prefixed
    }

    /// Resets the cycle counter.
    pub fn process_cycles(&mut self)
        ensures
            *final(self) == (Emulator { cycles_processed: 0, ..*old(self) }),
    {
        self.cycles_processed = 0;
    }

    /// The program counter.
    pub fn program_counter(&self) -> (r: u16)
        ensures
            r == self.program_counter,
    {
        self.program_counter
    }

    /// Reads one byte through the bus, charging one cycle.
    pub fn read(&mut self, location: u16) -> (r: Result<u8, MemoryError>)
        requires
            old(self).wf(),
        ensures
            final(self).wf(),
            r == old(self).memory_mapping.spec_read(location),
            *final(self) == (Emulator {
                cycles_processed: bump_cycles(old(self).cycles_processed),
                ..*old(self)
            }),
    {
        self.cycles_processed = self.cycles_processed.wrapping_add(1);

        self.memory_mapping.read(location)
    }

    /// Reads the byte at the address in HL, charging one cycle.
    pub fn read_hl_location(&mut self) -> (r: Result<u8, MemoryError>)
        requires
            old(self).wf(),
        ensures
            final(self).wf(),
            r == old(self).memory_mapping.spec_read(old(self).pair_value(RegisterPair::Hl)),
            *final(self) == (Emulator {
                cycles_processed: bump_cycles(old(self).cycles_processed),
                ..*old(self)
            }),
    {
        let location = self.hl();

        self.read(location)
    }

    /// Reads the signed 8-bit immediate operand at the program counter,
    /// advancing it past the operand.
    pub fn read_immediate_e(&mut self) -> (r: Result<i8, MemoryError>)
        requires
            old(self).wf(),
        ensures
            final(self).wf(),
            r == match old(self).memory_mapping.spec_read(old(self).program_counter) {
                Ok(v) => Ok::<i8, MemoryError>(v as i8),
                Err(e) => Err::<i8, MemoryError>(e),
            },
            *final(self) == (Emulator {
                cycles_processed: bump_cycles(old(self).cycles_processed),
                program_counter: ((old(self).program_counter + 1) % 0x10000) as u16,
                ..*old(self)
            }),
    {
        match self.read_immediate_n() {
            Ok(value) => Ok(value as i8),
            Err(e) => Err(e),
        }
    }

    /// Reads the 8-bit immediate operand at the program counter, advancing
    /// it past the operand (also when the read fails).
    pub fn read_immediate_n(&mut self) -> (r: Result<u8, MemoryError>)
        requires
            old(self).wf(),
        ensures
            final(self).wf(),
            r == old(self).memory_mapping.spec_read(old(self).program_counter),
            *final(self) == (Emulator {
                cycles_processed: bump_cycles(old(self).cycles_processed),
                program_counter: ((old(self).program_counter + 1) % 0x10000) as u16,
                ..*old(self)
            }),
    {
        let pc = self.program_counter;
        let value = self.read(pc);

        self.program_counter = self.program_counter.wrapping_add(1);

        value
    }

    /// Reads the 16-bit little-endian immediate operand: the low byte at the
    /// program counter, the high byte after it. The first failure aborts,
    /// with the program counter past the bytes consumed so far.
    pub fn read_immediate_nn(&mut self) -> (r: Result<u16, MemoryError>)
        requires
            old(self).wf(),
        ensures
            final(self).wf(),
            match old(self).memory_mapping.spec_read(old(self).program_counter) {
                Err(e) => r == Err::<u16, MemoryError>(e) && *final(self) == (Emulator {
                    cycles_processed: bump_cycles(old(self).cycles_processed),
                    program_counter: ((old(self).program_counter + 1) % 0x10000) as u16,
                    ..*old(self)
                }),
                Ok(low) => match old(self).memory_mapping.spec_read(
                    ((old(self).program_counter + 1) % 0x10000) as u16,
                ) {
                    Err(e) => r == Err::<u16, MemoryError>(e) && *final(self) == (Emulator {
                        cycles_processed: bump_cycles(bump_cycles(old(self).cycles_processed)),
                        program_counter: ((old(self).program_counter + 2) % 0x10000) as u16,
                        ..*old(self)
                    }),
                    Ok(high) => *final(self) == (Emulator {
                        cycles_processed: bump_cycles(bump_cycles(old(self).cycles_processed)),
                        program_counter: ((old(self).program_counter + 2) % 0x10000) as u16,
                        ..*old(self)
                    }) && r == Ok::<u16, MemoryError>((high * 256 + low) as u16),
                },
            },
    {
        let low = match self.read_immediate_n() {
            Ok(value) => value,
            Err(e) => {
                return Err(e);
            },
        };

        let high = match self.read_immediate_n() {
            Ok(value) => value,
            Err(e) => {
                return Err(e);
            },
        };

        Ok((high as u16) * 256 + (low as u16))
    }

    /// The value of a register.
    pub fn register(&self, register: &Register) -> (r: u8)
        ensures
            r == self.reg_val(*register),
    {
        match register {
            Register::A => self.a,
            Register::B => self.b,
            Register::C => self.c,
            Register::D => self.d,
            Register::E => self.e,
            Register::H => self.h,
            Register::L => self.l,
        }
    }

    /// The 16-bit value of a register pair; for AF the low nibble of the
    /// flag byte reads back as zero.
    pub fn register_pair(&self, register_pair: &RegisterPair) -> (r: u16)
        ensures
            r == self.pair_value(*register_pair),
    {
        let low: u8 = match register_pair {
            RegisterPair::Af => {
                let mut flags: u8 = 0;

                if self.flag_z {
                    flags = flags + 0x80;
                }
                if self.flag_n {
                    flags = flags + 0x40;
                }
                if self.flag_h {
                    flags = flags + 0x20;
                }
                if self.flag_cy {
                    flags = flags + 0x10;
                }

                flags
            },
            RegisterPair::Bc => self.c,
            RegisterPair::De => self.e,
            RegisterPair::Hl => self.l,
        };

        let high: u8 = match register_pair {
            RegisterPair::Af => self.a,
            RegisterPair::Bc => self.b,
            RegisterPair::De => self.d,
            RegisterPair::Hl => self.h,
        };

        (high as u16) * 256 + (low as u16)
    }

    /// Sets the accumulator.
    pub fn set_a(&mut self, value: u8)
        ensures
            *final(self) == (Emulator { a: value, ..*old(self) }),
    {
        self.a = value;
    }

    /// Sets or clears one flag.
    pub fn set_flag(&mut self, flag: Flag, value: bool)
        ensures
            *final(self) == old(self).with_flag(flag, value),
    {
        match flag {
            Flag::Z => self.flag_z = value,
            Flag::N => self.flag_n = value,
            Flag::H => self.flag_h = value,
            Flag::CY => self.flag_cy = value,
        }
    }

    /// Sets the HL register pair.
    pub fn set_hl(&mut self, value: u16)
        ensures
            *final(self) == old(self).with_pair(RegisterPair::Hl, value),
    {
        self.set_register_pair(RegisterPair::Hl, value);
    }

    /// Sets the interrupt-master-enable latch.
    pub fn set_interrupt_master_enable(&mut self, value: bool)
        ensures
            *final(self) == (Emulator { interrupt_master_enable: value, ..*old(self) }),
    {
        self.interrupt_master_enable = value;
    }

    /// Signals whether an interrupt is pending; a pending interrupt
    /// releases the Halt mode at the next step.
    pub fn set_interrupt_pending(&mut self, value: bool)
        ensures
            *final(self) == (Emulator { interrupt_pending: value, ..*old(self) }),
    {
        self.interrupt_pending = value;
    }

    /// Sets the prefix latch.
    pub fn set_prefix(&mut self, value: bool)
        ensures
            *final(self) == (Emulator { prefixed: value, ..*old(self) }),
    {
        self.prefixed = value;
    }

    /// Loads the program counter, charging the one internal cycle that the
    /// load of a branch target consumes.
    pub fn set_program_counter(&mut self, value: u16)
        ensures
            *final(self) == (Emulator {
                program_counter: value,
                cycles_processed: bump_cycles(old(self).cycles_processed),
                ..*old(self)
            }),
    {
        self.program_counter = value;

        self.cycles_processed = self.cycles_processed.wrapping_add(1);
    }

    /// Sets one register.
    pub fn set_register(&mut self, register: Register, value: u8)
        ensures
            *final(self) == old(self).with_reg(register, value),
    {
        match register {
            Register::A => self.a = value,
            Register::B => self.b = value,
            Register::C => self.c = value,
            Register::D => self.d = value,
            Register::E => self.e = value,
            Register::H => self.h = value,
            Register::L => self.l = value,
        }
    }

    /// Sets a register pair. Writing AF replaces the flags from bits 7..4
    /// of the low byte and discards its low nibble.
    pub fn set_register_pair(&mut self, register_pair: RegisterPair, value: u16)
        ensures
            *final(self) == old(self).with_pair(register_pair, value),
    {
        let high = (value / 256) as u8;
        let low = (value % 256) as u8;

        match register_pair {
            RegisterPair::Af => {
                self.a = high;
                self.flag_z = low / 128 == 1;
                self.flag_n = (low / 64) % 2 == 1;
                self.flag_h = (low / 32) % 2 == 1;
                self.flag_cy = (low / 16) % 2 == 1;
            },
            RegisterPair::Bc => {
                self.b = high;
                self.c = low;
            },
            RegisterPair::De => {
                self.d = high;
                self.e = low;
            },
            RegisterPair::Hl => {
                self.h = high;
                self.l = low;
            },
        }
    }

    /// Sets the stack pointer.
    pub fn set_stack_pointer(&mut self, value: u16)
        ensures
            *final(self) == (Emulator { stack_pointer: value, ..*old(self) }),
    {
        self.stack_pointer = value;
    }

    /// Sets the run mode.
    pub fn set_state(&mut self, value: EmulationState)
        ensures
            *final(self) == (Emulator { state: value, ..*old(self) }),
    {
        self.state = value;
    }

    /// The stack pointer.
    pub fn stack_pointer(&self) -> (r: u16)
        ensures
            r == self.stack_pointer,
    {
        self.stack_pointer
    }

    /// The run mode.
    pub fn state(&self) -> (r: EmulationState)
        ensures
            r == self.state,
    {
        self.state
    }

    /// Subtracts a value (plus CY for the with-carry forms) from the
    /// accumulator, updating all four flags.
    pub fn subtract_from_a(&mut self, value: u8, with_carry: bool)
        ensures
            *final(self) == (Emulator {
                a: sub8_value(old(self).a, value, old(self).alu_carry_in(with_carry)),
                flag_cy: sub8_borrow(old(self).a, value, old(self).alu_carry_in(with_carry)),
                flag_h: sub8_half_borrow(old(self).a, value, old(self).alu_carry_in(with_carry)),
                flag_n: true,
                flag_z: sub8_value(old(self).a, value, old(self).alu_carry_in(with_carry)) == 0,
                ..*old(self)
            }),
    {
        let a = self.a;
        let result = self.subtract_unsigned(a, value, with_carry);

        self.a = result;
    }

    /// Subtracts two bytes (plus CY for the with-carry forms), updating all
    /// four flags from the difference; a subtraction always sets N.
    pub fn subtract_unsigned(&mut self, a: u8, b: u8, with_carry: bool) -> (r: u8)
        ensures
            r == sub8_value(a, b, old(self).alu_carry_in(with_carry)),
            *final(self) == (Emulator {
                flag_cy: sub8_borrow(a, b, old(self).alu_carry_in(with_carry)),
                flag_h: sub8_half_borrow(a, b, old(self).alu_carry_in(with_carry)),
                flag_n: true,
                flag_z: sub8_value(a, b, old(self).alu_carry_in(with_carry)) == 0,
                ..*old(self)
            }),
    {
        let has_carry = with_carry && self.flag_cy;

        let result = bit_subtract(a, b, has_carry);

        self.flag_cy = result.borrow;
        self.flag_h = result.half_borrow;
        self.flag_n = true;
        self.flag_z = result.value == 0;

        result.value
    }

    /// Writes one byte through the bus, charging one cycle.
    pub fn write(&mut self, location: u16, value: u8) -> (r: Result<(), MemoryError>)
        requires
            old(self).wf(),
        ensures
            final(self).wf(),
            r == old(self).memory_mapping.spec_write(location, value),
            r is Ok <==> old(self).memory_mapping.write_accepted(location),
            mem_step(*old(self), *final(self), location, value),
            *final(self) == (Emulator {
                cycles_processed: bump_cycles(old(self).cycles_processed),
                memory_mapping: final(self).memory_mapping,
                ..*old(self)
            }),
    {
        self.cycles_processed = self.cycles_processed.wrapping_add(1);

        self.memory_mapping.write(location, value)
    }

    /// Writes a byte at the address in HL, charging one cycle.
    pub fn write_hl_location(&mut self, value: u8) -> (r: Result<(), MemoryError>)
        requires
            old(self).wf(),
        ensures
            final(self).wf(),
            r == old(self).memory_mapping.spec_write(
                old(self).pair_value(RegisterPair::Hl),
                value,
            ),
            r is Ok <==> old(self).memory_mapping.write_accepted(
                old(self).pair_value(RegisterPair::Hl),
            ),
            mem_step(*old(self), *final(self), old(self).pair_value(RegisterPair::Hl), value),
            *final(self) == (Emulator {
                cycles_processed: bump_cycles(old(self).cycles_processed),
                memory_mapping: final(self).memory_mapping,
                ..*old(self)
            }),
    {
        let location = self.hl();

        self.write(location, value)
    }
}

impl Default for Emulator {
    /// The default emulator build: a fresh CPU with the catch-all
    /// installed first and the core-owned regions overlaid — serial stub,
    /// sound stub, high-RAM stack area, unusable region, and work RAM with
    /// its echo.
    fn default() -> (r: Self)
        ensures
            r.wf(),
            r.a == 0 && r.b == 1 && r.c == 0 && r.d == 0 && r.e == 0 && r.h == 0 && r.l == 0,
            !r.flag_z && !r.flag_n && !r.flag_h && !r.flag_cy,
            r.cycles_processed == 0,
            !r.interrupt_master_enable && !r.interrupt_pending && !r.jumped && !r.prefixed,
            r.program_counter == PROGRAM_COUNTER_START,
            r.stack_pointer == 0,
            r.state == EmulationState::Run,
            forall|x: u16| #[trigger]
                r.memory_mapping.spec_read(x) == if default_zeroed_region(x) {
                    Ok::<u8, MemoryError>(0)
                } else {
                    Err::<u8, MemoryError>(MemoryError::ReadError(x, "unimplemented"))
                },
            forall|x: u16|
                r.memory_mapping.write_accepted(x) <==> (default_storage_region(x)
                    || default_discard_region(x)),
            forall|x: u16| r.memory_mapping.stores(x) <==> default_storage_region(x),
            forall|x: u16, y: u16| r.memory_mapping.aliased(x, y) <==> (x == y || echo_pair(x, y)),
    {
        let mut emulator = Emulator::new();

        let serial = BusComponent::Serial(SerialTransferComponent::new());
        let ghost serial_component = serial;

        emulator.add_memory_component(serial);

        let sound = BusComponent::Sound(SoundComponent::new());
        let ghost sound_component = sound;

        emulator.add_memory_component(sound);

        let stack = BusComponent::Stack(StackComponent::new());
        let ghost stack_component = stack;

        emulator.add_memory_component(stack);

        let unusable = BusComponent::Unusable(UnusableRamComponent::new());
        let ghost unusable_component = unusable;

        emulator.add_memory_component(unusable);

        let work_ram = BusComponent::WorkRam(WorkRamComponent::new());
        let ghost work_ram_component = work_ram;

        emulator.add_memory_component(work_ram);

        proof {
            let m = emulator.memory_mapping;

            assert forall|x: u16|
                m.owner(x) == default_owner(x) && m.components@[default_owner(x)]
                    == default_component_at(
                    default_owner(x),
                    serial_component,
                    sound_component,
                    stack_component,
                    unusable_component,
                    work_ram_component,
                ) by {
                assert(m.components@[1] == serial_component);
                assert(m.components@[2] == sound_component);
                assert(m.components@[3] == stack_component);
                assert(m.components@[4] == unusable_component);
                assert(m.components@[5] == work_ram_component);
            }
        }

        emulator
    }
}

/// The index of the component that owns each address in the default build:
/// the five overlaid regions shadow the catch-all at index 0.
pub open spec fn default_owner(a: u16) -> int {
    if (0xc000 <= a <= 0xdfff) || (0xe000 <= a <= 0xfdff) {
        5
    } else if 0xfea0 <= a <= 0xfeff {
        4
    } else if 0xff80 <= a <= 0xfffe {
        3
    } else if (0xff10 <= a <= 0xff26 && a != 0xff15 && a != 0xff1f) || (0xff30 <= a <= 0xff3f) {
        2
    } else if a == 0xff01 || a == 0xff02 {
        1
    } else {
        0
    }
}

/// The component registered at each index of the default build.
pub open spec fn default_component_at(
    index: int,
    serial: BusComponent,
    sound: BusComponent,
    stack: BusComponent,
    unusable: BusComponent,
    work_ram: BusComponent,
) -> BusComponent {
    if index == 1 {
        serial
    } else if index == 2 {
        sound
    } else if index == 3 {
        stack
    } else if index == 4 {
        unusable
    } else if index == 5 {
        work_ram
    } else {
        BusComponent::Unimplemented(UnimplementedMemory {  })
    }
}

/// The regions of the default build that read as zero right after
/// construction: work RAM and its echo, the stack area, the sound stub, and
/// the unusable region.
pub open spec fn default_zeroed_region(a: u16) -> bool {
    default_storage_region(a) || default_discard_region(a)
}

/// The regions of the default build whose writes land in readable storage.
pub open spec fn default_storage_region(a: u16) -> bool {
    (0xc000 <= a <= 0xfdff) || (0xff80 <= a <= 0xfffe) || (0xff10 <= a <= 0xff26 && a != 0xff15
        && a != 0xff1f) || (0xff30 <= a <= 0xff3f)
}

/// The region of the default build that accepts and discards writes.
pub open spec fn default_discard_region(a: u16) -> bool {
    0xfea0 <= a <= 0xfeff
}

/// Whether two addresses name the same work-RAM cell through the work and
/// echo ranges.
pub open spec fn echo_pair(x: u16, y: u16) -> bool {
    (0xc000 <= x <= 0xfdff) && (0xc000 <= y <= 0xfdff) && WorkRamComponent::storage_index(x)
        == WorkRamComponent::storage_index(y)
}

} // verus!
