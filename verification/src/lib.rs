//! Core of a Game Boy (Sharp SM83) CPU emulator: the instruction decoder,
//! the flag-producing arithmetic primitives, the CPU state with its cycle
//! accounting, and the memory bus that fans reads and writes out to regional
//! components. Every state change is pinned down by a contract over a
//! mathematical model of the machine.

pub mod addresses;
mod audio_component;
mod bits;
mod condition;
mod dispatch;
mod emulator;
mod flag;
pub mod instruction;
mod memory_component;
mod memory_mapping;
mod opcode;
mod register;
mod rom;
pub mod template;

pub use crate::audio_component::{
    AudioMasterControlFlag, AUDIO_MASTER_CONTROL_REGISTER, SOUND_PANNING_REGISTER,
};
pub use crate::bits::{bit_add, bit_add16, bit_subtract, bit_subtract16};
pub use crate::bits::{BitAddResult, BitAddResult16, BitSubtractResult, BitSubtractResult16};
pub use crate::condition::Condition;
pub use crate::dispatch::{decode, instruction_info, unimplemented_opcodes, Op};
pub use crate::emulator::{EmulationState, Emulator};
pub use crate::flag::Flag;
pub use crate::instruction::{Instruction, OpError, OpResult};
pub use crate::memory_component::{
    BusComponent, MemoryComponent, MemoryError, RamComponent, SerialTransferComponent,
    SoundComponent, StackComponent, UnimplementedMemory, UnusableRamComponent, WorkRamComponent,
};
pub use crate::memory_mapping::MemoryMapping;
pub use crate::opcode::{Opcode, OpcodeError, OpcodePattern};
pub use crate::register::{Register, RegisterPair};
pub use crate::rom::{CbgCompatibility, RomBuilder, RomSize};
pub use crate::template::opcode_variations;
