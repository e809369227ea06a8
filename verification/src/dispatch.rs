//! The opcode dispatch: the tagged instruction kinds, the two 256-entry
//! decode tables (unprefixed and CB-prefixed) written as total functions
//! over the opcode byte, the per-instruction metadata, and the
//! fetch-decode-execute step with the Run/Halt/Stop state machine.
//!
//! Eleven opcodes are permanently illegal in the unprefixed table; the
//! CB-prefixed table is total. Both facts are proved below.

use vstd::prelude::*;

use crate::emulator::{bump_cycles, EmulationState, Emulator};
use crate::instruction::arithmetic_instructions::{
    add_hl_location_to_a,
    add_hl_location_to_a_rel,
    add_immediate_e_to_sp,
    add_immediate_e_to_sp_rel,
    add_immediate_n_to_a,
    add_immediate_n_to_a_rel,
    add_register_pair_to_hl,
    add_register_pair_to_hl_rel,
    add_register_to_a,
    add_register_to_a_rel,
    add_with_carry_hl_location_to_a,
    add_with_carry_hl_location_to_a_rel,
    add_with_carry_immediate_n_to_a,
    add_with_carry_immediate_n_to_a_rel,
    add_with_carry_register_to_a,
    add_with_carry_register_to_a_rel,
    compare_hl_location_with_a,
    compare_hl_location_with_a_rel,
    compare_immediate_n_with_a,
    compare_immediate_n_with_a_rel,
    compare_register_with_a,
    compare_register_with_a_rel,
    dec_hl_location,
    dec_hl_location_rel,
    dec_register,
    dec_register_pair,
    dec_register_pair_rel,
    dec_register_rel,
    inc_hl_location,
    inc_hl_location_rel,
    inc_register,
    inc_register_pair,
    inc_register_pair_rel,
    inc_register_rel,
    sub_hl_location_from_a,
    sub_hl_location_from_a_rel,
    sub_immediate_n_from_a,
    sub_immediate_n_from_a_rel,
    sub_register_from_a,
    sub_register_from_a_rel,
    sub_with_carry_hl_location_from_a,
    sub_with_carry_hl_location_from_a_rel,
    sub_with_carry_immediate_n_from_a,
    sub_with_carry_immediate_n_from_a_rel,
    sub_with_carry_register_from_a,
    sub_with_carry_register_from_a_rel,
};
use crate::instruction::bit_instructions::{
    bit_complement_of_hl_location,
    bit_complement_of_hl_location_rel,
    bit_complement_of_register,
    bit_complement_of_register_rel,
    reset_bit_of_hl_location,
    reset_bit_of_hl_location_rel,
    reset_bit_of_register,
    reset_bit_of_register_rel,
    set_bit_of_hl_location,
    set_bit_of_hl_location_rel,
    set_bit_of_register,
    set_bit_of_register_rel,
};
use crate::instruction::call_instructions::{
    call,
    call_if_condition,
    call_if_condition_rel,
    call_rel,
    reset_to_page,
    reset_to_page_rel,
    ret,
    ret_if_condition,
    ret_if_condition_rel,
    ret_rel,
    reti,
    reti_rel,
};
use crate::instruction::general_instructions::{
    complement_a,
    complement_a_rel,
    decimal_adjust_a,
    decimal_adjust_a_rel,
    di,
    di_rel,
    ei,
    ei_rel,
    flip_carry,
    flip_carry_rel,
    halt,
    halt_rel,
    noop,
    noop_rel,
    prefix,
    prefix_rel,
    set_carry,
    set_carry_rel,
    stop,
    stop_rel,
};
use crate::instruction::jump_instructions::{
    jump_to_hl,
    jump_to_hl_rel,
    jump_to_immediate_e,
    jump_to_immediate_e_if_condition,
    jump_to_immediate_e_if_condition_rel,
    jump_to_immediate_e_rel,
    jump_to_immediate_nn,
    jump_to_immediate_nn_if_condition,
    jump_to_immediate_nn_if_condition_rel,
    jump_to_immediate_nn_rel,
};
use crate::instruction::loading_instructions::{
    load_a_into_bc_location,
    load_a_into_bc_location_rel,
    load_a_into_c_location,
    load_a_into_c_location_rel,
    load_a_into_de_location,
    load_a_into_de_location_rel,
    load_a_into_hl_location_dec,
    load_a_into_hl_location_dec_rel,
    load_a_into_hl_location_inc,
    load_a_into_hl_location_inc_rel,
    load_a_into_immediate_n_location,
    load_a_into_immediate_n_location_rel,
    load_a_into_immediate_nn_location,
    load_a_into_immediate_nn_location_rel,
    load_bc_location_into_a,
    load_bc_location_into_a_rel,
    load_c_location_into_a,
    load_c_location_into_a_rel,
    load_de_location_into_a,
    load_de_location_into_a_rel,
    load_hl_into_sp,
    load_hl_into_sp_rel,
    load_hl_location_dec_into_a,
    load_hl_location_dec_into_a_rel,
    load_hl_location_inc_into_a,
    load_hl_location_inc_into_a_rel,
    load_hl_location_into_register,
    load_hl_location_into_register_rel,
    load_immediate_n_into_hl_location,
    load_immediate_n_into_hl_location_rel,
    load_immediate_n_into_register,
    load_immediate_n_into_register_rel,
    load_immediate_n_location_into_a,
    load_immediate_n_location_into_a_rel,
    load_immediate_nn_into_register_pair,
    load_immediate_nn_into_register_pair_rel,
    load_immediate_nn_location_into_a,
    load_immediate_nn_location_into_a_rel,
    load_register_into_hl_location,
    load_register_into_hl_location_rel,
    load_register_into_register,
    load_register_into_register_rel,
    load_sp_and_immediate_e_into_hl,
    load_sp_and_immediate_e_into_hl_rel,
    load_sp_into_nn_location,
    load_sp_into_nn_location_rel,
    pop_register_pair,
    pop_register_pair_rel,
    push_register_pair,
    push_register_pair_rel,
};
use crate::instruction::logical_instructions::{
    and_hl_location,
    and_hl_location_rel,
    and_immediate_n,
    and_immediate_n_rel,
    and_register,
    and_register_rel,
    or_hl_location,
    or_hl_location_rel,
    or_immediate_n,
    or_immediate_n_rel,
    or_register,
    or_register_rel,
    xor_hl_location,
    xor_hl_location_rel,
    xor_immediate_n,
    xor_immediate_n_rel,
    xor_register,
    xor_register_rel,
};
use crate::instruction::rotating_instructions::{
    rotate_a_left_copy_carry,
    rotate_a_left_copy_carry_rel,
    rotate_a_left_through_carry,
    rotate_a_left_through_carry_rel,
    rotate_a_right_copy_carry,
    rotate_a_right_copy_carry_rel,
    rotate_a_right_through_carry,
    rotate_a_right_through_carry_rel,
    rotate_hl_location_left_copy_carry,
    rotate_hl_location_left_copy_carry_rel,
    rotate_hl_location_left_through_carry,
    rotate_hl_location_left_through_carry_rel,
    rotate_hl_location_right_copy_carry,
    rotate_hl_location_right_copy_carry_rel,
    rotate_hl_location_right_through_carry,
    rotate_hl_location_right_through_carry_rel,
    rotate_register_left_copy_carry,
    rotate_register_left_copy_carry_rel,
    rotate_register_left_through_carry,
    rotate_register_left_through_carry_rel,
    rotate_register_right_copy_carry,
    rotate_register_right_copy_carry_rel,
    rotate_register_right_through_carry,
    rotate_register_right_through_carry_rel,
    shift_hl_location_left,
    shift_hl_location_left_rel,
    shift_hl_location_right,
    shift_hl_location_right_copy_bit,
    shift_hl_location_right_copy_bit_rel,
    shift_hl_location_right_rel,
    shift_register_left,
    shift_register_left_rel,
    shift_register_right,
    shift_register_right_copy_bit,
    shift_register_right_copy_bit_rel,
    shift_register_right_rel,
    swap_bits_of_hl_location,
    swap_bits_of_hl_location_rel,
    swap_bits_of_register,
    swap_bits_of_register_rel,
};
use crate::instruction::{Instruction, OpError, OpResult};

verus! {

/// The tagged instruction kinds: one variant per instruction definition.
/// The decode tables map each opcode byte to one of these; the operand
/// fields stay in the byte and are extracted by the instruction body.
#[derive(Clone, Copy, Debug, Eq, PartialEq, Structural)]
pub enum Op {
    AddHlLocationToA,
    AddImmediateEToSp,
    AddImmediateNToA,
    AddRegisterPairToHl,
    AddRegisterToA,
    AddWithCarryHlLocationToA,
    AddWithCarryImmediateNToA,
    AddWithCarryRegisterToA,
    AndHlLocation,
    AndImmediateN,
    AndRegister,
    BitComplementOfHlLocation,
    BitComplementOfRegister,
    Call,
    CallIfCondition,
    CompareHlLocationWithA,
    CompareImmediateNWithA,
    CompareRegisterWithA,
    ComplementA,
    DecHlLocation,
    DecRegister,
    DecRegisterPair,
    DecimalAdjustA,
    Di,
    Ei,
    FlipCarry,
    Halt,
    IncHlLocation,
    IncRegister,
    IncRegisterPair,
    JumpToHl,
    JumpToImmediateE,
    JumpToImmediateEIfCondition,
    JumpToImmediateNn,
    JumpToImmediateNnIfCondition,
    LoadAIntoBcLocation,
    LoadAIntoCLocation,
    LoadAIntoDeLocation,
    LoadAIntoHlLocationDec,
    LoadAIntoHlLocationInc,
    LoadAIntoImmediateNLocation,
    LoadAIntoImmediateNnLocation,
    LoadBcLocationIntoA,
    LoadCLocationIntoA,
    LoadDeLocationIntoA,
    LoadHlIntoSp,
    LoadHlLocationDecIntoA,
    LoadHlLocationIncIntoA,
    LoadHlLocationIntoRegister,
    LoadImmediateNIntoHlLocation,
    LoadImmediateNIntoRegister,
    LoadImmediateNLocationIntoA,
    LoadImmediateNnIntoRegisterPair,
    LoadImmediateNnLocationIntoA,
    LoadRegisterIntoHlLocation,
    LoadRegisterIntoRegister,
    LoadSpAndImmediateEIntoHl,
    LoadSpIntoNnLocation,
    Noop,
    OrHlLocation,
    OrImmediateN,
    OrRegister,
    PopRegisterPair,
    Prefix,
    PushRegisterPair,
    ResetBitOfHlLocation,
    ResetBitOfRegister,
    ResetToPage,
    Ret,
    RetIfCondition,
    Reti,
    RotateALeftCopyCarry,
    RotateALeftThroughCarry,
    RotateARightCopyCarry,
    RotateARightThroughCarry,
    RotateHlLocationLeftCopyCarry,
    RotateHlLocationLeftThroughCarry,
    RotateHlLocationRightCopyCarry,
    RotateHlLocationRightThroughCarry,
    RotateRegisterLeftCopyCarry,
    RotateRegisterLeftThroughCarry,
    RotateRegisterRightCopyCarry,
    RotateRegisterRightThroughCarry,
    SetBitOfHlLocation,
    SetBitOfRegister,
    SetCarry,
    ShiftHlLocationLeft,
    ShiftHlLocationRight,
    ShiftHlLocationRightCopyBit,
    ShiftRegisterLeft,
    ShiftRegisterRight,
    ShiftRegisterRightCopyBit,
    Stop,
    SubHlLocationFromA,
    SubImmediateNFromA,
    SubRegisterFromA,
    SubWithCarryHlLocationFromA,
    SubWithCarryImmediateNFromA,
    SubWithCarryRegisterFromA,
    SwapBitsOfHlLocation,
    SwapBitsOfRegister,
    XorHlLocation,
    XorImmediateN,
    XorRegister,
}

/// The eleven opcode bytes that are permanently illegal in the unprefixed
/// table; executing them raises the illegal-opcode error.
pub open spec fn is_illegal_opcode(byte: u8) -> bool {
    byte == 0xd3 || byte == 0xdb || byte == 0xdd || byte == 0xe3 || byte == 0xe4 || byte == 0xeb
        || byte == 0xec || byte == 0xed || byte == 0xf4 || byte == 0xfc || byte == 0xfd
}

/// The CB-prefixed decode table: a total function from the opcode byte to
/// a rotate, shift, swap or bit instruction.
pub open spec fn spec_decode_prefixed(byte: u8) -> Op {
    let x = byte / 64;
    let y = (byte / 8) % 8;
    let z = byte % 8;
    if x == 0 {
        if z == 6 {
            if y == 0 {
                Op::RotateHlLocationLeftCopyCarry
            } else if y == 1 {
                Op::RotateHlLocationRightCopyCarry
            } else if y == 2 {
                Op::RotateHlLocationLeftThroughCarry
            } else if y == 3 {
                Op::RotateHlLocationRightThroughCarry
            } else if y == 4 {
                Op::ShiftHlLocationLeft
            } else if y == 5 {
                Op::ShiftHlLocationRightCopyBit
            } else if y == 6 {
                Op::SwapBitsOfHlLocation
            } else {
                Op::ShiftHlLocationRight
            }
        } else {
            if y == 0 {
                Op::RotateRegisterLeftCopyCarry
            } else if y == 1 {
                Op::RotateRegisterRightCopyCarry
            } else if y == 2 {
                Op::RotateRegisterLeftThroughCarry
            } else if y == 3 {
                Op::RotateRegisterRightThroughCarry
            } else if y == 4 {
                Op::ShiftRegisterLeft
            } else if y == 5 {
                Op::ShiftRegisterRightCopyBit
            } else if y == 6 {
                Op::SwapBitsOfRegister
            } else {
                Op::ShiftRegisterRight
            }
        }
    } else if x == 1 {
        if z == 6 {
            Op::BitComplementOfHlLocation
        } else {
            Op::BitComplementOfRegister
        }
    } else if x == 2 {
        if z == 6 {
            Op::ResetBitOfHlLocation
        } else {
            Op::ResetBitOfRegister
        }
    } else {
        if z == 6 {
            Op::SetBitOfHlLocation
        } else {
            Op::SetBitOfRegister
        }
    }
}

/// The unprefixed decode table: maps an opcode byte to its instruction, or
/// to nothing for the eleven illegal bytes.
pub open spec fn spec_decode_unprefixed(byte: u8) -> Option<Op> {
    let x = byte / 64;
    let y = (byte / 8) % 8;
    let z = byte % 8;
    if x == 0 {
        if z == 0 {
            if y == 0 {
                Some(Op::Noop)
            } else if y == 1 {
                Some(Op::LoadSpIntoNnLocation)
            } else if y == 2 {
                Some(Op::Stop)
            } else if y == 3 {
                Some(Op::JumpToImmediateE)
            } else {
                Some(Op::JumpToImmediateEIfCondition)
            }
        } else if z == 1 {
            if y % 2 == 0 {
                Some(Op::LoadImmediateNnIntoRegisterPair)
            } else {
                Some(Op::AddRegisterPairToHl)
            }
        } else if z == 2 {
            if y == 0 {
                Some(Op::LoadAIntoBcLocation)
            } else if y == 1 {
                Some(Op::LoadBcLocationIntoA)
            } else if y == 2 {
                Some(Op::LoadAIntoDeLocation)
            } else if y == 3 {
                Some(Op::LoadDeLocationIntoA)
            } else if y == 4 {
                Some(Op::LoadAIntoHlLocationInc)
            } else if y == 5 {
                Some(Op::LoadHlLocationIncIntoA)
            } else if y == 6 {
                Some(Op::LoadAIntoHlLocationDec)
            } else {
                Some(Op::LoadHlLocationDecIntoA)
            }
        } else if z == 3 {
            if y % 2 == 0 {
                Some(Op::IncRegisterPair)
            } else {
                Some(Op::DecRegisterPair)
            }
        } else if z == 4 {
            if y == 6 {
                Some(Op::IncHlLocation)
            } else {
                Some(Op::IncRegister)
            }
        } else if z == 5 {
            if y == 6 {
                Some(Op::DecHlLocation)
            } else {
                Some(Op::DecRegister)
            }
        } else if z == 6 {
            if y == 6 {
                Some(Op::LoadImmediateNIntoHlLocation)
            } else {
                Some(Op::LoadImmediateNIntoRegister)
            }
        } else {
            if y == 0 {
                Some(Op::RotateALeftCopyCarry)
            } else if y == 1 {
                Some(Op::RotateARightCopyCarry)
            } else if y == 2 {
                Some(Op::RotateALeftThroughCarry)
            } else if y == 3 {
                Some(Op::RotateARightThroughCarry)
            } else if y == 4 {
                Some(Op::DecimalAdjustA)
            } else if y == 5 {
                Some(Op::ComplementA)
            } else if y == 6 {
                Some(Op::SetCarry)
            } else {
                Some(Op::FlipCarry)
            }
        }
    } else if x == 1 {
        if y == 6 && z == 6 {
            Some(Op::Halt)
        } else if z == 6 {
            Some(Op::LoadHlLocationIntoRegister)
        } else if y == 6 {
            Some(Op::LoadRegisterIntoHlLocation)
        } else {
            Some(Op::LoadRegisterIntoRegister)
        }
    } else if x == 2 {
        if y == 0 {
            if z == 6 {
                Some(Op::AddHlLocationToA)
            } else {
                Some(Op::AddRegisterToA)
            }
        } else if y == 1 {
            if z == 6 {
                Some(Op::AddWithCarryHlLocationToA)
            } else {
                Some(Op::AddWithCarryRegisterToA)
            }
        } else if y == 2 {
            if z == 6 {
                Some(Op::SubHlLocationFromA)
            } else {
                Some(Op::SubRegisterFromA)
            }
        } else if y == 3 {
            if z == 6 {
                Some(Op::SubWithCarryHlLocationFromA)
            } else {
                Some(Op::SubWithCarryRegisterFromA)
            }
        } else if y == 4 {
            if z == 6 {
                Some(Op::AndHlLocation)
            } else {
                Some(Op::AndRegister)
            }
        } else if y == 5 {
            if z == 6 {
                Some(Op::XorHlLocation)
            } else {
                Some(Op::XorRegister)
            }
        } else if y == 6 {
            if z == 6 {
                Some(Op::OrHlLocation)
            } else {
                Some(Op::OrRegister)
            }
        } else {
            if z == 6 {
                Some(Op::CompareHlLocationWithA)
            } else {
                Some(Op::CompareRegisterWithA)
            }
        }
    } else {
        if z == 0 {
            if y < 4 {
                Some(Op::RetIfCondition)
            } else if y == 4 {
                Some(Op::LoadAIntoImmediateNLocation)
            } else if y == 5 {
                Some(Op::AddImmediateEToSp)
            } else if y == 6 {
                Some(Op::LoadImmediateNLocationIntoA)
            } else {
                Some(Op::LoadSpAndImmediateEIntoHl)
            }
        } else if z == 1 {
            if y % 2 == 0 {
                Some(Op::PopRegisterPair)
            } else if y == 1 {
                Some(Op::Ret)
            } else if y == 3 {
                Some(Op::Reti)
            } else if y == 5 {
                Some(Op::JumpToHl)
            } else {
                Some(Op::LoadHlIntoSp)
            }
        } else if z == 2 {
            if y < 4 {
                Some(Op::JumpToImmediateNnIfCondition)
            } else if y == 4 {
                Some(Op::LoadAIntoCLocation)
            } else if y == 5 {
                Some(Op::LoadAIntoImmediateNnLocation)
            } else if y == 6 {
                Some(Op::LoadCLocationIntoA)
            } else {
                Some(Op::LoadImmediateNnLocationIntoA)
            }
        } else if z == 3 {
            if y == 0 {
                Some(Op::JumpToImmediateNn)
            } else if y == 1 {
                Some(Op::Prefix)
            } else if y == 6 {
                Some(Op::Di)
            } else if y == 7 {
                Some(Op::Ei)
            } else {
                None
            }
        } else if z == 4 {
            if y < 4 {
                Some(Op::CallIfCondition)
            } else {
                None
            }
        } else if z == 5 {
            if y % 2 == 0 {
                Some(Op::PushRegisterPair)
            } else if y == 1 {
                Some(Op::Call)
            } else {
                None
            }
        } else if z == 6 {
            if y == 0 {
                Some(Op::AddImmediateNToA)
            } else if y == 1 {
                Some(Op::AddWithCarryImmediateNToA)
            } else if y == 2 {
                Some(Op::SubImmediateNFromA)
            } else if y == 3 {
                Some(Op::SubWithCarryImmediateNFromA)
            } else if y == 4 {
                Some(Op::AndImmediateN)
            } else if y == 5 {
                Some(Op::XorImmediateN)
            } else if y == 6 {
                Some(Op::OrImmediateN)
            } else {
                Some(Op::CompareImmediateNWithA)
            }
        } else {
            Some(Op::ResetToPage)
        }
    }
}

/// What the decoder returns: an instruction for every byte of the selected
/// table, except the eleven illegal bytes of the unprefixed table.
pub open spec fn spec_decode(prefixed: bool, byte: u8) -> Option<Op> {
    if prefixed {
        Some(spec_decode_prefixed(byte))
    } else {
        spec_decode_unprefixed(byte)
    }
}

/// Every byte of the unprefixed table decodes to exactly one outcome: an
/// instruction, or — precisely on the eleven illegal opcodes — nothing.
pub proof fn lemma_unprefixed_decode(byte: u8)
    ensures
        spec_decode(false, byte) is None <==> is_illegal_opcode(byte),
{
}

/// The CB-prefixed table is total: every byte decodes to an instruction.
pub proof fn lemma_prefixed_decode_total(byte: u8)
    ensures
        spec_decode(true, byte) is Some,
{
}

/// The number of populated entries among the first `n` of a decode table.
pub open spec fn populated_count(prefixed: bool, n: int) -> int
    decreases n,
{
    if n <= 0 {
        0
    } else {
        populated_count(prefixed, n - 1) + if spec_decode(prefixed, (n - 1) as u8) is Some {
            1int
        } else {
            0int
        }
    }
}

/// The number of illegal opcode bytes among the first `n`.
pub open spec fn illegal_count(n: int) -> int
    decreases n,
{
    if n <= 0 {
        0
    } else {
        illegal_count(n - 1) + if is_illegal_opcode((n - 1) as u8) {
            1int
        } else {
            0int
        }
    }
}

/// The closed form of `illegal_count`: how many of the eleven illegal
/// bytes lie below `n`.
pub open spec fn illegal_below(n: int) -> int {
    (if n > 0xd3 {
        1int
    } else {
        0int
    }) + (if n > 0xdb {
        1int
    } else {
        0int
    }) + (if n > 0xdd {
        1int
    } else {
        0int
    }) + (if n > 0xe3 {
        1int
    } else {
        0int
    }) + (if n > 0xe4 {
        1int
    } else {
        0int
    }) + (if n > 0xeb {
        1int
    } else {
        0int
    }) + (if n > 0xec {
        1int
    } else {
        0int
    }) + (if n > 0xed {
        1int
    } else {
        0int
    }) + (if n > 0xf4 {
        1int
    } else {
        0int
    }) + (if n > 0xfc {
        1int
    } else {
        0int
    }) + (if n > 0xfd {
        1int
    } else {
        0int
    })
}

/// A prefix of each decode table splits into its populated and its illegal
/// entries: the unprefixed table misses exactly the illegal bytes and the
/// CB-prefixed table misses none.
pub proof fn lemma_population_up_to(n: int)
    requires
        0 <= n <= 256,
    ensures
        populated_count(false, n) == n - illegal_count(n),
        populated_count(true, n) == n,
        illegal_count(n) == illegal_below(n),
    decreases n,
{
    if n > 0 {
        lemma_population_up_to(n - 1);
    }
}

/// The 256+256 table entries partition into 501 populated instruction
/// slots and 11 illegal ones: the unprefixed table has 245 entries, the
/// CB-prefixed table all 256.
pub proof fn lemma_table_population()
    ensures
        populated_count(false, 256) == 245,
        populated_count(true, 256) == 256,
        populated_count(false, 256) + populated_count(true, 256) == 501,
{
    lemma_population_up_to(256);
}

/// Decodes one opcode byte against the selected table.
pub fn decode(prefixed: bool, byte: u8) -> (r: Option<Op>)
    ensures
        r == spec_decode(prefixed, byte),
{
    if prefixed {
        Some(decode_prefixed(byte))
    } else {
        decode_unprefixed(byte)
    }
}

/// Decodes one opcode byte against the CB-prefixed table.
fn decode_prefixed(byte: u8) -> (r: Op)
    ensures
        r == spec_decode_prefixed(byte),
{
    let x = byte / 64;
    let y = (byte / 8) % 8;
    let z = byte % 8;

    if x == 0 {
        if z == 6 {
            if y == 0 {
                Op::RotateHlLocationLeftCopyCarry
            } else if y == 1 {
                Op::RotateHlLocationRightCopyCarry
            } else if y == 2 {
                Op::RotateHlLocationLeftThroughCarry
            } else if y == 3 {
                Op::RotateHlLocationRightThroughCarry
            } else if y == 4 {
                Op::ShiftHlLocationLeft
            } else if y == 5 {
                Op::ShiftHlLocationRightCopyBit
            } else if y == 6 {
                Op::SwapBitsOfHlLocation
            } else {
                Op::ShiftHlLocationRight
            }
        } else {
            if y == 0 {
                Op::RotateRegisterLeftCopyCarry
            } else if y == 1 {
                Op::RotateRegisterRightCopyCarry
            } else if y == 2 {
                Op::RotateRegisterLeftThroughCarry
            } else if y == 3 {
                Op::RotateRegisterRightThroughCarry
            } else if y == 4 {
                Op::ShiftRegisterLeft
            } else if y == 5 {
                Op::ShiftRegisterRightCopyBit
            } else if y == 6 {
                Op::SwapBitsOfRegister
            } else {
                Op::ShiftRegisterRight
            }
        }
    } else if x == 1 {
        if z == 6 {
            Op::BitComplementOfHlLocation
        } else {
            Op::BitComplementOfRegister
        }
    } else if x == 2 {
        if z == 6 {
            Op::ResetBitOfHlLocation
        } else {
            Op::ResetBitOfRegister
        }
    } else {
        if z == 6 {
            Op::SetBitOfHlLocation
        } else {
            Op::SetBitOfRegister
        }
    }
}

/// Decodes one opcode byte against the unprefixed table.
fn decode_unprefixed(byte: u8) -> (r: Option<Op>)
    ensures
        r == spec_decode_unprefixed(byte),
{
    let x = byte / 64;
    let y = (byte / 8) % 8;
    let z = byte % 8;

    if x == 0 {
        if z == 0 {
            if y == 0 {
                Some(Op::Noop)
            } else if y == 1 {
                Some(Op::LoadSpIntoNnLocation)
            } else if y == 2 {
                Some(Op::Stop)
            } else if y == 3 {
                Some(Op::JumpToImmediateE)
            } else {
                Some(Op::JumpToImmediateEIfCondition)
            }
        } else if z == 1 {
            if y % 2 == 0 {
                Some(Op::LoadImmediateNnIntoRegisterPair)
            } else {
                Some(Op::AddRegisterPairToHl)
            }
        } else if z == 2 {
            if y == 0 {
                Some(Op::LoadAIntoBcLocation)
            } else if y == 1 {
                Some(Op::LoadBcLocationIntoA)
            } else if y == 2 {
                Some(Op::LoadAIntoDeLocation)
            } else if y == 3 {
                Some(Op::LoadDeLocationIntoA)
            } else if y == 4 {
                Some(Op::LoadAIntoHlLocationInc)
            } else if y == 5 {
                Some(Op::LoadHlLocationIncIntoA)
            } else if y == 6 {
                Some(Op::LoadAIntoHlLocationDec)
            } else {
                Some(Op::LoadHlLocationDecIntoA)
            }
        } else if z == 3 {
            if y % 2 == 0 {
                Some(Op::IncRegisterPair)
            } else {
                Some(Op::DecRegisterPair)
            }
        } else if z == 4 {
            if y == 6 {
                Some(Op::IncHlLocation)
            } else {
                Some(Op::IncRegister)
            }
        } else if z == 5 {
            if y == 6 {
                Some(Op::DecHlLocation)
            } else {
                Some(Op::DecRegister)
            }
        } else if z == 6 {
            if y == 6 {
                Some(Op::LoadImmediateNIntoHlLocation)
            } else {
                Some(Op::LoadImmediateNIntoRegister)
            }
        } else {
            if y == 0 {
                Some(Op::RotateALeftCopyCarry)
            } else if y == 1 {
                Some(Op::RotateARightCopyCarry)
            } else if y == 2 {
                Some(Op::RotateALeftThroughCarry)
            } else if y == 3 {
                Some(Op::RotateARightThroughCarry)
            } else if y == 4 {
                Some(Op::DecimalAdjustA)
            } else if y == 5 {
                Some(Op::ComplementA)
            } else if y == 6 {
                Some(Op::SetCarry)
            } else {
                Some(Op::FlipCarry)
            }
        }
    } else if x == 1 {
        if y == 6 && z == 6 {
            Some(Op::Halt)
        } else if z == 6 {
            Some(Op::LoadHlLocationIntoRegister)
        } else if y == 6 {
            Some(Op::LoadRegisterIntoHlLocation)
        } else {
            Some(Op::LoadRegisterIntoRegister)
        }
    } else if x == 2 {
        if y == 0 {
            if z == 6 {
                Some(Op::AddHlLocationToA)
            } else {
                Some(Op::AddRegisterToA)
            }
        } else if y == 1 {
            if z == 6 {
                Some(Op::AddWithCarryHlLocationToA)
            } else {
                Some(Op::AddWithCarryRegisterToA)
            }
        } else if y == 2 {
            if z == 6 {
                Some(Op::SubHlLocationFromA)
            } else {
                Some(Op::SubRegisterFromA)
            }
        } else if y == 3 {
            if z == 6 {
                Some(Op::SubWithCarryHlLocationFromA)
            } else {
                Some(Op::SubWithCarryRegisterFromA)
            }
        } else if y == 4 {
            if z == 6 {
                Some(Op::AndHlLocation)
            } else {
                Some(Op::AndRegister)
            }
        } else if y == 5 {
            if z == 6 {
                Some(Op::XorHlLocation)
            } else {
                Some(Op::XorRegister)
            }
        } else if y == 6 {
            if z == 6 {
                Some(Op::OrHlLocation)
            } else {
                Some(Op::OrRegister)
            }
        } else {
            if z == 6 {
                Some(Op::CompareHlLocationWithA)
            } else {
                Some(Op::CompareRegisterWithA)
            }
        }
    } else {
        if z == 0 {
            if y < 4 {
                Some(Op::RetIfCondition)
            } else if y == 4 {
                Some(Op::LoadAIntoImmediateNLocation)
            } else if y == 5 {
                Some(Op::AddImmediateEToSp)
            } else if y == 6 {
                Some(Op::LoadImmediateNLocationIntoA)
            } else {
                Some(Op::LoadSpAndImmediateEIntoHl)
            }
        } else if z == 1 {
            if y % 2 == 0 {
                Some(Op::PopRegisterPair)
            } else if y == 1 {
                Some(Op::Ret)
            } else if y == 3 {
                Some(Op::Reti)
            } else if y == 5 {
                Some(Op::JumpToHl)
            } else {
                Some(Op::LoadHlIntoSp)
            }
        } else if z == 2 {
            if y < 4 {
                Some(Op::JumpToImmediateNnIfCondition)
            } else if y == 4 {
                Some(Op::LoadAIntoCLocation)
            } else if y == 5 {
                Some(Op::LoadAIntoImmediateNnLocation)
            } else if y == 6 {
                Some(Op::LoadCLocationIntoA)
            } else {
                Some(Op::LoadImmediateNnLocationIntoA)
            }
        } else if z == 3 {
            if y == 0 {
                Some(Op::JumpToImmediateNn)
            } else if y == 1 {
                Some(Op::Prefix)
            } else if y == 6 {
                Some(Op::Di)
            } else if y == 7 {
                Some(Op::Ei)
            } else {
                None
            }
        } else if z == 4 {
            if y < 4 {
                Some(Op::CallIfCondition)
            } else {
                None
            }
        } else if z == 5 {
            if y % 2 == 0 {
                Some(Op::PushRegisterPair)
            } else if y == 1 {
                Some(Op::Call)
            } else {
                None
            }
        } else if z == 6 {
            if y == 0 {
                Some(Op::AddImmediateNToA)
            } else if y == 1 {
                Some(Op::AddWithCarryImmediateNToA)
            } else if y == 2 {
                Some(Op::SubImmediateNFromA)
            } else if y == 3 {
                Some(Op::SubWithCarryImmediateNFromA)
            } else if y == 4 {
                Some(Op::AndImmediateN)
            } else if y == 5 {
                Some(Op::XorImmediateN)
            } else if y == 6 {
                Some(Op::OrImmediateN)
            } else {
                Some(Op::CompareImmediateNWithA)
            }
        } else {
            Some(Op::ResetToPage)
        }
    }
}

/// The eleven permanently illegal unprefixed opcode bytes, ascending.
pub fn unimplemented_opcodes() -> (r: Vec<u8>)
    ensures
        r@.len() == 11,
        forall|b: u8| r@.contains(b) <==> is_illegal_opcode(b),
{
    let mut opcodes: Vec<u8> = Vec::new();

    opcodes.push(0xd3);
    opcodes.push(0xdb);
    opcodes.push(0xdd);
    opcodes.push(0xe3);
    opcodes.push(0xe4);
    opcodes.push(0xeb);
    opcodes.push(0xec);
    opcodes.push(0xed);
    opcodes.push(0xf4);
    opcodes.push(0xfc);
    opcodes.push(0xfd);

    proof {
        assert forall|b: u8| opcodes@.contains(b) <==> is_illegal_opcode(b) by {
            if is_illegal_opcode(b) {
                if b == 0xd3 {
                    assert(opcodes@[0] == b);
                } else if b == 0xdb {
                    assert(opcodes@[1] == b);
                } else if b == 0xdd {
                    assert(opcodes@[2] == b);
                } else if b == 0xe3 {
                    assert(opcodes@[3] == b);
                } else if b == 0xe4 {
                    assert(opcodes@[4] == b);
                } else if b == 0xeb {
                    assert(opcodes@[5] == b);
                } else if b == 0xec {
                    assert(opcodes@[6] == b);
                } else if b == 0xed {
                    assert(opcodes@[7] == b);
                } else if b == 0xf4 {
                    assert(opcodes@[8] == b);
                } else if b == 0xfc {
                    assert(opcodes@[9] == b);
                } else {
                    assert(opcodes@[10] == b);
                }
            }
        }
    }

    opcodes
}

/// The exact contract of the instruction an opcode byte decoded to: the
/// per-instruction relation between the state after the body and the
/// state before, together with the result.
pub open spec fn op_rel(pre: Emulator, post: Emulator, op: Op, opcode: u8, r: OpResult) -> bool {
    match op {
        Op::AddHlLocationToA => add_hl_location_to_a_rel(pre, post, opcode, r),
        Op::AddImmediateEToSp => add_immediate_e_to_sp_rel(pre, post, opcode, r),
        Op::AddImmediateNToA => add_immediate_n_to_a_rel(pre, post, opcode, r),
        Op::AddRegisterPairToHl => add_register_pair_to_hl_rel(pre, post, opcode, r),
        Op::AddRegisterToA => add_register_to_a_rel(pre, post, opcode, r),
        Op::AddWithCarryHlLocationToA => add_with_carry_hl_location_to_a_rel(pre, post, opcode, r),
        Op::AddWithCarryImmediateNToA => add_with_carry_immediate_n_to_a_rel(pre, post, opcode, r),
        Op::AddWithCarryRegisterToA => add_with_carry_register_to_a_rel(pre, post, opcode, r),
        Op::AndHlLocation => and_hl_location_rel(pre, post, opcode, r),
        Op::AndImmediateN => and_immediate_n_rel(pre, post, opcode, r),
        Op::AndRegister => and_register_rel(pre, post, opcode, r),
        Op::BitComplementOfHlLocation => bit_complement_of_hl_location_rel(pre, post, opcode, r),
        Op::BitComplementOfRegister => bit_complement_of_register_rel(pre, post, opcode, r),
        Op::Call => call_rel(pre, post, opcode, r),
        Op::CallIfCondition => call_if_condition_rel(pre, post, opcode, r),
        Op::CompareHlLocationWithA => compare_hl_location_with_a_rel(pre, post, opcode, r),
        Op::CompareImmediateNWithA => compare_immediate_n_with_a_rel(pre, post, opcode, r),
        Op::CompareRegisterWithA => compare_register_with_a_rel(pre, post, opcode, r),
        Op::ComplementA => complement_a_rel(pre, post, opcode, r),
        Op::DecHlLocation => dec_hl_location_rel(pre, post, opcode, r),
        Op::DecRegister => dec_register_rel(pre, post, opcode, r),
        Op::DecRegisterPair => dec_register_pair_rel(pre, post, opcode, r),
        Op::DecimalAdjustA => decimal_adjust_a_rel(pre, post, opcode, r),
        Op::Di => di_rel(pre, post, opcode, r),
        Op::Ei => ei_rel(pre, post, opcode, r),
        Op::FlipCarry => flip_carry_rel(pre, post, opcode, r),
        Op::Halt => halt_rel(pre, post, opcode, r),
        Op::IncHlLocation => inc_hl_location_rel(pre, post, opcode, r),
        Op::IncRegister => inc_register_rel(pre, post, opcode, r),
        Op::IncRegisterPair => inc_register_pair_rel(pre, post, opcode, r),
        Op::JumpToHl => jump_to_hl_rel(pre, post, opcode, r),
        Op::JumpToImmediateE => jump_to_immediate_e_rel(pre, post, opcode, r),
        Op::JumpToImmediateEIfCondition => jump_to_immediate_e_if_condition_rel(pre, post, opcode, r),
        Op::JumpToImmediateNn => jump_to_immediate_nn_rel(pre, post, opcode, r),
        Op::JumpToImmediateNnIfCondition => jump_to_immediate_nn_if_condition_rel(pre, post, opcode, r),
        Op::LoadAIntoBcLocation => load_a_into_bc_location_rel(pre, post, opcode, r),
        Op::LoadAIntoCLocation => load_a_into_c_location_rel(pre, post, opcode, r),
        Op::LoadAIntoDeLocation => load_a_into_de_location_rel(pre, post, opcode, r),
        Op::LoadAIntoHlLocationDec => load_a_into_hl_location_dec_rel(pre, post, opcode, r),
        Op::LoadAIntoHlLocationInc => load_a_into_hl_location_inc_rel(pre, post, opcode, r),
        Op::LoadAIntoImmediateNLocation => load_a_into_immediate_n_location_rel(pre, post, opcode, r),
        Op::LoadAIntoImmediateNnLocation => load_a_into_immediate_nn_location_rel(pre, post, opcode, r),
        Op::LoadBcLocationIntoA => load_bc_location_into_a_rel(pre, post, opcode, r),
        Op::LoadCLocationIntoA => load_c_location_into_a_rel(pre, post, opcode, r),
        Op::LoadDeLocationIntoA => load_de_location_into_a_rel(pre, post, opcode, r),
        Op::LoadHlIntoSp => load_hl_into_sp_rel(pre, post, opcode, r),
        Op::LoadHlLocationDecIntoA => load_hl_location_dec_into_a_rel(pre, post, opcode, r),
        Op::LoadHlLocationIncIntoA => load_hl_location_inc_into_a_rel(pre, post, opcode, r),
        Op::LoadHlLocationIntoRegister => load_hl_location_into_register_rel(pre, post, opcode, r),
        Op::LoadImmediateNIntoHlLocation => load_immediate_n_into_hl_location_rel(pre, post, opcode, r),
        Op::LoadImmediateNIntoRegister => load_immediate_n_into_register_rel(pre, post, opcode, r),
        Op::LoadImmediateNLocationIntoA => load_immediate_n_location_into_a_rel(pre, post, opcode, r),
        Op::LoadImmediateNnIntoRegisterPair => load_immediate_nn_into_register_pair_rel(pre, post, opcode, r),
        Op::LoadImmediateNnLocationIntoA => load_immediate_nn_location_into_a_rel(pre, post, opcode, r),
        Op::LoadRegisterIntoHlLocation => load_register_into_hl_location_rel(pre, post, opcode, r),
        Op::LoadRegisterIntoRegister => load_register_into_register_rel(pre, post, opcode, r),
        Op::LoadSpAndImmediateEIntoHl => load_sp_and_immediate_e_into_hl_rel(pre, post, opcode, r),
        Op::LoadSpIntoNnLocation => load_sp_into_nn_location_rel(pre, post, opcode, r),
        Op::Noop => noop_rel(pre, post, opcode, r),
        Op::OrHlLocation => or_hl_location_rel(pre, post, opcode, r),
        Op::OrImmediateN => or_immediate_n_rel(pre, post, opcode, r),
        Op::OrRegister => or_register_rel(pre, post, opcode, r),
        Op::PopRegisterPair => pop_register_pair_rel(pre, post, opcode, r),
        Op::Prefix => prefix_rel(pre, post, opcode, r),
        Op::PushRegisterPair => push_register_pair_rel(pre, post, opcode, r),
        Op::ResetBitOfHlLocation => reset_bit_of_hl_location_rel(pre, post, opcode, r),
        Op::ResetBitOfRegister => reset_bit_of_register_rel(pre, post, opcode, r),
        Op::ResetToPage => reset_to_page_rel(pre, post, opcode, r),
        Op::Ret => ret_rel(pre, post, r),
        Op::RetIfCondition => ret_if_condition_rel(pre, post, opcode, r),
        Op::Reti => reti_rel(pre, post, opcode, r),
        Op::RotateALeftCopyCarry => rotate_a_left_copy_carry_rel(pre, post, opcode, r),
        Op::RotateALeftThroughCarry => rotate_a_left_through_carry_rel(pre, post, opcode, r),
        Op::RotateARightCopyCarry => rotate_a_right_copy_carry_rel(pre, post, opcode, r),
        Op::RotateARightThroughCarry => rotate_a_right_through_carry_rel(pre, post, opcode, r),
        Op::RotateHlLocationLeftCopyCarry => rotate_hl_location_left_copy_carry_rel(pre, post, opcode, r),
        Op::RotateHlLocationLeftThroughCarry => rotate_hl_location_left_through_carry_rel(pre, post, opcode, r),
        Op::RotateHlLocationRightCopyCarry => rotate_hl_location_right_copy_carry_rel(pre, post, opcode, r),
        Op::RotateHlLocationRightThroughCarry => rotate_hl_location_right_through_carry_rel(pre, post, opcode, r),
        Op::RotateRegisterLeftCopyCarry => rotate_register_left_copy_carry_rel(pre, post, opcode, r),
        Op::RotateRegisterLeftThroughCarry => rotate_register_left_through_carry_rel(pre, post, opcode, r),
        Op::RotateRegisterRightCopyCarry => rotate_register_right_copy_carry_rel(pre, post, opcode, r),
        Op::RotateRegisterRightThroughCarry => rotate_register_right_through_carry_rel(pre, post, opcode, r),
        Op::SetBitOfHlLocation => set_bit_of_hl_location_rel(pre, post, opcode, r),
        Op::SetBitOfRegister => set_bit_of_register_rel(pre, post, opcode, r),
        Op::SetCarry => set_carry_rel(pre, post, opcode, r),
        Op::ShiftHlLocationLeft => shift_hl_location_left_rel(pre, post, opcode, r),
        Op::ShiftHlLocationRight => shift_hl_location_right_rel(pre, post, opcode, r),
        Op::ShiftHlLocationRightCopyBit => shift_hl_location_right_copy_bit_rel(pre, post, opcode, r),
        Op::ShiftRegisterLeft => shift_register_left_rel(pre, post, opcode, r),
        Op::ShiftRegisterRight => shift_register_right_rel(pre, post, opcode, r),
        Op::ShiftRegisterRightCopyBit => shift_register_right_copy_bit_rel(pre, post, opcode, r),
        Op::Stop => stop_rel(pre, post, opcode, r),
        Op::SubHlLocationFromA => sub_hl_location_from_a_rel(pre, post, opcode, r),
        Op::SubImmediateNFromA => sub_immediate_n_from_a_rel(pre, post, opcode, r),
        Op::SubRegisterFromA => sub_register_from_a_rel(pre, post, opcode, r),
        Op::SubWithCarryHlLocationFromA => sub_with_carry_hl_location_from_a_rel(pre, post, opcode, r),
        Op::SubWithCarryImmediateNFromA => sub_with_carry_immediate_n_from_a_rel(pre, post, opcode, r),
        Op::SubWithCarryRegisterFromA => sub_with_carry_register_from_a_rel(pre, post, opcode, r),
        Op::SwapBitsOfHlLocation => swap_bits_of_hl_location_rel(pre, post, opcode, r),
        Op::SwapBitsOfRegister => swap_bits_of_register_rel(pre, post, opcode, r),
        Op::XorHlLocation => xor_hl_location_rel(pre, post, opcode, r),
        Op::XorImmediateN => xor_immediate_n_rel(pre, post, opcode, r),
        Op::XorRegister => xor_register_rel(pre, post, opcode, r),
    }
}

/// Whether an instruction kind belongs to the arithmetic family.
pub open spec fn is_arithmetic_op(op: Op) -> bool {
    op == Op::AddHlLocationToA
        || op == Op::AddImmediateEToSp
        || op == Op::AddImmediateNToA
        || op == Op::AddRegisterPairToHl
        || op == Op::AddRegisterToA
        || op == Op::AddWithCarryHlLocationToA
        || op == Op::AddWithCarryImmediateNToA
        || op == Op::AddWithCarryRegisterToA
        || op == Op::CompareHlLocationWithA
        || op == Op::CompareImmediateNWithA
        || op == Op::CompareRegisterWithA
        || op == Op::DecHlLocation
        || op == Op::DecRegister
        || op == Op::DecRegisterPair
        || op == Op::IncHlLocation
        || op == Op::IncRegister
        || op == Op::IncRegisterPair
        || op == Op::SubHlLocationFromA
        || op == Op::SubImmediateNFromA
        || op == Op::SubRegisterFromA
        || op == Op::SubWithCarryHlLocationFromA
        || op == Op::SubWithCarryImmediateNFromA
        || op == Op::SubWithCarryRegisterFromA
}

/// Executes one instruction body of the arithmetic family.
#[verifier::rlimit(100)]
#[verifier::spinoff_prover]
fn execute_arithmetic(emulator: &mut Emulator, op: Op, opcode: u8) -> (r: OpResult)
    requires
        old(emulator).wf(),
        is_arithmetic_op(op),
    ensures
        final(emulator).wf(),
        op_rel(*old(emulator), *final(emulator), op, opcode, r),
        final(emulator).prefixed == old(emulator).prefixed,
{
    match op {
        Op::AddHlLocationToA => add_hl_location_to_a(emulator, opcode),
        Op::AddImmediateEToSp => add_immediate_e_to_sp(emulator, opcode),
        Op::AddImmediateNToA => add_immediate_n_to_a(emulator, opcode),
        Op::AddRegisterPairToHl => add_register_pair_to_hl(emulator, opcode),
        Op::AddRegisterToA => add_register_to_a(emulator, opcode),
        Op::AddWithCarryHlLocationToA => add_with_carry_hl_location_to_a(emulator, opcode),
        Op::AddWithCarryImmediateNToA => add_with_carry_immediate_n_to_a(emulator, opcode),
        Op::AddWithCarryRegisterToA => add_with_carry_register_to_a(emulator, opcode),
        Op::CompareHlLocationWithA => compare_hl_location_with_a(emulator, opcode),
        Op::CompareImmediateNWithA => compare_immediate_n_with_a(emulator, opcode),
        Op::CompareRegisterWithA => compare_register_with_a(emulator, opcode),
        Op::DecHlLocation => dec_hl_location(emulator, opcode),
        Op::DecRegister => dec_register(emulator, opcode),
        Op::DecRegisterPair => dec_register_pair(emulator, opcode),
        Op::IncHlLocation => inc_hl_location(emulator, opcode),
        Op::IncRegister => inc_register(emulator, opcode),
        Op::IncRegisterPair => inc_register_pair(emulator, opcode),
        Op::SubHlLocationFromA => sub_hl_location_from_a(emulator, opcode),
        Op::SubImmediateNFromA => sub_immediate_n_from_a(emulator, opcode),
        Op::SubRegisterFromA => sub_register_from_a(emulator, opcode),
        Op::SubWithCarryHlLocationFromA => sub_with_carry_hl_location_from_a(emulator, opcode),
        Op::SubWithCarryImmediateNFromA => sub_with_carry_immediate_n_from_a(emulator, opcode),
        Op::SubWithCarryRegisterFromA => sub_with_carry_register_from_a(emulator, opcode),
        _ => {
            proof {
                assert(false);
            }

            Ok(())
        },
    }
}

/// Whether an instruction kind belongs to the bit family.
pub open spec fn is_bit_op(op: Op) -> bool {
    op == Op::BitComplementOfHlLocation
        || op == Op::BitComplementOfRegister
        || op == Op::ResetBitOfHlLocation
        || op == Op::ResetBitOfRegister
        || op == Op::SetBitOfHlLocation
        || op == Op::SetBitOfRegister
}

/// Executes one instruction body of the bit family.
#[verifier::rlimit(100)]
#[verifier::spinoff_prover]
fn execute_bit(emulator: &mut Emulator, op: Op, opcode: u8) -> (r: OpResult)
    requires
        old(emulator).wf(),
        is_bit_op(op),
    ensures
        final(emulator).wf(),
        op_rel(*old(emulator), *final(emulator), op, opcode, r),
        final(emulator).prefixed == old(emulator).prefixed,
{
    match op {
        Op::BitComplementOfHlLocation => bit_complement_of_hl_location(emulator, opcode),
        Op::BitComplementOfRegister => bit_complement_of_register(emulator, opcode),
        Op::ResetBitOfHlLocation => reset_bit_of_hl_location(emulator, opcode),
        Op::ResetBitOfRegister => reset_bit_of_register(emulator, opcode),
        Op::SetBitOfHlLocation => set_bit_of_hl_location(emulator, opcode),
        Op::SetBitOfRegister => set_bit_of_register(emulator, opcode),
        _ => {
            proof {
                assert(false);
            }

            Ok(())
        },
    }
}

/// Whether an instruction kind belongs to the call family.
pub open spec fn is_call_op(op: Op) -> bool {
    op == Op::Call
        || op == Op::CallIfCondition
        || op == Op::ResetToPage
        || op == Op::Ret
        || op == Op::RetIfCondition
        || op == Op::Reti
}

/// Executes one instruction body of the call family.
#[verifier::rlimit(100)]
#[verifier::spinoff_prover]
fn execute_call(emulator: &mut Emulator, op: Op, opcode: u8) -> (r: OpResult)
    requires
        old(emulator).wf(),
        is_call_op(op),
    ensures
        final(emulator).wf(),
        op_rel(*old(emulator), *final(emulator), op, opcode, r),
        final(emulator).prefixed == old(emulator).prefixed,
{
    match op {
        Op::Call => call(emulator, opcode),
        Op::CallIfCondition => call_if_condition(emulator, opcode),
        Op::ResetToPage => reset_to_page(emulator, opcode),
        Op::Ret => ret(emulator, opcode),
        Op::RetIfCondition => ret_if_condition(emulator, opcode),
        Op::Reti => reti(emulator, opcode),
        _ => {
            proof {
                assert(false);
            }

            Ok(())
        },
    }
}

/// Whether an instruction kind belongs to the general family.
pub open spec fn is_general_op(op: Op) -> bool {
    op == Op::ComplementA
        || op == Op::DecimalAdjustA
        || op == Op::Di
        || op == Op::Ei
        || op == Op::FlipCarry
        || op == Op::Halt
        || op == Op::Noop
        || op == Op::Prefix
        || op == Op::SetCarry
        || op == Op::Stop
}

/// Executes one instruction body of the general family.
#[verifier::rlimit(100)]
#[verifier::spinoff_prover]
fn execute_general(emulator: &mut Emulator, op: Op, opcode: u8) -> (r: OpResult)
    requires
        old(emulator).wf(),
        is_general_op(op),
    ensures
        final(emulator).wf(),
        op_rel(*old(emulator), *final(emulator), op, opcode, r),
        final(emulator).prefixed == if op == Op::Prefix {
            true
        } else {
            old(emulator).prefixed
        },
{
    match op {
        Op::ComplementA => complement_a(emulator, opcode),
        Op::DecimalAdjustA => decimal_adjust_a(emulator, opcode),
        Op::Di => di(emulator, opcode),
        Op::Ei => ei(emulator, opcode),
        Op::FlipCarry => flip_carry(emulator, opcode),
        Op::Halt => halt(emulator, opcode),
        Op::Noop => noop(emulator, opcode),
        Op::Prefix => prefix(emulator, opcode),
        Op::SetCarry => set_carry(emulator, opcode),
        Op::Stop => stop(emulator, opcode),
        _ => {
            proof {
                assert(false);
            }

            Ok(())
        },
    }
}

/// Whether an instruction kind belongs to the jump family.
pub open spec fn is_jump_op(op: Op) -> bool {
    op == Op::JumpToHl
        || op == Op::JumpToImmediateE
        || op == Op::JumpToImmediateEIfCondition
        || op == Op::JumpToImmediateNn
        || op == Op::JumpToImmediateNnIfCondition
}

/// Executes one instruction body of the jump family.
#[verifier::rlimit(100)]
#[verifier::spinoff_prover]
fn execute_jump(emulator: &mut Emulator, op: Op, opcode: u8) -> (r: OpResult)
    requires
        old(emulator).wf(),
        is_jump_op(op),
    ensures
        final(emulator).wf(),
        op_rel(*old(emulator), *final(emulator), op, opcode, r),
        final(emulator).prefixed == old(emulator).prefixed,
{
    match op {
        Op::JumpToHl => jump_to_hl(emulator, opcode),
        Op::JumpToImmediateE => jump_to_immediate_e(emulator, opcode),
        Op::JumpToImmediateEIfCondition => jump_to_immediate_e_if_condition(emulator, opcode),
        Op::JumpToImmediateNn => jump_to_immediate_nn(emulator, opcode),
        Op::JumpToImmediateNnIfCondition => jump_to_immediate_nn_if_condition(emulator, opcode),
        _ => {
            proof {
                assert(false);
            }

            Ok(())
        },
    }
}

/// Whether an instruction kind belongs to the loading family.
pub open spec fn is_loading_op(op: Op) -> bool {
    op == Op::LoadAIntoBcLocation
        || op == Op::LoadAIntoCLocation
        || op == Op::LoadAIntoDeLocation
        || op == Op::LoadAIntoHlLocationDec
        || op == Op::LoadAIntoHlLocationInc
        || op == Op::LoadAIntoImmediateNLocation
        || op == Op::LoadAIntoImmediateNnLocation
        || op == Op::LoadBcLocationIntoA
        || op == Op::LoadCLocationIntoA
        || op == Op::LoadDeLocationIntoA
        || op == Op::LoadHlIntoSp
        || op == Op::LoadHlLocationDecIntoA
        || op == Op::LoadHlLocationIncIntoA
        || op == Op::LoadHlLocationIntoRegister
        || op == Op::LoadImmediateNIntoHlLocation
        || op == Op::LoadImmediateNIntoRegister
        || op == Op::LoadImmediateNLocationIntoA
        || op == Op::LoadImmediateNnIntoRegisterPair
        || op == Op::LoadImmediateNnLocationIntoA
        || op == Op::LoadRegisterIntoHlLocation
        || op == Op::LoadRegisterIntoRegister
        || op == Op::LoadSpAndImmediateEIntoHl
        || op == Op::LoadSpIntoNnLocation
        || op == Op::PopRegisterPair
        || op == Op::PushRegisterPair
}

/// Executes one instruction body of the loading family.
#[verifier::rlimit(100)]
#[verifier::spinoff_prover]
fn execute_loading(emulator: &mut Emulator, op: Op, opcode: u8) -> (r: OpResult)
    requires
        old(emulator).wf(),
        is_loading_op(op),
    ensures
        final(emulator).wf(),
        op_rel(*old(emulator), *final(emulator), op, opcode, r),
        final(emulator).prefixed == old(emulator).prefixed,
{
    match op {
        Op::LoadAIntoBcLocation => load_a_into_bc_location(emulator, opcode),
        Op::LoadAIntoCLocation => load_a_into_c_location(emulator, opcode),
        Op::LoadAIntoDeLocation => load_a_into_de_location(emulator, opcode),
        Op::LoadAIntoHlLocationDec => load_a_into_hl_location_dec(emulator, opcode),
        Op::LoadAIntoHlLocationInc => load_a_into_hl_location_inc(emulator, opcode),
        Op::LoadAIntoImmediateNLocation => load_a_into_immediate_n_location(emulator, opcode),
        Op::LoadAIntoImmediateNnLocation => load_a_into_immediate_nn_location(emulator, opcode),
        Op::LoadBcLocationIntoA => load_bc_location_into_a(emulator, opcode),
        Op::LoadCLocationIntoA => load_c_location_into_a(emulator, opcode),
        Op::LoadDeLocationIntoA => load_de_location_into_a(emulator, opcode),
        Op::LoadHlIntoSp => load_hl_into_sp(emulator, opcode),
        Op::LoadHlLocationDecIntoA => load_hl_location_dec_into_a(emulator, opcode),
        Op::LoadHlLocationIncIntoA => load_hl_location_inc_into_a(emulator, opcode),
        Op::LoadHlLocationIntoRegister => load_hl_location_into_register(emulator, opcode),
        Op::LoadImmediateNIntoHlLocation => load_immediate_n_into_hl_location(emulator, opcode),
        Op::LoadImmediateNIntoRegister => load_immediate_n_into_register(emulator, opcode),
        Op::LoadImmediateNLocationIntoA => load_immediate_n_location_into_a(emulator, opcode),
        Op::LoadImmediateNnIntoRegisterPair => load_immediate_nn_into_register_pair(
            emulator,
            opcode,
        ),
        Op::LoadImmediateNnLocationIntoA => load_immediate_nn_location_into_a(emulator, opcode),
        Op::LoadRegisterIntoHlLocation => load_register_into_hl_location(emulator, opcode),
        Op::LoadRegisterIntoRegister => load_register_into_register(emulator, opcode),
        Op::LoadSpAndImmediateEIntoHl => load_sp_and_immediate_e_into_hl(emulator, opcode),
        Op::LoadSpIntoNnLocation => load_sp_into_nn_location(emulator, opcode),
        Op::PopRegisterPair => pop_register_pair(emulator, opcode),
        Op::PushRegisterPair => push_register_pair(emulator, opcode),
        _ => {
            proof {
                assert(false);
            }

            Ok(())
        },
    }
}

/// Whether an instruction kind belongs to the logical family.
pub open spec fn is_logical_op(op: Op) -> bool {
    op == Op::AndHlLocation
        || op == Op::AndImmediateN
        || op == Op::AndRegister
        || op == Op::OrHlLocation
        || op == Op::OrImmediateN
        || op == Op::OrRegister
        || op == Op::XorHlLocation
        || op == Op::XorImmediateN
        || op == Op::XorRegister
}

/// Executes one instruction body of the logical family.
#[verifier::rlimit(100)]
#[verifier::spinoff_prover]
fn execute_logical(emulator: &mut Emulator, op: Op, opcode: u8) -> (r: OpResult)
    requires
        old(emulator).wf(),
        is_logical_op(op),
    ensures
        final(emulator).wf(),
        op_rel(*old(emulator), *final(emulator), op, opcode, r),
        final(emulator).prefixed == old(emulator).prefixed,
{
    match op {
        Op::AndHlLocation => and_hl_location(emulator, opcode),
        Op::AndImmediateN => and_immediate_n(emulator, opcode),
        Op::AndRegister => and_register(emulator, opcode),
        Op::OrHlLocation => or_hl_location(emulator, opcode),
        Op::OrImmediateN => or_immediate_n(emulator, opcode),
        Op::OrRegister => or_register(emulator, opcode),
        Op::XorHlLocation => xor_hl_location(emulator, opcode),
        Op::XorImmediateN => xor_immediate_n(emulator, opcode),
        Op::XorRegister => xor_register(emulator, opcode),
        _ => {
            proof {
                assert(false);
            }

            Ok(())
        },
    }
}

/// Whether an instruction kind belongs to the register-operand half of the rotating family.
pub open spec fn is_rotating_op(op: Op) -> bool {
    op == Op::RotateALeftCopyCarry
        || op == Op::RotateALeftThroughCarry
        || op == Op::RotateARightCopyCarry
        || op == Op::RotateARightThroughCarry
        || op == Op::RotateRegisterLeftCopyCarry
        || op == Op::RotateRegisterLeftThroughCarry
        || op == Op::RotateRegisterRightCopyCarry
        || op == Op::RotateRegisterRightThroughCarry
        || op == Op::ShiftRegisterLeft
        || op == Op::ShiftRegisterRight
        || op == Op::ShiftRegisterRightCopyBit
        || op == Op::SwapBitsOfRegister
}

/// Executes one instruction body of the register-operand half of the rotating family.
#[verifier::rlimit(100)]
#[verifier::spinoff_prover]
fn execute_rotating(emulator: &mut Emulator, op: Op, opcode: u8) -> (r: OpResult)
    requires
        old(emulator).wf(),
        is_rotating_op(op),
    ensures
        final(emulator).wf(),
        op_rel(*old(emulator), *final(emulator), op, opcode, r),
        final(emulator).prefixed == old(emulator).prefixed,
{
    match op {
        Op::RotateALeftCopyCarry => rotate_a_left_copy_carry(emulator, opcode),
        Op::RotateALeftThroughCarry => rotate_a_left_through_carry(emulator, opcode),
        Op::RotateARightCopyCarry => rotate_a_right_copy_carry(emulator, opcode),
        Op::RotateARightThroughCarry => rotate_a_right_through_carry(emulator, opcode),
        Op::RotateRegisterLeftCopyCarry => rotate_register_left_copy_carry(emulator, opcode),
        Op::RotateRegisterLeftThroughCarry => rotate_register_left_through_carry(emulator, opcode),
        Op::RotateRegisterRightCopyCarry => rotate_register_right_copy_carry(emulator, opcode),
        Op::RotateRegisterRightThroughCarry => rotate_register_right_through_carry(emulator, opcode),
        Op::ShiftRegisterLeft => shift_register_left(emulator, opcode),
        Op::ShiftRegisterRight => shift_register_right(emulator, opcode),
        Op::ShiftRegisterRightCopyBit => shift_register_right_copy_bit(emulator, opcode),
        Op::SwapBitsOfRegister => swap_bits_of_register(emulator, opcode),
        _ => {
            proof {
                assert(false);
            }

            Ok(())
        },
    }
}
/// Whether an instruction kind belongs to the memory-operand half of the rotating family.
pub open spec fn is_rotating_memory_op(op: Op) -> bool {
    op == Op::RotateHlLocationLeftCopyCarry
        || op == Op::RotateHlLocationLeftThroughCarry
        || op == Op::RotateHlLocationRightCopyCarry
        || op == Op::RotateHlLocationRightThroughCarry
        || op == Op::ShiftHlLocationLeft
        || op == Op::ShiftHlLocationRight
        || op == Op::ShiftHlLocationRightCopyBit
        || op == Op::SwapBitsOfHlLocation
}

/// Executes one instruction body of the memory-operand half of the rotating family.
#[verifier::rlimit(100)]
#[verifier::spinoff_prover]
fn execute_rotating_memory(emulator: &mut Emulator, op: Op, opcode: u8) -> (r: OpResult)
    requires
        old(emulator).wf(),
        is_rotating_memory_op(op),
    ensures
        final(emulator).wf(),
        op_rel(*old(emulator), *final(emulator), op, opcode, r),
        final(emulator).prefixed == old(emulator).prefixed,
{
    match op {
        Op::RotateHlLocationLeftCopyCarry => rotate_hl_location_left_copy_carry(emulator, opcode),
        Op::RotateHlLocationLeftThroughCarry => rotate_hl_location_left_through_carry(emulator, opcode),
        Op::RotateHlLocationRightCopyCarry => rotate_hl_location_right_copy_carry(emulator, opcode),
        Op::RotateHlLocationRightThroughCarry => rotate_hl_location_right_through_carry(emulator, opcode),
        Op::ShiftHlLocationLeft => shift_hl_location_left(emulator, opcode),
        Op::ShiftHlLocationRight => shift_hl_location_right(emulator, opcode),
        Op::ShiftHlLocationRightCopyBit => shift_hl_location_right_copy_bit(emulator, opcode),
        Op::SwapBitsOfHlLocation => swap_bits_of_hl_location(emulator, opcode),
        _ => {
            proof {
                assert(false);
            }

            Ok(())
        },
    }
}
/// Executes one decoded instruction body on the CPU by handing it to its
/// family's dispatcher.
fn execute(emulator: &mut Emulator, op: Op, opcode: u8) -> (r: OpResult)
    requires
        old(emulator).wf(),
    ensures
        final(emulator).wf(),
        op_rel(*old(emulator), *final(emulator), op, opcode, r),
        final(emulator).prefixed == if op == Op::Prefix {
            true
        } else {
            old(emulator).prefixed
        },
{
    match op {
        Op::AddHlLocationToA
        | Op::AddImmediateEToSp
        | Op::AddImmediateNToA
        | Op::AddRegisterPairToHl
        | Op::AddRegisterToA
        | Op::AddWithCarryHlLocationToA
        | Op::AddWithCarryImmediateNToA
        | Op::AddWithCarryRegisterToA
        | Op::CompareHlLocationWithA
        | Op::CompareImmediateNWithA
        | Op::CompareRegisterWithA
        | Op::DecHlLocation
        | Op::DecRegister
        | Op::DecRegisterPair
        | Op::IncHlLocation
        | Op::IncRegister
        | Op::IncRegisterPair
        | Op::SubHlLocationFromA
        | Op::SubImmediateNFromA
        | Op::SubRegisterFromA
        | Op::SubWithCarryHlLocationFromA
        | Op::SubWithCarryImmediateNFromA
        | Op::SubWithCarryRegisterFromA => execute_arithmetic(emulator, op, opcode),
        Op::BitComplementOfHlLocation
        | Op::BitComplementOfRegister
        | Op::ResetBitOfHlLocation
        | Op::ResetBitOfRegister
        | Op::SetBitOfHlLocation
        | Op::SetBitOfRegister => execute_bit(emulator, op, opcode),
        Op::Call
        | Op::CallIfCondition
        | Op::ResetToPage
        | Op::Ret
        | Op::RetIfCondition
        | Op::Reti => execute_call(emulator, op, opcode),
        Op::ComplementA
        | Op::DecimalAdjustA
        | Op::Di
        | Op::Ei
        | Op::FlipCarry
        | Op::Halt
        | Op::Noop
        | Op::Prefix
        | Op::SetCarry
        | Op::Stop => execute_general(emulator, op, opcode),
        Op::JumpToHl
        | Op::JumpToImmediateE
        | Op::JumpToImmediateEIfCondition
        | Op::JumpToImmediateNn
        | Op::JumpToImmediateNnIfCondition => execute_jump(emulator, op, opcode),
        Op::LoadAIntoBcLocation
        | Op::LoadAIntoCLocation
        | Op::LoadAIntoDeLocation
        | Op::LoadAIntoHlLocationDec
        | Op::LoadAIntoHlLocationInc
        | Op::LoadAIntoImmediateNLocation
        | Op::LoadAIntoImmediateNnLocation
        | Op::LoadBcLocationIntoA
        | Op::LoadCLocationIntoA
        | Op::LoadDeLocationIntoA
        | Op::LoadHlIntoSp
        | Op::LoadHlLocationDecIntoA
        | Op::LoadHlLocationIncIntoA
        | Op::LoadHlLocationIntoRegister
        | Op::LoadImmediateNIntoHlLocation
        | Op::LoadImmediateNIntoRegister
        | Op::LoadImmediateNLocationIntoA
        | Op::LoadImmediateNnIntoRegisterPair
        | Op::LoadImmediateNnLocationIntoA
        | Op::LoadRegisterIntoHlLocation
        | Op::LoadRegisterIntoRegister
        | Op::LoadSpAndImmediateEIntoHl
        | Op::LoadSpIntoNnLocation
        | Op::PopRegisterPair
        | Op::PushRegisterPair => execute_loading(emulator, op, opcode),
        Op::AndHlLocation
        | Op::AndImmediateN
        | Op::AndRegister
        | Op::OrHlLocation
        | Op::OrImmediateN
        | Op::OrRegister
        | Op::XorHlLocation
        | Op::XorImmediateN
        | Op::XorRegister => execute_logical(emulator, op, opcode),
        Op::RotateALeftCopyCarry
        | Op::RotateALeftThroughCarry
        | Op::RotateARightCopyCarry
        | Op::RotateARightThroughCarry
        | Op::RotateRegisterLeftCopyCarry
        | Op::RotateRegisterLeftThroughCarry
        | Op::RotateRegisterRightCopyCarry
        | Op::RotateRegisterRightThroughCarry
        | Op::ShiftRegisterLeft
        | Op::ShiftRegisterRight
        | Op::ShiftRegisterRightCopyBit
        | Op::SwapBitsOfRegister => execute_rotating(emulator, op, opcode),
        Op::RotateHlLocationLeftCopyCarry
        | Op::RotateHlLocationLeftThroughCarry
        | Op::RotateHlLocationRightCopyCarry
        | Op::RotateHlLocationRightThroughCarry
        | Op::ShiftHlLocationLeft
        | Op::ShiftHlLocationRight
        | Op::ShiftHlLocationRightCopyBit
        | Op::SwapBitsOfHlLocation => execute_rotating_memory(emulator, op, opcode),
    }
}

/// The state right after a fetch: the prefix latch consumed, the opcode
/// read (one cycle) and the program counter advanced past it (no cycle).
pub open spec fn fetched_state(pre: Emulator) -> Emulator {
    Emulator {
        cycles_processed: bump_cycles(pre.cycles_processed),
        program_counter: ((pre.program_counter + 1) % 0x10000) as u16,
        prefixed: false,
        ..pre
    }
}

/// The exact contract of one fetch-decode-execute step: the prefix latch
/// is consumed before the read; a failed fetch charges its cycle and
/// returns the bus error; an unmapped byte returns the illegal-opcode
/// error with the true table flag; a mapped byte runs its instruction's
/// own contract on the post-fetch state, and the latch holds afterwards
/// exactly when that instruction was the unprefixed CB prefix.
pub open spec fn process_opcode_rel(pre: Emulator, post: Emulator, r: OpResult) -> bool {
    match pre.memory_mapping.spec_read(pre.program_counter) {
        Err(e) => r == Err::<(), OpError>(OpError::Memory(e)) && post == (Emulator {
            cycles_processed: bump_cycles(pre.cycles_processed),
            prefixed: false,
            ..pre
        }),
        Ok(byte) => match spec_decode(pre.prefixed, byte) {
            None => r == Err::<(), OpError>(OpError::Unimplemented(pre.prefixed, byte)) && post
                == fetched_state(pre),
            Some(op) => op_rel(fetched_state(pre), post, op, byte, r) && post.prefixed == (op
                == Op::Prefix),
        },
    }
}

impl Emulator {
    /// One fetch-decode-execute step of the Run mode: consumes the prefix
    /// latch, reads the byte at the program counter (one cycle), advances
    /// the program counter (no cycle), resolves the byte against the table
    /// the latch selected — it holds for exactly this one fetch — and runs
    /// the instruction body. A byte absent from the table raises the
    /// illegal-opcode error.
    pub fn process_opcode(&mut self) -> (r: OpResult)
        requires
            old(self).wf(),
        ensures
            final(self).wf(),
            process_opcode_rel(*old(self), *final(self), r),
    {
        let prefixed = self.prefixed();

        if prefixed {
            self.set_prefix(false);
        }

        let pc = self.program_counter();

        let opcode = match self.read(pc) {
            Ok(byte) => byte,
            Err(e) => {
                return Err(OpError::Memory(e));
            },
        };

        self.program_counter = self.program_counter.wrapping_add(1);

        proof {
            assert(*self == fetched_state(*old(self)));
        }

        match decode(prefixed, opcode) {
            None => Err(OpError::Unimplemented(prefixed, opcode)),
            Some(op) => execute(self, op, opcode),
        }
    }

    /// One step of the Run/Halt/Stop state machine: in Run it fetches,
    /// decodes and executes one instruction under the step contract; in
    /// Halt it consumes one cycle and wakes to Run when an interrupt is
    /// pending; in Stop it does nothing until the joypad signal arrives.
    pub fn step(&mut self) -> (r: OpResult)
        requires
            old(self).wf(),
        ensures
            final(self).wf(),
            match old(self).state {
                EmulationState::Stop => r is Ok && *final(self) == *old(self),
                EmulationState::Halt => r is Ok && *final(self) == (Emulator {
                    cycles_processed: bump_cycles(old(self).cycles_processed),
                    state: if old(self).interrupt_pending {
                        EmulationState::Run
                    } else {
                        EmulationState::Halt
                    },
                    ..*old(self)
                }),
                EmulationState::Run => process_opcode_rel(*old(self), *final(self), r),
            },
    {
        match self.state() {
            EmulationState::Run => self.process_opcode(),
            EmulationState::Halt => {
                self.internal_cycle();

                if self.interrupt_pending {
                    self.set_state(EmulationState::Run);
                }

                Ok(())
            },
            EmulationState::Stop => Ok(()),
        }
    }
}

/// Whether an instruction kind lives in the CB-prefixed table.
pub open spec fn spec_op_prefixed(op: Op) -> bool {
    match op {
        Op::BitComplementOfHlLocation => true,
        Op::BitComplementOfRegister => true,
        Op::ResetBitOfHlLocation => true,
        Op::ResetBitOfRegister => true,
        Op::SetBitOfHlLocation => true,
        Op::SetBitOfRegister => true,
        Op::RotateHlLocationLeftCopyCarry => true,
        Op::RotateHlLocationLeftThroughCarry => true,
        Op::RotateHlLocationRightCopyCarry => true,
        Op::RotateHlLocationRightThroughCarry => true,
        Op::RotateRegisterLeftCopyCarry => true,
        Op::RotateRegisterLeftThroughCarry => true,
        Op::RotateRegisterRightCopyCarry => true,
        Op::RotateRegisterRightThroughCarry => true,
        Op::ShiftHlLocationLeft => true,
        Op::ShiftHlLocationRight => true,
        Op::ShiftHlLocationRightCopyBit => true,
        Op::ShiftRegisterLeft => true,
        Op::ShiftRegisterRight => true,
        Op::ShiftRegisterRightCopyBit => true,
        Op::SwapBitsOfHlLocation => true,
        Op::SwapBitsOfRegister => true,
        _ => false,
    }
}

/// Each decode table maps bytes only to instruction kinds of its own side:
/// the CB-prefixed table yields CB-prefixed kinds for every byte, and the
/// unprefixed table never yields one.
pub proof fn lemma_tables_respect_prefix_flag(byte: u8)
    ensures
        spec_op_prefixed(spec_decode_prefixed(byte)),
        spec_decode_unprefixed(byte) matches Some(op) ==> !spec_op_prefixed(op),
{
}

/// The descriptive record of one instruction kind: its name, its
/// bit-pattern template, and its CB-prefix flag, which agrees with the
/// decode table the kind lives in.
pub fn instruction_info(op: Op) -> (r: Instruction)
    ensures
        r.requires_prefix == spec_op_prefixed(op),
{
    match op {
        Op::AddHlLocationToA => Instruction {
            name: "ADD A, (HL)",
            pattern: "10 000 110",
            requires_prefix: false,
        },
        Op::AddImmediateEToSp => Instruction {
            name: "ADD SP, e",
            pattern: "11 101 000",
            requires_prefix: false,
        },
        Op::AddImmediateNToA => Instruction {
            name: "ADD A, n",
            pattern: "11 000 110",
            requires_prefix: false,
        },
        Op::AddRegisterPairToHl => Instruction {
            name: "ADD HL, ss",
            pattern: "00 ss1 001",
            requires_prefix: false,
        },
        Op::AddRegisterToA => Instruction {
            name: "ADD A, r",
            pattern: "10 000 rrr",
            requires_prefix: false,
        },
        Op::AddWithCarryHlLocationToA => Instruction {
            name: "ADC A, (HL)",
            pattern: "10 001 110",
            requires_prefix: false,
        },
        Op::AddWithCarryImmediateNToA => Instruction {
            name: "ADC A, n",
            pattern: "11 001 110",
            requires_prefix: false,
        },
        Op::AddWithCarryRegisterToA => Instruction {
            name: "ADC A, r",
            pattern: "10 001 rrr",
            requires_prefix: false,
        },
        Op::AndHlLocation => Instruction {
            name: "AND (HL)",
            pattern: "10 100 110",
            requires_prefix: false,
        },
        Op::AndImmediateN => Instruction {
            name: "AND n",
            pattern: "11 100 110",
            requires_prefix: false,
        },
        Op::AndRegister => Instruction {
            name: "AND r",
            pattern: "10 100 rrr",
            requires_prefix: false,
        },
        Op::BitComplementOfHlLocation => Instruction {
            name: "BIT b, (HL)",
            pattern: "01 bbb 110",
            requires_prefix: true,
        },
        Op::BitComplementOfRegister => Instruction {
            name: "BIT b, r",
            pattern: "01 bbb rrr",
            requires_prefix: true,
        },
        Op::Call => Instruction {
            name: "CALL nn",
            pattern: "11 001 101",
            requires_prefix: false,
        },
        Op::CallIfCondition => Instruction {
            name: "CALL cc, nn",
            pattern: "11 0cc 100",
            requires_prefix: false,
        },
        Op::CompareHlLocationWithA => Instruction {
            name: "CP (HL)",
            pattern: "10 111 110",
            requires_prefix: false,
        },
        Op::CompareImmediateNWithA => Instruction {
            name: "CP n",
            pattern: "11 111 110",
            requires_prefix: false,
        },
        Op::CompareRegisterWithA => Instruction {
            name: "CP r",
            pattern: "10 111 rrr",
            requires_prefix: false,
        },
        Op::ComplementA => Instruction {
            name: "CPL",
            pattern: "00 101 111",
            requires_prefix: false,
        },
        Op::DecHlLocation => Instruction {
            name: "DEC (HL)",
            pattern: "00 110 101",
            requires_prefix: false,
        },
        Op::DecRegister => Instruction {
            name: "DEC r",
            pattern: "00 rrr 101",
            requires_prefix: false,
        },
        Op::DecRegisterPair => Instruction {
            name: "DEC ss",
            pattern: "00 ss1 011",
            requires_prefix: false,
        },
        Op::DecimalAdjustA => Instruction {
            name: "DAA",
            pattern: "00 100 111",
            requires_prefix: false,
        },
        Op::Di => Instruction { name: "DI", pattern: "11 110 011", requires_prefix: false },
        Op::Ei => Instruction { name: "EI", pattern: "11 111 011", requires_prefix: false },
        Op::FlipCarry => Instruction {
            name: "CCF",
            pattern: "00 111 111",
            requires_prefix: false,
        },
        Op::Halt => Instruction { name: "HALT", pattern: "01 110 110", requires_prefix: false },
        Op::IncHlLocation => Instruction {
            name: "INC (HL)",
            pattern: "00 110 100",
            requires_prefix: false,
        },
        Op::IncRegister => Instruction {
            name: "INC r",
            pattern: "00 rrr 100",
            requires_prefix: false,
        },
        Op::IncRegisterPair => Instruction {
            name: "INC ss",
            pattern: "00 ss0 011",
            requires_prefix: false,
        },
        Op::JumpToHl => Instruction {
            name: "JP (HL)",
            pattern: "11 101 001",
            requires_prefix: false,
        },
        Op::JumpToImmediateE => Instruction {
            name: "JR e",
            pattern: "00 011 000",
            requires_prefix: false,
        },
        Op::JumpToImmediateEIfCondition => Instruction {
            name: "JR cc, e",
            pattern: "00 1cc 000",
            requires_prefix: false,
        },
        Op::JumpToImmediateNn => Instruction {
            name: "JP nn",
            pattern: "11 000 011",
            requires_prefix: false,
        },
        Op::JumpToImmediateNnIfCondition => Instruction {
            name: "JP cc, nn",
            pattern: "11 0cc 010",
            requires_prefix: false,
        },
        Op::LoadAIntoBcLocation => Instruction {
            name: "LD (BC), A",
            pattern: "00 000 010",
            requires_prefix: false,
        },
        Op::LoadAIntoCLocation => Instruction {
            name: "LD (C), A",
            pattern: "11 100 010",
            requires_prefix: false,
        },
        Op::LoadAIntoDeLocation => Instruction {
            name: "LD (DE), A",
            pattern: "00 010 010",
            requires_prefix: false,
        },
        Op::LoadAIntoHlLocationDec => Instruction {
            name: "LD (HLD), A",
            pattern: "00 110 010",
            requires_prefix: false,
        },
        Op::LoadAIntoHlLocationInc => Instruction {
            name: "LD (HLI), A",
            pattern: "00 100 010",
            requires_prefix: false,
        },
        Op::LoadAIntoImmediateNLocation => Instruction {
            name: "LD (n), A",
            pattern: "11 100 000",
            requires_prefix: false,
        },
        Op::LoadAIntoImmediateNnLocation => Instruction {
            name: "LD (nn), A",
            pattern: "11 101 010",
            requires_prefix: false,
        },
        Op::LoadBcLocationIntoA => Instruction {
            name: "LD A, (BC)",
            pattern: "00 001 010",
            requires_prefix: false,
        },
        Op::LoadCLocationIntoA => Instruction {
            name: "LD A, (C)",
            pattern: "11 110 010",
            requires_prefix: false,
        },
        Op::LoadDeLocationIntoA => Instruction {
            name: "LD A, (DE)",
            pattern: "00 011 010",
            requires_prefix: false,
        },
        Op::LoadHlIntoSp => Instruction {
            name: "LD SP, HL",
            pattern: "11 111 001",
            requires_prefix: false,
        },
        Op::LoadHlLocationDecIntoA => Instruction {
            name: "LD A, (HLD)",
            pattern: "00 111 010",
            requires_prefix: false,
        },
        Op::LoadHlLocationIncIntoA => Instruction {
            name: "LD A, (HLI)",
            pattern: "00 101 010",
            requires_prefix: false,
        },
        Op::LoadHlLocationIntoRegister => Instruction {
            name: "LD r, (HL)",
            pattern: "01 rrr 110",
            requires_prefix: false,
        },
        Op::LoadImmediateNIntoHlLocation => Instruction {
            name: "LD (HL), n",
            pattern: "00 110 110",
            requires_prefix: false,
        },
        Op::LoadImmediateNIntoRegister => Instruction {
            name: "LD r, n",
            pattern: "00 rrr 110",
            requires_prefix: false,
        },
        Op::LoadImmediateNLocationIntoA => Instruction {
            name: "LD A, (n)",
            pattern: "11 110 000",
            requires_prefix: false,
        },
        Op::LoadImmediateNnIntoRegisterPair => Instruction {
            name: "LD dd, nn",
            pattern: "00 ss0 001",
            requires_prefix: false,
        },
        Op::LoadImmediateNnLocationIntoA => Instruction {
            name: "LD A, (nn)",
            pattern: "11 111 010",
            requires_prefix: false,
        },
        Op::LoadRegisterIntoHlLocation => Instruction {
            name: "LD (HL), r",
            pattern: "01 110 rrr",
            requires_prefix: false,
        },
        Op::LoadRegisterIntoRegister => Instruction {
            name: "LD r, r",
            pattern: "01 rrr qqq",
            requires_prefix: false,
        },
        Op::LoadSpAndImmediateEIntoHl => Instruction {
            name: "LDHL SP, e",
            pattern: "11 111 000",
            requires_prefix: false,
        },
        Op::LoadSpIntoNnLocation => Instruction {
            name: "LD (nn), SP",
            pattern: "00 001 000",
            requires_prefix: false,
        },
        Op::Noop => Instruction { name: "NOP", pattern: "00 000 000", requires_prefix: false },
        Op::OrHlLocation => Instruction {
            name: "OR (HL)",
            pattern: "10 110 110",
            requires_prefix: false,
        },
        Op::OrImmediateN => Instruction {
            name: "OR n",
            pattern: "11 110 110",
            requires_prefix: false,
        },
        Op::OrRegister => Instruction {
            name: "OR r",
            pattern: "10 110 rrr",
            requires_prefix: false,
        },
        Op::PopRegisterPair => Instruction {
            name: "POP qq",
            pattern: "11 ss0 001",
            requires_prefix: false,
        },
        Op::Prefix => Instruction {
            name: "PREFIX",
            pattern: "11 001 011",
            requires_prefix: false,
        },
        Op::PushRegisterPair => Instruction {
            name: "PUSH qq",
            pattern: "11 ss0 101",
            requires_prefix: false,
        },
        Op::ResetBitOfHlLocation => Instruction {
            name: "RES b, (HL)",
            pattern: "10 bbb 110",
            requires_prefix: true,
        },
        Op::ResetBitOfRegister => Instruction {
            name: "RES b, r",
            pattern: "10 bbb rrr",
            requires_prefix: true,
        },
        Op::ResetToPage => Instruction {
            name: "RST t",
            pattern: "11 ttt 111",
            requires_prefix: false,
        },
        Op::Ret => Instruction { name: "RET", pattern: "11 001 001", requires_prefix: false },
        Op::RetIfCondition => Instruction {
            name: "RET cc",
            pattern: "11 0cc 000",
            requires_prefix: false,
        },
        Op::Reti => Instruction { name: "RETI", pattern: "11 011 001", requires_prefix: false },
        Op::RotateALeftCopyCarry => Instruction {
            name: "RLCA",
            pattern: "00 000 111",
            requires_prefix: false,
        },
        Op::RotateALeftThroughCarry => Instruction {
            name: "RLA",
            pattern: "00 010 111",
            requires_prefix: false,
        },
        Op::RotateARightCopyCarry => Instruction {
            name: "RRCA",
            pattern: "00 001 111",
            requires_prefix: false,
        },
        Op::RotateARightThroughCarry => Instruction {
            name: "RRA",
            pattern: "00 011 111",
            requires_prefix: false,
        },
        Op::RotateHlLocationLeftCopyCarry => Instruction {
            name: "RLC (HL)",
            pattern: "00 000 110",
            requires_prefix: true,
        },
        Op::RotateHlLocationLeftThroughCarry => Instruction {
            name: "RL (HL)",
            pattern: "00 010 110",
            requires_prefix: true,
        },
        Op::RotateHlLocationRightCopyCarry => Instruction {
            name: "RRC (HL)",
            pattern: "00 001 110",
            requires_prefix: true,
        },
        Op::RotateHlLocationRightThroughCarry => Instruction {
            name: "RR (HL)",
            pattern: "00 011 110",
            requires_prefix: true,
        },
        Op::RotateRegisterLeftCopyCarry => Instruction {
            name: "RLC r",
            pattern: "00 000 rrr",
            requires_prefix: true,
        },
        Op::RotateRegisterLeftThroughCarry => Instruction {
            name: "RL r",
            pattern: "00 010 rrr",
            requires_prefix: true,
        },
        Op::RotateRegisterRightCopyCarry => Instruction {
            name: "RRC r",
            pattern: "00 001 rrr",
            requires_prefix: true,
        },
        Op::RotateRegisterRightThroughCarry => Instruction {
            name: "RR r",
            pattern: "00 011 rrr",
            requires_prefix: true,
        },
        Op::SetBitOfHlLocation => Instruction {
            name: "SET b, (HL)",
            pattern: "11 bbb 110",
            requires_prefix: true,
        },
        Op::SetBitOfRegister => Instruction {
            name: "SET b, r",
            pattern: "11 bbb rrr",
            requires_prefix: true,
        },
        Op::SetCarry => Instruction {
            name: "SCF",
            pattern: "00 110 111",
            requires_prefix: false,
        },
        Op::ShiftHlLocationLeft => Instruction {
            name: "SLA (HL)",
            pattern: "00 100 110",
            requires_prefix: true,
        },
        Op::ShiftHlLocationRight => Instruction {
            name: "SRL (HL)",
            pattern: "00 111 110",
            requires_prefix: true,
        },
        Op::ShiftHlLocationRightCopyBit => Instruction {
            name: "SRA (HL)",
            pattern: "00 101 110",
            requires_prefix: true,
        },
        Op::ShiftRegisterLeft => Instruction {
            name: "SLA r",
            pattern: "00 100 rrr",
            requires_prefix: true,
        },
        Op::ShiftRegisterRight => Instruction {
            name: "SRL r",
            pattern: "00 111 rrr",
            requires_prefix: true,
        },
        Op::ShiftRegisterRightCopyBit => Instruction {
            name: "SRA r",
            pattern: "00 101 rrr",
            requires_prefix: true,
        },
        Op::Stop => Instruction { name: "STOP", pattern: "00 010 000", requires_prefix: false },
        Op::SubHlLocationFromA => Instruction {
            name: "SUB A, (HL)",
            pattern: "10 010 110",
            requires_prefix: false,
        },
        Op::SubImmediateNFromA => Instruction {
            name: "SUB A, n",
            pattern: "11 010 110",
            requires_prefix: false,
        },
        Op::SubRegisterFromA => Instruction {
            name: "SUB A, r",
            pattern: "10 010 rrr",
            requires_prefix: false,
        },
        Op::SubWithCarryHlLocationFromA => Instruction {
            name: "SBC A, (HL)",
            pattern: "10 011 110",
            requires_prefix: false,
        },
        Op::SubWithCarryImmediateNFromA => Instruction {
            name: "SBC A, n",
            pattern: "11 011 110",
            requires_prefix: false,
        },
        Op::SubWithCarryRegisterFromA => Instruction {
            name: "SBC A, r",
            pattern: "10 011 rrr",
            requires_prefix: false,
        },
        Op::SwapBitsOfHlLocation => Instruction {
            name: "SWAP (HL)",
            pattern: "00 110 110",
            requires_prefix: true,
        },
        Op::SwapBitsOfRegister => Instruction {
            name: "SWAP r",
            pattern: "00 110 rrr",
            requires_prefix: true,
        },
        Op::XorHlLocation => Instruction {
            name: "XOR (HL)",
            pattern: "10 101 110",
            requires_prefix: false,
        },
        Op::XorImmediateN => Instruction {
            name: "XOR n",
            pattern: "11 101 110",
            requires_prefix: false,
        },
        Op::XorRegister => Instruction {
            name: "XOR r",
            pattern: "10 101 rrr",
            requires_prefix: false,
        },
    }
}

} // verus!
