//! Per-family instruction tests through the dispatcher: the subtract
//! family, the logical family's flag policy, the jump family in both
//! directions, the bit family, the general family, the M-cycle cost of
//! representative opcodes, the latch behaviour on a failed fetch, and the
//! agreement of every instruction record with the decode tables.

use emulation::addresses::PROGRAM_COUNTER_START;
use emulation::{
    decode, instruction_info, BusComponent, Emulator, Flag, OpcodePattern, RamComponent, Register,
};

/// Builds the default emulator with the given bytes mapped through a RAM
/// block.
fn emulator_with_memory(entries: &[(u16, u8)]) -> Emulator {
    let mut emulator = Emulator::default();

    let mut ram = RamComponent::new();

    for &(location, value) in entries {
        ram.insert(location, value);
    }

    emulator.add_memory_component(BusComponent::Ram(ram));

    emulator
}

fn assert_sub_flags(emulator: &Emulator, cy: bool, h: bool, z: bool) {
    assert_eq!(emulator.flag(Flag::CY), cy);
    assert_eq!(emulator.flag(Flag::H), h);
    assert_eq!(emulator.flag(Flag::N), true);
    assert_eq!(emulator.flag(Flag::Z), z);
}

#[test]
fn sub_instruction_tests_simple() {
    // SUB A, (HL)
    let mut emulator = emulator_with_memory(&[(PROGRAM_COUNTER_START, 0x96), (0x0203, 0x01)]);

    emulator.set_a(0x03);
    emulator.set_register(Register::H, 0x02);
    emulator.set_register(Register::L, 0x03);

    emulator.process_opcode().unwrap();

    assert_eq!(emulator.a(), 0x02);
    assert_sub_flags(&emulator, false, false, false);

    // SUB A, n
    let mut emulator = emulator_with_memory(&[
        (PROGRAM_COUNTER_START, 0xd6),
        (PROGRAM_COUNTER_START + 1, 0x01),
    ]);

    emulator.set_a(0x03);

    emulator.process_opcode().unwrap();

    assert_eq!(emulator.a(), 0x02);
    assert_sub_flags(&emulator, false, false, false);

    // SUB A, B
    let mut emulator = emulator_with_memory(&[(PROGRAM_COUNTER_START, 0x90)]);

    emulator.set_a(0x03);
    emulator.set_register(Register::B, 0x01);

    emulator.process_opcode().unwrap();

    assert_eq!(emulator.a(), 0x02);
    assert_sub_flags(&emulator, false, false, false);
}

#[test]
fn sub_instruction_tests_with_carry() {
    // SUB A, n borrowing out of bit 7
    let mut emulator = emulator_with_memory(&[
        (PROGRAM_COUNTER_START, 0xd6),
        (PROGRAM_COUNTER_START + 1, 0xf0),
    ]);

    emulator.set_a(0xe0);

    emulator.process_opcode().unwrap();

    assert_eq!(emulator.a(), 0xf0);
    assert_sub_flags(&emulator, true, false, false);

    // SBC A, n folding in the incoming borrow
    let mut emulator = emulator_with_memory(&[
        (PROGRAM_COUNTER_START, 0xde),
        (PROGRAM_COUNTER_START + 1, 0x02),
    ]);

    emulator.set_a(0x05);
    emulator.set_flag(Flag::CY, true);

    emulator.process_opcode().unwrap();

    assert_eq!(emulator.a(), 0x02);
    assert_sub_flags(&emulator, false, false, false);
}

#[test]
fn sub_instruction_tests_with_half_borrow() {
    let mut emulator = emulator_with_memory(&[
        (PROGRAM_COUNTER_START, 0xd6),
        (PROGRAM_COUNTER_START + 1, 0x0f),
    ]);

    emulator.set_a(0x1e);

    emulator.process_opcode().unwrap();

    assert_eq!(emulator.a(), 0x0f);
    assert_sub_flags(&emulator, false, true, false);
}

#[test]
fn sub_instruction_tests_zeroed() {
    // CP A, n on equal operands sets Z and leaves A alone.
    let mut emulator = emulator_with_memory(&[
        (PROGRAM_COUNTER_START, 0xfe),
        (PROGRAM_COUNTER_START + 1, 0x42),
    ]);

    emulator.set_a(0x42);

    emulator.process_opcode().unwrap();

    assert_eq!(emulator.a(), 0x42);
    assert_sub_flags(&emulator, false, false, true);

    // SUB A, A zeroes the accumulator.
    let mut emulator = emulator_with_memory(&[(PROGRAM_COUNTER_START, 0x97)]);

    emulator.set_a(0x42);

    emulator.process_opcode().unwrap();

    assert_eq!(emulator.a(), 0x00);
    assert_sub_flags(&emulator, false, false, true);
}

#[test]
fn arithmetic_instruction_tests_cycles() {
    // ADD A, r: the fetch only.
    let mut emulator = emulator_with_memory(&[(PROGRAM_COUNTER_START, 0x80)]);

    emulator.process_opcode().unwrap();

    assert_eq!(emulator.cycles(), 1);

    // INC (HL): fetch, read, write.
    let mut emulator = emulator_with_memory(&[(PROGRAM_COUNTER_START, 0x34), (0x0203, 0x00)]);

    emulator.set_register(Register::H, 0x02);
    emulator.set_register(Register::L, 0x03);

    emulator.process_opcode().unwrap();

    assert_eq!(emulator.cycles(), 3);
    assert_eq!(emulator.memory_location(0x0203).unwrap(), 0x01);
}

#[test]
fn logical_instruction_tests_simple() {
    // AND n, OR n and XOR n through the dispatcher.
    let cases: [(u8, u8, u8, u8); 3] = [
        (0xe6, 0b1100, 0b1010, 0b1000),
        (0xf6, 0b1100, 0b1010, 0b1110),
        (0xee, 0b1100, 0b1010, 0b0110),
    ];

    for (opcode, a, n, expected) in cases {
        let mut emulator = emulator_with_memory(&[
            (PROGRAM_COUNTER_START, opcode),
            (PROGRAM_COUNTER_START + 1, n),
        ]);

        emulator.set_a(a);

        emulator.process_opcode().unwrap();

        assert_eq!(emulator.a(), expected);
        assert_eq!(emulator.flag(Flag::N), false);
        assert_eq!(emulator.flag(Flag::CY), false);
        assert_eq!(emulator.flag(Flag::Z), false);
    }
}

#[test]
fn logical_instruction_tests_zeroed() {
    // XOR A, A always zeroes the accumulator and sets Z.
    let mut emulator = emulator_with_memory(&[(PROGRAM_COUNTER_START, 0xaf)]);

    emulator.set_a(0x5a);

    emulator.process_opcode().unwrap();

    assert_eq!(emulator.a(), 0x00);
    assert_eq!(emulator.flag(Flag::Z), true);

    // AND n against disjoint bits.
    let mut emulator = emulator_with_memory(&[
        (PROGRAM_COUNTER_START, 0xe6),
        (PROGRAM_COUNTER_START + 1, 0b0101),
    ]);

    emulator.set_a(0b1010);

    emulator.process_opcode().unwrap();

    assert_eq!(emulator.a(), 0x00);
    assert_eq!(emulator.flag(Flag::Z), true);
    assert_eq!(emulator.flag(Flag::H), true);
}

#[test]
fn logical_instruction_tests_cycles() {
    let mut emulator = emulator_with_memory(&[(PROGRAM_COUNTER_START, 0xa0)]);

    emulator.process_opcode().unwrap();

    assert_eq!(emulator.cycles(), 1);

    let mut emulator = emulator_with_memory(&[
        (PROGRAM_COUNTER_START, 0xe6),
        (PROGRAM_COUNTER_START + 1, 0xff),
    ]);

    emulator.process_opcode().unwrap();

    assert_eq!(emulator.cycles(), 2);

    let mut emulator = emulator_with_memory(&[(PROGRAM_COUNTER_START, 0xa6), (0x0203, 0xff)]);

    emulator.set_register(Register::H, 0x02);
    emulator.set_register(Register::L, 0x03);

    emulator.process_opcode().unwrap();

    assert_eq!(emulator.cycles(), 2);
}

#[test]
fn jump_instruction_tests_simple() {
    // JP nn loads the target and records the jump.
    let mut emulator = emulator_with_memory(&[
        (PROGRAM_COUNTER_START, 0xc3),
        (PROGRAM_COUNTER_START + 1, 0x00),
        (PROGRAM_COUNTER_START + 2, 0x02),
    ]);

    emulator.process_opcode().unwrap();

    assert_eq!(emulator.program_counter(), 0x0200);
    assert_eq!(emulator.cycles(), 4);

    // JP (HL) jumps to HL itself.
    let mut emulator = emulator_with_memory(&[(PROGRAM_COUNTER_START, 0xe9)]);

    emulator.set_register(Register::H, 0x03);
    emulator.set_register(Register::L, 0x21);

    emulator.process_opcode().unwrap();

    assert_eq!(emulator.program_counter(), 0x0321);
}

#[test]
fn jump_instruction_tests_negative() {
    // JR -3 from the byte after the operand.
    let mut emulator = emulator_with_memory(&[
        (PROGRAM_COUNTER_START, 0x18),
        (PROGRAM_COUNTER_START + 1, 0xfd),
    ]);

    emulator.process_opcode().unwrap();

    assert_eq!(emulator.program_counter(), PROGRAM_COUNTER_START - 1);
}

#[test]
fn jump_instruction_tests_positive() {
    // JR +5 from the byte after the operand.
    let mut emulator = emulator_with_memory(&[
        (PROGRAM_COUNTER_START, 0x18),
        (PROGRAM_COUNTER_START + 1, 0x05),
    ]);

    emulator.process_opcode().unwrap();

    assert_eq!(emulator.program_counter(), PROGRAM_COUNTER_START + 7);
}

#[test]
fn jump_instruction_tests_cycles() {
    // A taken relative branch pays the program-counter load.
    let mut emulator = emulator_with_memory(&[
        (PROGRAM_COUNTER_START, 0x18),
        (PROGRAM_COUNTER_START + 1, 0x05),
    ]);

    emulator.process_opcode().unwrap();

    assert_eq!(emulator.cycles(), 3);

    // An untaken conditional one does not.
    let mut emulator = emulator_with_memory(&[
        (PROGRAM_COUNTER_START, 0x28),
        (PROGRAM_COUNTER_START + 1, 0x05),
    ]);

    emulator.process_opcode().unwrap();

    assert_eq!(emulator.cycles(), 2);
    assert_eq!(emulator.program_counter(), PROGRAM_COUNTER_START + 2);
}

#[test]
fn bit_instruction_tests_simple() {
    // SET 0, B then RES 0, B round-trips the bit; BIT 0, B observes it.
    let mut emulator = emulator_with_memory(&[
        (PROGRAM_COUNTER_START, 0xcb),
        (PROGRAM_COUNTER_START + 1, 0xc0),
        (PROGRAM_COUNTER_START + 2, 0xcb),
        (PROGRAM_COUNTER_START + 3, 0x40),
        (PROGRAM_COUNTER_START + 4, 0xcb),
        (PROGRAM_COUNTER_START + 5, 0x80),
    ]);

    emulator.process_opcode().unwrap();
    emulator.process_opcode().unwrap();

    assert_eq!(emulator.register(&Register::B), 0x01);

    emulator.process_opcode().unwrap();
    emulator.process_opcode().unwrap();

    assert_eq!(emulator.flag(Flag::Z), false);
    assert_eq!(emulator.flag(Flag::H), true);
    assert_eq!(emulator.flag(Flag::N), false);

    emulator.process_opcode().unwrap();
    emulator.process_opcode().unwrap();

    assert_eq!(emulator.register(&Register::B), 0x00);
}

#[test]
fn bit_instruction_tests_cycles() {
    // BIT 0, B: prefix fetch plus opcode fetch.
    let mut emulator = emulator_with_memory(&[
        (PROGRAM_COUNTER_START, 0xcb),
        (PROGRAM_COUNTER_START + 1, 0x40),
    ]);

    emulator.process_opcode().unwrap();
    emulator.process_opcode().unwrap();

    assert_eq!(emulator.cycles(), 2);

    // SET 0, (HL): prefix fetch, opcode fetch, read, write.
    let mut emulator = emulator_with_memory(&[
        (PROGRAM_COUNTER_START, 0xcb),
        (PROGRAM_COUNTER_START + 1, 0xc6),
        (0x0203, 0x00),
    ]);

    emulator.set_register(Register::H, 0x02);
    emulator.set_register(Register::L, 0x03);

    emulator.process_opcode().unwrap();
    emulator.process_opcode().unwrap();

    assert_eq!(emulator.cycles(), 4);
    assert_eq!(emulator.memory_location(0x0203).unwrap(), 0x01);
}

#[test]
fn general_instruction_tests_simple() {
    // NOP leaves everything but the fetch alone; DI and EI drive the
    // interrupt latch; SCF and CCF drive CY and clear N and H.
    let mut emulator = emulator_with_memory(&[
        (PROGRAM_COUNTER_START, 0x00),
        (PROGRAM_COUNTER_START + 1, 0xfb),
        (PROGRAM_COUNTER_START + 2, 0xf3),
        (PROGRAM_COUNTER_START + 3, 0x37),
        (PROGRAM_COUNTER_START + 4, 0x3f),
    ]);

    emulator.process_opcode().unwrap();

    assert_eq!(emulator.program_counter(), PROGRAM_COUNTER_START + 1);
    assert_eq!(emulator.a(), 0x00);

    emulator.process_opcode().unwrap();

    assert!(emulator.interrupt_master_enable());

    emulator.process_opcode().unwrap();

    assert!(!emulator.interrupt_master_enable());

    emulator.set_flag(Flag::N, true);
    emulator.set_flag(Flag::H, true);

    emulator.process_opcode().unwrap();

    assert_eq!(emulator.flag(Flag::CY), true);
    assert_eq!(emulator.flag(Flag::N), false);
    assert_eq!(emulator.flag(Flag::H), false);

    emulator.process_opcode().unwrap();

    assert_eq!(emulator.flag(Flag::CY), false);
}

#[test]
fn general_instruction_tests_cycles() {
    let mut emulator = emulator_with_memory(&[(PROGRAM_COUNTER_START, 0x00)]);

    emulator.process_opcode().unwrap();

    assert_eq!(emulator.cycles(), 1);

    // DAA is the fetch only.
    let mut emulator = emulator_with_memory(&[(PROGRAM_COUNTER_START, 0x27)]);

    emulator.process_opcode().unwrap();

    assert_eq!(emulator.cycles(), 1);
}

#[test]
fn prefix_latch_cleared_on_failed_fetch() {
    // A CB prefix whose following fetch lands on unmapped memory: the
    // latch is consumed before the read, so the retried fetch resolves
    // against the unprefixed table again.
    let mut emulator = emulator_with_memory(&[(PROGRAM_COUNTER_START, 0xcb)]);

    emulator.process_opcode().unwrap();

    assert!(emulator.prefixed());

    assert!(emulator.process_opcode().is_err());

    assert!(!emulator.prefixed());
}

#[test]
fn instruction_info_matches_tables() {
    // Every instruction record agrees with the decode tables: the prefix
    // flag names the table the kind lives in, and the pattern admits
    // exactly the bytes that table maps to the kind.
    for prefixed in [false, true] {
        let mut groups: Vec<(emulation::Op, Vec<u8>)> = Vec::new();

        for byte in 0..=0xffu8 {
            if let Some(op) = decode(prefixed, byte) {
                match groups.iter_mut().find(|(existing, _)| *existing == op) {
                    Some((_, bytes)) => bytes.push(byte),
                    None => groups.push((op, vec![byte])),
                }
            }
        }

        for (op, mut bytes) in groups {
            let info = instruction_info(op);

            assert_eq!(info.requires_prefix, prefixed, "prefix flag for {:?}", op);

            bytes.sort();

            let mut admitted = info.pattern.opcodes();

            admitted.sort();

            assert_eq!(bytes, admitted, "pattern bytes for {:?}", op);
        }
    }
}
