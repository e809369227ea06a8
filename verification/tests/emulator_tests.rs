//! End-to-end tests of the fetch-decode-execute step: the arithmetic
//! family through the dispatcher, the boundary behaviors of the ALU, the
//! round-trip and idempotence properties on concrete values, the decode
//! tables, the error surface and the run-mode state machine.

use emulation::addresses::PROGRAM_COUNTER_START;
use emulation::instruction::arithmetic_instructions::add_register_to_a;
use emulation::template;
use emulation::{
    decode, unimplemented_opcodes, BusComponent, EmulationState, Emulator, Flag, MemoryComponent,
    MemoryError, Opcode, OpError, RamComponent, Register, RegisterPair, UnimplementedMemory,
};

/// Builds the default emulator with the given bytes mapped through a RAM
/// block, program bytes starting at the power-on program counter.
fn emulator_with_memory(entries: &[(u16, u8)]) -> Emulator {
    let mut emulator = Emulator::default();

    let mut ram = RamComponent::new();

    for &(location, value) in entries {
        ram.insert(location, value);
    }

    emulator.add_memory_component(BusComponent::Ram(ram));

    emulator
}

fn assert_add_flags(emulator: &Emulator, cy: bool, h: bool, z: bool) {
    assert_eq!(emulator.flag(Flag::CY), cy);
    assert_eq!(emulator.flag(Flag::H), h);
    assert_eq!(emulator.flag(Flag::N), false);
    assert_eq!(emulator.flag(Flag::Z), z);
}

#[test]
fn arithmetic_instruction_tests_simple() {
    // ADD A, (HL)
    let mut emulator = emulator_with_memory(&[(PROGRAM_COUNTER_START, 0x86), (0x0203, 0x01)]);

    emulator.set_a(0x02);
    emulator.set_register(Register::H, 0x02);
    emulator.set_register(Register::L, 0x03);

    emulator.process_opcode().unwrap();

    assert_eq!(emulator.a(), 0x03);
    assert_eq!(emulator.cycles(), 2);
    assert_add_flags(&emulator, false, false, false);

    // ADD A, n
    let mut emulator = emulator_with_memory(&[
        (PROGRAM_COUNTER_START, 0xc6),
        (PROGRAM_COUNTER_START + 1, 0x01),
    ]);

    emulator.set_a(0x02);

    emulator.process_opcode().unwrap();

    assert_eq!(emulator.a(), 0x03);
    assert_eq!(emulator.cycles(), 2);
    assert_add_flags(&emulator, false, false, false);

    // ADC A, n without an incoming carry
    let mut emulator = emulator_with_memory(&[
        (PROGRAM_COUNTER_START, 0xce),
        (PROGRAM_COUNTER_START + 1, 0x01),
    ]);

    emulator.set_a(0x02);

    emulator.process_opcode().unwrap();

    assert_eq!(emulator.a(), 0x03);
    assert_add_flags(&emulator, false, false, false);
}

#[test]
fn arithmetic_instruction_tests_with_carry() {
    let mut emulator = emulator_with_memory(&[(PROGRAM_COUNTER_START, 0x86), (0x0203, 0x11)]);

    emulator.set_a(0xf0);
    emulator.set_register(Register::H, 0x02);
    emulator.set_register(Register::L, 0x03);

    emulator.process_opcode().unwrap();

    assert_eq!(emulator.a(), 0x01);
    assert_add_flags(&emulator, true, false, false);

    // ADC A, n with the incoming carry folded in
    let mut emulator = emulator_with_memory(&[
        (PROGRAM_COUNTER_START, 0xce),
        (PROGRAM_COUNTER_START + 1, 0x10),
    ]);

    emulator.set_a(0xf0);
    emulator.set_flag(Flag::CY, true);

    emulator.process_opcode().unwrap();

    assert_eq!(emulator.a(), 0x01);
    assert_eq!(emulator.flag(Flag::CY), true);
    assert_eq!(emulator.flag(Flag::Z), false);
}

#[test]
fn arithmetic_instruction_tests_with_half_carry() {
    let mut emulator = emulator_with_memory(&[(PROGRAM_COUNTER_START, 0x86), (0x0203, 0x01)]);

    emulator.set_a(0x0f);
    emulator.set_register(Register::H, 0x02);
    emulator.set_register(Register::L, 0x03);

    emulator.process_opcode().unwrap();

    assert_eq!(emulator.a(), 0x10);
    assert_add_flags(&emulator, false, true, false);

    let mut emulator = emulator_with_memory(&[
        (PROGRAM_COUNTER_START, 0xce),
        (PROGRAM_COUNTER_START + 1, 0x00),
    ]);

    emulator.set_a(0x0f);
    emulator.set_flag(Flag::CY, true);

    emulator.process_opcode().unwrap();

    assert_eq!(emulator.a(), 0x10);
    assert_eq!(emulator.flag(Flag::H), true);
}

#[test]
fn arithmetic_instruction_tests_zeroed() {
    let mut emulator = emulator_with_memory(&[(PROGRAM_COUNTER_START, 0x86), (0x0203, 0x00)]);

    emulator.set_a(0x00);
    emulator.set_register(Register::H, 0x02);
    emulator.set_register(Register::L, 0x03);

    emulator.process_opcode().unwrap();

    assert_eq!(emulator.a(), 0x00);
    assert_add_flags(&emulator, false, false, true);

    let mut emulator = emulator_with_memory(&[
        (PROGRAM_COUNTER_START, 0xc6),
        (PROGRAM_COUNTER_START + 1, 0x00),
    ]);

    emulator.set_a(0x00);

    emulator.process_opcode().unwrap();

    assert_eq!(emulator.a(), 0x00);
    assert_add_flags(&emulator, false, false, true);
}

#[test]
fn arithmetic_instructions_operation() {
    // ADD A, (HL)
    let mut emulator = emulator_with_memory(&[(PROGRAM_COUNTER_START, 0x86), (0x0203, 0x04)]);

    emulator.set_a(0x01);
    emulator.set_register(Register::H, 0x02);
    emulator.set_register(Register::L, 0x03);

    emulator.process_opcode().unwrap();

    assert_eq!(emulator.a(), 0x05);

    // ADD A, n
    let mut emulator = emulator_with_memory(&[
        (PROGRAM_COUNTER_START, 0xc6),
        (PROGRAM_COUNTER_START + 1, 0x03),
    ]);

    emulator.set_a(0x01);

    emulator.process_opcode().unwrap();

    assert_eq!(emulator.a(), 0x04);

    // ADD A, r, on each register variation
    for opcode in template::Opcode::new("10 000 rrr").variations.iter().copied() {
        let source = opcode.parse_register(0b00000111).unwrap();

        let mut emulator = Emulator::default();

        emulator.set_register(Register::A, 1);
        emulator.set_register(Register::B, 1);
        emulator.set_register(Register::C, 2);
        emulator.set_register(Register::D, 3);
        emulator.set_register(Register::E, 4);
        emulator.set_register(Register::H, 6);
        emulator.set_register(Register::L, 7);

        add_register_to_a(&mut emulator, opcode).unwrap();

        let expected = if source == Register::A {
            2
        } else {
            emulator.register(&source) + 1
        };

        assert_eq!(emulator.register(&Register::A), expected);
        assert_eq!(emulator.flag(Flag::CY), false);
        assert_eq!(emulator.flag(Flag::H), false);
        assert_eq!(emulator.flag(Flag::N), false);
        assert_eq!(emulator.flag(Flag::Z), false);
    }
}

#[test]
fn arithmetic_instructions_variations() {
    assert_eq!(template::Opcode::new("10 000 110").len(), 1);
    assert_eq!(template::Opcode::new("11 000 110").len(), 1);
    assert_eq!(template::Opcode::new("10 000 rrr").len(), 7);
}

#[test]
fn read() {
    let unimplemented_memory = UnimplementedMemory::new();

    let location = 0x0000u16;

    match unimplemented_memory.read(location) {
        Err(MemoryError::ReadError(actual_location, actual_message)) => {
            assert_eq!(actual_location, location);
            assert_eq!(actual_message, "unimplemented");
        },
        _ => panic!("invalid state"),
    };
}

#[test]
fn write() {
    let mut unimplemented_memory = UnimplementedMemory::new();

    let location = 0x0000u16;
    let value = 0x01u8;

    match unimplemented_memory.write(location, value) {
        Err(MemoryError::WriteError(actual_location, actual_value, actual_message)) => {
            assert_eq!(actual_location, location);
            assert_eq!(actual_value, value);
            assert_eq!(actual_message, "unimplemented");
        },
        _ => panic!("invalid state"),
    };
}

#[test]
fn add_boundary_carry() {
    // ADD A, n on 0xFF + 0x01
    let mut emulator = emulator_with_memory(&[
        (PROGRAM_COUNTER_START, 0xc6),
        (PROGRAM_COUNTER_START + 1, 0x01),
    ]);

    emulator.set_a(0xff);

    emulator.process_opcode().unwrap();

    assert_eq!(emulator.a(), 0x00);
    assert_eq!(emulator.flag(Flag::Z), true);
    assert_eq!(emulator.flag(Flag::CY), true);
    assert_eq!(emulator.flag(Flag::H), true);
    assert_eq!(emulator.flag(Flag::N), false);
}

#[test]
fn sub_boundary_borrow() {
    // SUB A, n on 0x00 - 0x01
    let mut emulator = emulator_with_memory(&[
        (PROGRAM_COUNTER_START, 0xd6),
        (PROGRAM_COUNTER_START + 1, 0x01),
    ]);

    emulator.set_a(0x00);

    emulator.process_opcode().unwrap();

    assert_eq!(emulator.a(), 0xff);
    assert_eq!(emulator.flag(Flag::Z), false);
    assert_eq!(emulator.flag(Flag::CY), true);
    assert_eq!(emulator.flag(Flag::H), true);
    assert_eq!(emulator.flag(Flag::N), true);
}

#[test]
fn inc_wraps_to_zero() {
    // INC A on 0xFF; CY is untouched.
    let mut emulator = emulator_with_memory(&[(PROGRAM_COUNTER_START, 0x3c)]);

    emulator.set_a(0xff);
    emulator.set_flag(Flag::CY, true);

    emulator.process_opcode().unwrap();

    assert_eq!(emulator.a(), 0x00);
    assert_eq!(emulator.flag(Flag::Z), true);
    assert_eq!(emulator.flag(Flag::H), true);
    assert_eq!(emulator.flag(Flag::N), false);
    assert_eq!(emulator.flag(Flag::CY), true);
}

#[test]
fn dec_wraps_to_ff() {
    // DEC A on 0x00; CY is untouched.
    let mut emulator = emulator_with_memory(&[(PROGRAM_COUNTER_START, 0x3d)]);

    emulator.set_a(0x00);

    emulator.process_opcode().unwrap();

    assert_eq!(emulator.a(), 0xff);
    assert_eq!(emulator.flag(Flag::Z), false);
    assert_eq!(emulator.flag(Flag::H), true);
    assert_eq!(emulator.flag(Flag::N), true);
    assert_eq!(emulator.flag(Flag::CY), false);
}

#[test]
fn jr_minus_two_loops() {
    // JR -2 lands back on the JR opcode itself.
    let mut emulator = emulator_with_memory(&[
        (PROGRAM_COUNTER_START, 0x18),
        (PROGRAM_COUNTER_START + 1, 0xfe),
    ]);

    emulator.process_opcode().unwrap();

    assert_eq!(emulator.program_counter(), PROGRAM_COUNTER_START);
    assert_eq!(emulator.cycles(), 3);
}

#[test]
fn add_sp_signed_overflow() {
    // ADD SP, 0x08 on SP = 0xFFF8
    let mut emulator = emulator_with_memory(&[
        (PROGRAM_COUNTER_START, 0xe8),
        (PROGRAM_COUNTER_START + 1, 0x08),
    ]);

    emulator.set_stack_pointer(0xfff8);

    emulator.process_opcode().unwrap();

    assert_eq!(emulator.stack_pointer(), 0x0000);
    assert_eq!(emulator.flag(Flag::CY), true);
    assert_eq!(emulator.flag(Flag::H), true);
    assert_eq!(emulator.flag(Flag::Z), false);
    assert_eq!(emulator.flag(Flag::N), false);
    assert_eq!(emulator.cycles(), 4);
}

#[test]
fn register_to_register_load() {
    // LD A, B with A = 0x00 and B = 0x42
    let mut emulator = emulator_with_memory(&[(PROGRAM_COUNTER_START, 0x78)]);

    emulator.set_register(Register::B, 0x42);

    emulator.process_opcode().unwrap();

    assert_eq!(emulator.a(), 0x42);
    assert_eq!(emulator.register(&Register::B), 0x42);
    assert_eq!(emulator.cycles(), 1);
    assert_eq!(emulator.program_counter(), PROGRAM_COUNTER_START + 1);
    assert_eq!(emulator.flag(Flag::Z), false);
    assert_eq!(emulator.flag(Flag::N), false);
    assert_eq!(emulator.flag(Flag::H), false);
    assert_eq!(emulator.flag(Flag::CY), false);
}

#[test]
fn adc_with_incoming_carry() {
    // ADC A, 0x01 with A = 0x0F and CY set
    let mut emulator = emulator_with_memory(&[
        (PROGRAM_COUNTER_START, 0xce),
        (PROGRAM_COUNTER_START + 1, 0x01),
    ]);

    emulator.set_a(0x0f);
    emulator.set_flag(Flag::CY, true);

    emulator.process_opcode().unwrap();

    assert_eq!(emulator.a(), 0x11);
    assert_eq!(emulator.flag(Flag::Z), false);
    assert_eq!(emulator.flag(Flag::N), false);
    assert_eq!(emulator.flag(Flag::H), true);
    assert_eq!(emulator.flag(Flag::CY), false);
    assert_eq!(emulator.cycles(), 2);
}

#[test]
fn jr_nz_not_taken() {
    // JR NZ, +5 with Z set: the operand is consumed, no jump fires.
    let mut emulator = emulator_with_memory(&[
        (PROGRAM_COUNTER_START, 0x20),
        (PROGRAM_COUNTER_START + 1, 0x05),
    ]);

    emulator.set_flag(Flag::Z, true);

    emulator.process_opcode().unwrap();

    assert_eq!(emulator.program_counter(), 0x0102);
    assert_eq!(emulator.cycles(), 2);
}

#[test]
fn call_then_ret() {
    // CALL 0x0200 at 0x0150, RET at 0x0200.
    let mut emulator = emulator_with_memory(&[
        (0x0150, 0xcd),
        (0x0151, 0x00),
        (0x0152, 0x02),
        (0x0200, 0xc9),
    ]);

    emulator.set_stack_pointer(0xfffe);
    emulator.jump_to(0x0150);
    emulator.process_cycles();

    emulator.process_opcode().unwrap();

    assert_eq!(emulator.program_counter(), 0x0200);
    assert_eq!(emulator.stack_pointer(), 0xfffc);
    assert_eq!(emulator.memory_location(0xfffc).unwrap(), 0x53);
    assert_eq!(emulator.memory_location(0xfffd).unwrap(), 0x01);
    assert_eq!(emulator.cycles(), 6);

    emulator.process_opcode().unwrap();

    assert_eq!(emulator.program_counter(), 0x0153);
    assert_eq!(emulator.stack_pointer(), 0xfffe);
}

#[test]
fn bit_seven_of_h() {
    // CB 0x7C: BIT 7, H with H = 0x80; CY is untouched.
    let mut emulator = emulator_with_memory(&[
        (PROGRAM_COUNTER_START, 0xcb),
        (PROGRAM_COUNTER_START + 1, 0x7c),
    ]);

    emulator.set_register(Register::H, 0x80);
    emulator.set_flag(Flag::CY, true);

    emulator.process_opcode().unwrap();

    assert!(emulator.prefixed());

    emulator.process_opcode().unwrap();

    assert_eq!(emulator.flag(Flag::Z), false);
    assert_eq!(emulator.flag(Flag::N), false);
    assert_eq!(emulator.flag(Flag::H), true);
    assert_eq!(emulator.flag(Flag::CY), true);
    assert!(!emulator.prefixed());
}

#[test]
fn daa_after_bcd_add() {
    // ADD A, 0x38 on A = 0x45, then DAA.
    let mut emulator = emulator_with_memory(&[
        (PROGRAM_COUNTER_START, 0xc6),
        (PROGRAM_COUNTER_START + 1, 0x38),
        (PROGRAM_COUNTER_START + 2, 0x27),
    ]);

    emulator.set_a(0x45);

    emulator.process_opcode().unwrap();

    assert_eq!(emulator.a(), 0x7d);
    assert_eq!(emulator.flag(Flag::N), false);
    assert_eq!(emulator.flag(Flag::H), false);
    assert_eq!(emulator.flag(Flag::CY), false);

    emulator.process_opcode().unwrap();

    assert_eq!(emulator.a(), 0x83);
    assert_eq!(emulator.flag(Flag::N), false);
    assert_eq!(emulator.flag(Flag::H), false);
    assert_eq!(emulator.flag(Flag::CY), false);
    assert_eq!(emulator.flag(Flag::Z), false);
}

#[test]
fn push_pop_restores_pair() {
    // PUSH BC then POP BC restores SP and the pair.
    let mut emulator = emulator_with_memory(&[
        (PROGRAM_COUNTER_START, 0xc5),
        (PROGRAM_COUNTER_START + 1, 0xc1),
    ]);

    emulator.set_register_pair(RegisterPair::Bc, 0x1234);
    emulator.set_stack_pointer(0xfffe);

    emulator.process_opcode().unwrap();

    assert_eq!(emulator.stack_pointer(), 0xfffc);
    assert_eq!(emulator.memory_location(0xfffd).unwrap(), 0x12);
    assert_eq!(emulator.memory_location(0xfffc).unwrap(), 0x34);

    emulator.process_opcode().unwrap();

    assert_eq!(emulator.stack_pointer(), 0xfffe);
    assert_eq!(emulator.register_pair(&RegisterPair::Bc), 0x1234);
}

#[test]
fn push_pop_af_masks_low_nibble() {
    // PUSH AF then POP AF: the low nibble of F reads back as zero.
    let mut emulator = emulator_with_memory(&[
        (PROGRAM_COUNTER_START, 0xf5),
        (PROGRAM_COUNTER_START + 1, 0xf1),
    ]);

    emulator.set_a(0x9a);
    emulator.set_flag(Flag::Z, true);
    emulator.set_flag(Flag::CY, true);
    emulator.set_stack_pointer(0xfffe);

    let before = emulator.register_pair(&RegisterPair::Af);

    assert_eq!(before, 0x9a90);

    emulator.process_opcode().unwrap();
    emulator.process_opcode().unwrap();

    assert_eq!(emulator.stack_pointer(), 0xfffe);
    assert_eq!(emulator.register_pair(&RegisterPair::Af), before);
    assert_eq!(emulator.register_pair(&RegisterPair::Af) % 16, 0);
}

#[test]
fn store_load_round_trip() {
    // LD (0xC000), A then LD A, (0xC000) restores A through the bus.
    let mut emulator = emulator_with_memory(&[
        (PROGRAM_COUNTER_START, 0xea),
        (PROGRAM_COUNTER_START + 1, 0x00),
        (PROGRAM_COUNTER_START + 2, 0xc0),
        (PROGRAM_COUNTER_START + 3, 0xfa),
        (PROGRAM_COUNTER_START + 4, 0x00),
        (PROGRAM_COUNTER_START + 5, 0xc0),
    ]);

    emulator.set_a(0x77);

    emulator.process_opcode().unwrap();

    assert_eq!(emulator.memory_location(0xc000).unwrap(), 0x77);

    emulator.set_a(0x00);

    emulator.process_opcode().unwrap();

    assert_eq!(emulator.a(), 0x77);
}

#[test]
fn cpl_twice_is_identity() {
    // CPL; CPL leaves A unchanged with N and H set after each pass.
    let mut emulator = emulator_with_memory(&[
        (PROGRAM_COUNTER_START, 0x2f),
        (PROGRAM_COUNTER_START + 1, 0x2f),
    ]);

    emulator.set_a(0x5a);
    emulator.set_flag(Flag::Z, true);
    emulator.set_flag(Flag::CY, true);

    emulator.process_opcode().unwrap();

    assert_eq!(emulator.a(), 0xa5);
    assert_eq!(emulator.flag(Flag::N), true);
    assert_eq!(emulator.flag(Flag::H), true);

    emulator.process_opcode().unwrap();

    assert_eq!(emulator.a(), 0x5a);
    assert_eq!(emulator.flag(Flag::N), true);
    assert_eq!(emulator.flag(Flag::H), true);
    assert_eq!(emulator.flag(Flag::Z), true);
    assert_eq!(emulator.flag(Flag::CY), true);
}

#[test]
fn echo_ram_mirrors_work_ram() {
    let mut emulator = Emulator::default();

    for k in [0u16, 1, 0x100, 0x1dff] {
        emulator.write(0xc000 + k, 0xab).unwrap();

        assert_eq!(emulator.memory_location(0xe000 + k).unwrap(), 0xab);

        emulator.write(0xe000 + k, 0xcd).unwrap();

        assert_eq!(emulator.memory_location(0xc000 + k).unwrap(), 0xcd);
    }
}

#[test]
fn unprefixed_table_illegal_entries() {
    let illegal = unimplemented_opcodes();

    assert_eq!(illegal, vec![0xd3, 0xdb, 0xdd, 0xe3, 0xe4, 0xeb, 0xec, 0xed, 0xf4, 0xfc, 0xfd]);

    for byte in 0..=0xffu8 {
        assert_eq!(decode(false, byte).is_none(), illegal.contains(&byte));
    }
}

#[test]
fn cb_table_total() {
    for byte in 0..=0xffu8 {
        assert!(decode(true, byte).is_some());
    }
}

#[test]
fn table_population_count() {
    let mut populated = 0;

    for byte in 0..=0xffu8 {
        if decode(false, byte).is_some() {
            populated += 1;
        }

        if decode(true, byte).is_some() {
            populated += 1;
        }
    }

    assert_eq!(populated, 501);
}

#[test]
fn illegal_opcode_errors() {
    let mut emulator = emulator_with_memory(&[(PROGRAM_COUNTER_START, 0xd3)]);

    match emulator.process_opcode() {
        Err(OpError::Unimplemented(prefixed, byte)) => {
            assert_eq!(prefixed, false);
            assert_eq!(byte, 0xd3);
        },
        _ => panic!("invalid state"),
    };
}

#[test]
fn unmapped_read_errors() {
    // The power-on program counter is unmapped in the bare default build.
    let mut emulator = Emulator::default();

    match emulator.process_opcode() {
        Err(OpError::Memory(MemoryError::ReadError(location, message))) => {
            assert_eq!(location, PROGRAM_COUNTER_START);
            assert_eq!(message, "unimplemented");
        },
        _ => panic!("invalid state"),
    };
}

#[test]
fn halt_until_interrupt() {
    let mut emulator = emulator_with_memory(&[(PROGRAM_COUNTER_START, 0x76)]);

    emulator.step().unwrap();

    assert_eq!(emulator.state(), EmulationState::Halt);

    let cycles = emulator.cycles();

    emulator.step().unwrap();

    assert_eq!(emulator.state(), EmulationState::Halt);
    assert_eq!(emulator.cycles(), cycles + 1);

    emulator.set_interrupt_pending(true);

    emulator.step().unwrap();

    assert_eq!(emulator.state(), EmulationState::Run);
}

#[test]
fn stop_until_joypad() {
    // STOP consumes the byte after the opcode, then every step is a no-op.
    let mut emulator = emulator_with_memory(&[
        (PROGRAM_COUNTER_START, 0x10),
        (PROGRAM_COUNTER_START + 1, 0x00),
    ]);

    emulator.step().unwrap();

    assert_eq!(emulator.state(), EmulationState::Stop);
    assert_eq!(emulator.program_counter(), PROGRAM_COUNTER_START + 2);

    let cycles = emulator.cycles();

    emulator.step().unwrap();

    assert_eq!(emulator.state(), EmulationState::Stop);
    assert_eq!(emulator.cycles(), cycles);

    emulator.joypad_signal();

    assert_eq!(emulator.state(), EmulationState::Run);
}

#[test]
fn ldh_high_ram_addressing() {
    // LDH (0x80), A writes through 0xFF00 + n into high RAM.
    let mut emulator = emulator_with_memory(&[
        (PROGRAM_COUNTER_START, 0xe0),
        (PROGRAM_COUNTER_START + 1, 0x80),
    ]);

    emulator.set_a(0x42);

    emulator.process_opcode().unwrap();

    assert_eq!(emulator.memory_location(0xff80).unwrap(), 0x42);
}

#[test]
fn add_hl_preserves_zero_flag() {
    // ADD HL, BC keeps Z, clears N, and carries out of the high byte.
    let mut emulator = emulator_with_memory(&[(PROGRAM_COUNTER_START, 0x09)]);

    emulator.set_register_pair(RegisterPair::Hl, 0x8a23);
    emulator.set_register_pair(RegisterPair::Bc, 0x9678);
    emulator.set_flag(Flag::Z, true);
    emulator.set_flag(Flag::N, true);

    emulator.process_opcode().unwrap();

    assert_eq!(emulator.register_pair(&RegisterPair::Hl), 0x209b);
    assert_eq!(emulator.flag(Flag::Z), true);
    assert_eq!(emulator.flag(Flag::N), false);
    assert_eq!(emulator.flag(Flag::CY), true);
    assert_eq!(emulator.flag(Flag::H), true);
}

#[test]
fn rom_builder_header() {
    let mut builder = emulation::RomBuilder::new();

    builder.game_title(String::from("ADVENTURE"));
    builder.cgb_compatibility(emulation::CbgCompatibility::CGBExclusive);
    builder.rom_size(emulation::RomSize::Size512Kilobits);

    let rom = builder.build();

    assert_eq!(rom.len(), 0x0150);
    assert_eq!(rom[0x0134], b'A');
    assert_eq!(rom[0x013c], b'E');
    assert_eq!(rom[0x013d], 0x00);
    assert_eq!(rom[0x0143], 0xc0);
    assert_eq!(rom[0x0000], 0x00);
}

#[test]
fn sra_preserves_high_bit() {
    // CB 0x28: SRA B keeps bit 7; CB 0x38: SRL B clears it.
    let mut emulator = emulator_with_memory(&[
        (PROGRAM_COUNTER_START, 0xcb),
        (PROGRAM_COUNTER_START + 1, 0x28),
        (PROGRAM_COUNTER_START + 2, 0xcb),
        (PROGRAM_COUNTER_START + 3, 0x38),
    ]);

    emulator.set_register(Register::B, 0x81);

    emulator.process_opcode().unwrap();
    emulator.process_opcode().unwrap();

    assert_eq!(emulator.register(&Register::B), 0xc0);
    assert_eq!(emulator.flag(Flag::CY), true);

    emulator.process_opcode().unwrap();
    emulator.process_opcode().unwrap();

    assert_eq!(emulator.register(&Register::B), 0x60);
    assert_eq!(emulator.flag(Flag::CY), false);
}

#[test]
fn logical_flag_policy() {
    // AND sets H; OR and XOR clear it; all three clear N and CY.
    let mut emulator = emulator_with_memory(&[(PROGRAM_COUNTER_START, 0xa0)]);

    emulator.set_a(0b1100);
    emulator.set_register(Register::B, 0b1010);
    emulator.set_flag(Flag::CY, true);

    emulator.process_opcode().unwrap();

    assert_eq!(emulator.a(), 0b1000);
    assert_eq!(emulator.flag(Flag::H), true);
    assert_eq!(emulator.flag(Flag::N), false);
    assert_eq!(emulator.flag(Flag::CY), false);

    let mut emulator = emulator_with_memory(&[(PROGRAM_COUNTER_START, 0xb0)]);

    emulator.set_a(0b1100);
    emulator.set_register(Register::B, 0b1010);

    emulator.process_opcode().unwrap();

    assert_eq!(emulator.a(), 0b1110);
    assert_eq!(emulator.flag(Flag::H), false);

    let mut emulator = emulator_with_memory(&[(PROGRAM_COUNTER_START, 0xa8)]);

    emulator.set_a(0b1100);
    emulator.set_register(Register::B, 0b1010);

    emulator.process_opcode().unwrap();

    assert_eq!(emulator.a(), 0b0110);
    assert_eq!(emulator.flag(Flag::H), false);
}
