//! Tests of the opcode field extractors and of the two bit-pattern
//! expanders: the matcher over eight-character templates and the split
//! prefix/argument templates.

use emulation::template;
use emulation::{Opcode, OpcodeError, OpcodePattern, Register, RegisterPair};

fn sorted(mut v: Vec<u8>) -> Vec<u8> {
    v.sort();

    v
}

#[test]
fn parse_register() {
    let mask = 0b00_111_000u8;

    assert_eq!(0b00_111_000u8.parse_register(mask).unwrap(), Register::A);
    assert_eq!(0b00_000_000u8.parse_register(mask).unwrap(), Register::B);
    assert_eq!(0b00_001_000u8.parse_register(mask).unwrap(), Register::C);
    assert_eq!(0b00_010_000u8.parse_register(mask).unwrap(), Register::D);
    assert_eq!(0b00_011_000u8.parse_register(mask).unwrap(), Register::E);
    assert_eq!(0b00_100_000u8.parse_register(mask).unwrap(), Register::H);
    assert_eq!(0b00_101_000u8.parse_register(mask).unwrap(), Register::L);
    assert_eq!(
        0b00_110_000u8.parse_register(mask),
        Err(OpcodeError::RegisterParse(0b110u8))
    );
}

#[test]
fn parse_register_pair() {
    let mask = 0b00_110_000u8;

    assert_eq!(
        0b00_110_000u8.parse_register_pair(mask).unwrap(),
        RegisterPair::Af
    );
    assert_eq!(
        0b00_000_000u8.parse_register_pair(mask).unwrap(),
        RegisterPair::Bc
    );
    assert_eq!(
        0b00_010_000u8.parse_register_pair(mask).unwrap(),
        RegisterPair::De
    );
    assert_eq!(
        0b00_100_000u8.parse_register_pair(mask).unwrap(),
        RegisterPair::Hl
    );

    assert_eq!(
        0b00_111_000u8.parse_register_pair(0b00_111_000),
        Err(OpcodeError::RegisterPairParse(0b111u8))
    );
}

#[test]
fn parse_condition_reserved_code() {
    // A full-byte mask can yield a field outside the 2-bit condition range.
    assert_eq!(
        0b0000_0100u8.parse_condition(0b1111_1111),
        Err(OpcodeError::ConditionParse(4))
    );
}

#[test]
fn parse_page_range() {
    assert_eq!(0b00_111_000u8.parse_page(0b00_111_000).unwrap(), 0x0038);
    assert_eq!(0b00_000_000u8.parse_page(0b00_111_000).unwrap(), 0x0000);
    assert_eq!(0b0000_1000u8.parse_page(0b1111_1111), Err(OpcodeError::PageParse(8)));
}

#[test]
fn multiple_register_pairs() {
    let opcodes = sorted("01 ss0 dd0".opcodes());

    let expected = sorted(vec![
        0b01_000_000,
        0b01_010_000,
        0b01_100_000,
        0b01_110_000,
        0b01_000_010,
        0b01_010_010,
        0b01_100_010,
        0b01_110_010,
        0b01_000_100,
        0b01_010_100,
        0b01_100_100,
        0b01_110_100,
        0b01_000_110,
        0b01_010_110,
        0b01_100_110,
        0b01_110_110,
    ]);

    assert_eq!(opcodes, expected);
}

#[test]
fn multiple_registers() {
    let opcodes = sorted("01 rrr qqq".opcodes());

    let mut expected = Vec::new();

    for high in [0b000u8, 0b001, 0b010, 0b011, 0b100, 0b101, 0b111] {
        for low in [0b000u8, 0b001, 0b010, 0b011, 0b100, 0b101, 0b111] {
            expected.push(0b01_000_000 | (high << 3) | low);
        }
    }

    assert_eq!(opcodes, sorted(expected));
    assert_eq!("01 rrr qqq".opcodes().len(), 49);
}

#[test]
fn no_pattern() {
    assert_eq!("10 000 110".opcodes(), vec![0b10_000_110]);
}

#[test]
fn single_register() {
    let expected = sorted(vec![
        0b01_000_110,
        0b01_001_110,
        0b01_010_110,
        0b01_011_110,
        0b01_100_110,
        0b01_101_110,
        0b01_111_110,
    ]);

    assert_eq!(sorted("01 rrr 110".opcodes()), expected);
    assert_eq!(sorted("01 qqq 110".opcodes()), expected);
}

#[test]
fn single_register_pair() {
    let expected = sorted(vec![0b01_000_110, 0b01_010_110, 0b01_100_110, 0b01_110_110]);

    assert_eq!(sorted("01 ss0 110".opcodes()), expected);
    assert_eq!(sorted("01 dd0 110".opcodes()), expected);
}

#[test]
fn simple_opcode() {
    let opcode = template::Opcode::new("00 000 000");

    assert_eq!(opcode.len(), 1usize);
    assert_eq!(opcode.variations[0], 0b00000000);
}

#[test]
fn register_arguments() {
    // An opcode with one or more register arguments expands in enumeration
    // order, accumulator first.
    let one_arg_opcode = template::Opcode::new("10 000 rrr");
    let two_arg_opcode = template::Opcode::new("11 rrr sss");

    assert_eq!(one_arg_opcode.len(), 7usize);
    assert_eq!(one_arg_opcode.variations[0], 0b10000111);
    assert_eq!(one_arg_opcode.variations[1], 0b10000000);
    assert_eq!(one_arg_opcode.variations[2], 0b10000001);
    assert_eq!(one_arg_opcode.variations[3], 0b10000010);
    assert_eq!(one_arg_opcode.variations[4], 0b10000011);
    assert_eq!(one_arg_opcode.variations[5], 0b10000100);
    assert_eq!(one_arg_opcode.variations[6], 0b10000101);

    assert_eq!(two_arg_opcode.len(), 49usize);
    assert_eq!(two_arg_opcode.variations[0], 0b11111111);
    assert_eq!(two_arg_opcode.variations[6], 0b11111101);
    assert_eq!(two_arg_opcode.variations[13], 0b11000101);
    assert_eq!(two_arg_opcode.variations[20], 0b11001101);
    assert_eq!(two_arg_opcode.variations[27], 0b11010101);
    assert_eq!(two_arg_opcode.variations[34], 0b11011101);
    assert_eq!(two_arg_opcode.variations[41], 0b11100101);
    assert_eq!(two_arg_opcode.variations[48], 0b11101101);
}

#[test]
fn opcode_variations_pair_argument() {
    // A register-pair argument keeps its literal bit in place around the
    // four pair codes, AF first.
    let variations = emulation::opcode_variations("01", "ss0", "110");

    assert_eq!(variations, vec![0b01_110_110, 0b01_000_110, 0b01_010_110, 0b01_100_110]);
}
