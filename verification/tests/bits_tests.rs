//! Tests of the bit primitives: 8-bit and 16-bit add and subtract with
//! their carry, half-carry, borrow and half-borrow reports.

use emulation::{bit_add, bit_add16, bit_subtract, bit_subtract16};

#[test]
fn bits_simple_add() {
    let r = bit_add16(0x00fe, 0x0001, false);

    assert_eq!(r.carry, false);
    assert_eq!(r.half_carry, false);
    assert_eq!(r.value, 0x00ff);

    let r = bit_add(0x01, 0x02, false);

    assert_eq!(r.carry, false);
    assert_eq!(r.half_carry, false);
    assert_eq!(r.value, 0x03);
}

#[test]
fn bits_add_resulting_in_carry() {
    let r = bit_add16(0xf000, 0x1000, false);

    assert_eq!(r.carry, true);
    assert_eq!(r.half_carry, false);
    assert_eq!(r.value, 0x0000);

    let r = bit_add(0xf0, 0x10, false);

    assert_eq!(r.carry, true);
    assert_eq!(r.half_carry, false);
    assert_eq!(r.value, 0x00);
}

#[test]
fn bits_add_resulting_in_half_carry() {
    let r = bit_add(0x0f, 0x01, false);

    assert_eq!(r.carry, false);
    assert_eq!(r.half_carry, true);
    assert_eq!(r.value, 0x10);

    let r = bit_add(0x01, 0x02, true);

    assert_eq!(r.carry, false);
    assert_eq!(r.half_carry, false);
    assert_eq!(r.value, 0x04);
}

#[test]
fn add_with_carry() {
    let r = bit_add(0x01, 0x02, true);

    assert_eq!(r.carry, false);
    assert_eq!(r.half_carry, false);
    assert_eq!(r.value, 0x04);
}

#[test]
fn bits_simple_subtract() {
    let r = bit_subtract(0x03, 0x01, false);

    assert_eq!(r.borrow, false);
    assert_eq!(r.half_borrow, false);
    assert_eq!(r.value, 0x02);

    let r = bit_subtract16(0x0003, 0x0001, false);

    assert_eq!(r.borrow, false);
    assert_eq!(r.half_borrow, false);
    assert_eq!(r.value, 0x0002);
}

#[test]
fn bits_subtract_resulting_in_borrow() {
    let r = bit_subtract(0xe0, 0xf0, false);

    assert_eq!(r.borrow, true);
    assert_eq!(r.half_borrow, false);
    assert_eq!(r.value, 0xf0);

    let r = bit_subtract16(0xe000, 0xf000, false);

    assert_eq!(r.borrow, true);
    assert_eq!(r.half_borrow, false);
    assert_eq!(r.value, 0xf000);
}

#[test]
fn bits_subtract_resulting_in_half_borrow() {
    let r = bit_subtract(0x1e, 0x0f, false);

    assert_eq!(r.borrow, false);
    assert_eq!(r.half_borrow, true);
    assert_eq!(r.value, 0x0f);

    let r = bit_subtract16(0x0100, 0x0080, false);

    assert_eq!(r.borrow, false);
    assert_eq!(r.half_borrow, true);
    assert_eq!(r.value, 0x0080);
}

#[test]
fn bits_subtract_with_borrow() {
    let r = bit_subtract(0x03, 0x02, true);

    assert_eq!(r.borrow, false);
    assert_eq!(r.half_borrow, false);
    assert_eq!(r.value, 0x00);

    let r = bit_subtract16(0x0003, 0x0002, true);

    assert_eq!(r.borrow, false);
    assert_eq!(r.half_borrow, false);
    assert_eq!(r.value, 0x0000);
}
