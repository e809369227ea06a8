//! Pure bit primitives: 8-bit and 16-bit addition and subtraction that report
//! the wrapped value together with the carry and half-carry (borrow and
//! half-borrow) bits. These are the only producers of the CY and H flags for
//! the arithmetic instructions; every higher-level operation routes through
//! them.

use vstd::prelude::*;

verus! {

/// 1 when the carry-in flag is set, 0 otherwise.
pub open spec fn carry_in(carry: bool) -> int {
    if carry {
        1
    } else {
        0
    }
}

/// The low byte of the mathematical sum `a + b + carry`.
pub open spec fn add8_value(a: u8, b: u8, carry: bool) -> u8 {
    ((a + b + carry_in(carry)) % 256) as u8
}

/// Whether `a + b + carry` exceeds the 8-bit range (carry out of bit 7).
pub open spec fn add8_carry(a: u8, b: u8, carry: bool) -> bool {
    a + b + carry_in(carry) > 0xff
}

/// Whether the low nibbles of `a + b + carry` overflow (carry out of bit 3).
pub open spec fn add8_half_carry(a: u8, b: u8, carry: bool) -> bool {
    a % 16 + b % 16 + carry_in(carry) > 0x0f
}

/// The low byte of the mathematical difference `a - b - borrow`.
pub open spec fn sub8_value(a: u8, b: u8, borrow: bool) -> u8 {
    ((a + 256 - b - carry_in(borrow)) % 256) as u8
}

/// Whether `a - b - borrow` is negative (borrow into bit 7).
pub open spec fn sub8_borrow(a: u8, b: u8, borrow: bool) -> bool {
    (a as int) < b + carry_in(borrow)
}

/// Whether the low nibble of `a` is too small for the subtraction
/// (borrow into bit 3).
pub open spec fn sub8_half_borrow(a: u8, b: u8, borrow: bool) -> bool {
    ((a % 16) as int) < b % 16 + carry_in(borrow)
}

/// The low word of the mathematical sum `a + b + carry`.
pub open spec fn add16_value(a: u16, b: u16, carry: bool) -> u16 {
    ((a + b + carry_in(carry)) % 0x10000) as u16
}

/// Whether `a + b + carry` exceeds the 16-bit range.
pub open spec fn add16_carry(a: u16, b: u16, carry: bool) -> bool {
    a + b + carry_in(carry) > 0xffff
}

/// Whether the low bytes of `a + b + carry` overflow (carry out of bit 7).
pub open spec fn add16_half_carry(a: u16, b: u16, carry: bool) -> bool {
    a % 256 + b % 256 + carry_in(carry) > 0xff
}

/// The low word of the mathematical difference `a - b - borrow`.
pub open spec fn sub16_value(a: u16, b: u16, borrow: bool) -> u16 {
    ((a + 0x10000 - b - carry_in(borrow)) % 0x10000) as u16
}

/// Whether `a - b - borrow` is negative.
pub open spec fn sub16_borrow(a: u16, b: u16, borrow: bool) -> bool {
    (a as int) < b + carry_in(borrow)
}

/// Whether the low byte of `a` is too small for the subtraction.
pub open spec fn sub16_half_borrow(a: u16, b: u16, borrow: bool) -> bool {
    ((a % 256) as int) < b % 256 + carry_in(borrow)
}

/// Result of an 8-bit addition: the wrapped value plus the carry and
/// half-carry bits.
pub struct BitAddResult {
    pub carry: bool,
    pub half_carry: bool,
    pub value: u8,
}

/// Result of an 8-bit subtraction: the wrapped value plus the borrow and
/// half-borrow bits.
pub struct BitSubtractResult {
    pub borrow: bool,
    pub half_borrow: bool,
    pub value: u8,
}

/// Result of a 16-bit addition.
pub struct BitAddResult16 {
    pub carry: bool,
    pub half_carry: bool,
    pub value: u16,
}

/// Result of a 16-bit subtraction.
pub struct BitSubtractResult16 {
    pub borrow: bool,
    pub half_borrow: bool,
    pub value: u16,
}

/// Computes `a + b + carry` over unsigned 8-bit arithmetic. The value is the
/// wrapped low byte; `carry` is set when the mathematical sum exceeds 0xFF;
/// `half_carry` is set when the low nibbles alone overflow.
pub fn bit_add(a: u8, b: u8, carry: bool) -> (r: BitAddResult)
    ensures
        r.value == add8_value(a, b, carry),
        r.carry == add8_carry(a, b, carry),
        r.half_carry == add8_half_carry(a, b, carry),
{
    let carry_value: u16 = if carry {
        1
    } else {
        0
    };

    let sum: u16 = a as u16 + b as u16 + carry_value;
    let half_sum: u16 = (a % 16) as u16 + (b % 16) as u16 + carry_value;

    BitAddResult { carry: sum > 0xff, half_carry: half_sum > 0x0f, value: (sum % 256) as u8 }
}

/// Computes `a - b - borrow` over unsigned 8-bit arithmetic. The value is the
/// wrapped low byte; `borrow` is set when the mathematical result is negative;
/// `half_borrow` is set when the low nibble of `a` is smaller than that of
/// `b` plus the borrow-in.
pub fn bit_subtract(a: u8, b: u8, borrow: bool) -> (r: BitSubtractResult)
    ensures
        r.value == sub8_value(a, b, borrow),
        r.borrow == sub8_borrow(a, b, borrow),
        r.half_borrow == sub8_half_borrow(a, b, borrow),
{
    let borrow_value: u16 = if borrow {
        1
    } else {
        0
    };

    let minuend: u16 = a as u16 + 256;
    let subtrahend: u16 = b as u16 + borrow_value;

    BitSubtractResult {
        borrow: (a as u16) < subtrahend,
        half_borrow: ((a % 16) as u16) < (b % 16) as u16 + borrow_value,
        value: ((minuend - subtrahend) % 256) as u8,
    }
}

/// The 16-bit counterpart of `bit_add`; the half-carry reports an overflow of
/// the low bytes.
pub fn bit_add16(a: u16, b: u16, carry: bool) -> (r: BitAddResult16)
    ensures
        r.value == add16_value(a, b, carry),
        r.carry == add16_carry(a, b, carry),
        r.half_carry == add16_half_carry(a, b, carry),
{
    let carry_value: u32 = if carry {
        1
    } else {
        0
    };

    let sum: u32 = a as u32 + b as u32 + carry_value;
    let half_sum: u32 = (a % 256) as u32 + (b % 256) as u32 + carry_value;

    BitAddResult16 { carry: sum > 0xffff, half_carry: half_sum > 0xff, value: (sum % 0x10000) as u16 }
}

/// The 16-bit counterpart of `bit_subtract`; the half-borrow compares the low
/// bytes.
pub fn bit_subtract16(a: u16, b: u16, borrow: bool) -> (r: BitSubtractResult16)
    ensures
        r.value == sub16_value(a, b, borrow),
        r.borrow == sub16_borrow(a, b, borrow),
        r.half_borrow == sub16_half_borrow(a, b, borrow),
{
    let borrow_value: u32 = if borrow {
        1
    } else {
        0
    };

    let minuend: u32 = a as u32 + 0x10000;
    let subtrahend: u32 = b as u32 + borrow_value;

    BitSubtractResult16 {
        borrow: (a as u32) < subtrahend,
        half_borrow: ((a % 256) as u32) < (b % 256) as u32 + borrow_value,
        value: ((minuend - subtrahend) % 0x10000) as u16,
    }
}

} // verus!
