//! Extraction of operand fields from an opcode byte: register, register
//! pair, condition, bit-index and restart-page fields, each selected by a
//! mask whose contiguous set bits locate the field.

use vstd::prelude::*;
use vstd::string::StringSliceAdditionalSpecFns;

use crate::condition::{spec_condition_from_code, Condition};
use crate::register::{
    spec_register_from_code, spec_register_pair_from_code, Register, RegisterPair,
};

verus! {

broadcast use vstd::seq_lib::group_filter_ensures, vstd::seq::Seq::lemma_filter_push;

/// An error from a bit-field extraction that hit a reserved value. These
/// are structurally unreachable given a correctly populated dispatch table
/// and serve as safety checks.
#[derive(Clone, Copy, Debug, Eq, PartialEq, Structural)]
pub enum OpcodeError {
    /// A reserved condition code.
    ConditionParse(u8),
    /// An out-of-range restart page code.
    PageParse(u8),
    /// A reserved register pair code.
    RegisterPairParse(u8),
    /// The reserved register code 0b110.
    RegisterParse(u8),
}

/// The number of low zero bits of a mask: the shift that brings its field
/// down to bit 0.
pub open spec fn spec_mask_shift(mask: u8) -> nat
    decreases mask,
{
    if mask == 0 {
        8
    } else if mask % 2 == 1 {
        0
    } else {
        1 + spec_mask_shift(mask / 2)
    }
}

/// The field selected by a mask, shifted down to bit 0.
pub open spec fn spec_field(opcode: u8, mask: u8) -> u8 {
    if spec_mask_shift(mask) >= 8 {
        0
    } else {
        (opcode & mask) >> (spec_mask_shift(mask) as u8)
    }
}

/// What `parse_register` returns: the register denoted by the selected
/// field, or the reserved code as an error.
pub open spec fn spec_parse_register(opcode: u8, mask: u8) -> Result<Register, OpcodeError> {
    match spec_register_from_code(spec_field(opcode, mask)) {
        Some(register) => Ok(register),
        None => Err(OpcodeError::RegisterParse(spec_field(opcode, mask))),
    }
}

/// What `parse_register_pair` returns.
pub open spec fn spec_parse_register_pair(opcode: u8, mask: u8) -> Result<
    RegisterPair,
    OpcodeError,
> {
    match spec_register_pair_from_code(spec_field(opcode, mask)) {
        Some(register_pair) => Ok(register_pair),
        None => Err(OpcodeError::RegisterPairParse(spec_field(opcode, mask))),
    }
}

/// What `parse_condition` returns.
pub open spec fn spec_parse_condition(opcode: u8, mask: u8) -> Result<Condition, OpcodeError> {
    match spec_condition_from_code(spec_field(opcode, mask)) {
        Some(condition) => Ok(condition),
        None => Err(OpcodeError::ConditionParse(spec_field(opcode, mask))),
    }
}

/// What `parse_page` returns: the restart target `field * 0x08` for a field
/// below 8, an error otherwise.
pub open spec fn spec_parse_page(opcode: u8, mask: u8) -> Result<u16, OpcodeError> {
    if spec_field(opcode, mask) < 8 {
        Ok((spec_field(opcode, mask) * 8) as u16)
    } else {
        Err(OpcodeError::PageParse(spec_field(opcode, mask)))
    }
}

/// Extraction of operand fields from an opcode byte.
pub trait Opcode {
    /// The opcode byte itself.
    spec fn opcode_value(&self) -> u8;

    /// The 3-bit bit-index field selected by the mask.
    fn parse_bit(&self, mask: u8) -> (r: usize)
        ensures
            r == spec_field(self.opcode_value(), mask) as usize,
    ;

    /// The condition selected by the mask.
    fn parse_condition(&self, mask: u8) -> (r: Result<Condition, OpcodeError>)
        ensures
            r == spec_parse_condition(self.opcode_value(), mask),
    ;

    /// The restart page target selected by the mask.
    fn parse_page(&self, mask: u8) -> (r: Result<u16, OpcodeError>)
        ensures
            r == spec_parse_page(self.opcode_value(), mask),
    ;

    /// The register selected by the mask; the reserved code 0b110 is an
    /// error.
    fn parse_register(&self, mask: u8) -> (r: Result<Register, OpcodeError>)
        ensures
            r == spec_parse_register(self.opcode_value(), mask),
    ;

    /// The register pair selected by the mask.
    fn parse_register_pair(&self, mask: u8) -> (r: Result<RegisterPair, OpcodeError>)
        ensures
            r == spec_parse_register_pair(self.opcode_value(), mask),
    ;
}

/// The number of low zero bits of a mask.
fn mask_shift(mask: u8) -> (r: u8)
    ensures
        r == spec_mask_shift(mask),
{
    proof {
        reveal_with_fuel(spec_mask_shift, 9);
    }

    if mask == 0 {
        8
    } else if mask % 2 == 1 {
        0
    } else if (mask / 2) % 2 == 1 {
        1
    } else if (mask / 4) % 2 == 1 {
        2
    } else if (mask / 8) % 2 == 1 {
        3
    } else if (mask / 16) % 2 == 1 {
        4
    } else if (mask / 32) % 2 == 1 {
        5
    } else if (mask / 64) % 2 == 1 {
        6
    } else {
        7
    }
}

/// The field selected by a mask, shifted down to bit 0.
fn field(opcode: u8, mask: u8) -> (r: u8)
    ensures
        r == spec_field(opcode, mask),
{
    let shift = mask_shift(mask);

    if shift >= 8 {
        0
    } else {
        (opcode & mask) >> shift
    }
}

impl Opcode for u8 {
    open spec fn opcode_value(&self) -> u8 {
        *self
    }

    fn parse_bit(&self, mask: u8) -> (r: usize) {
        field(*self, mask) as usize
    }

    fn parse_condition(&self, mask: u8) -> (r: Result<Condition, OpcodeError>) {
        let argument = field(*self, mask);

        match crate::condition::condition_from_code(argument) {
            Some(condition) => Ok(condition),
            None => Err(OpcodeError::ConditionParse(argument)),
        }
    }

    fn parse_page(&self, mask: u8) -> (r: Result<u16, OpcodeError>) {
        let argument = field(*self, mask);

        if argument < 8 {
            Ok((argument as u16) * 8)
        } else {
            Err(OpcodeError::PageParse(argument))
        }
    }

    fn parse_register(&self, mask: u8) -> (r: Result<Register, OpcodeError>) {
        let argument = field(*self, mask);

        match crate::register::register_from_code(argument) {
            Some(register) => Ok(register),
            None => Err(OpcodeError::RegisterParse(argument)),
        }
    }

    fn parse_register_pair(&self, mask: u8) -> (r: Result<RegisterPair, OpcodeError>) {
        let argument = field(*self, mask);

        match crate::register::register_pair_from_code(argument) {
            Some(register_pair) => Ok(register_pair),
            None => Err(OpcodeError::RegisterPairParse(argument)),
        }
    }
}

/// The template with its spaces removed.
pub open spec fn stripped_template(s: Seq<u8>) -> Seq<u8> {
    s.filter(|c: u8| c != 32)
}

/// The characters a template may hold: the fixed bits '0' and '1' and the
/// field letters r, q (register), s, d (register pair), c (condition),
/// b (bit index) and t (restart page).
pub open spec fn template_char_ok(c: u8) -> bool {
    c == 48 || c == 49 || c == 114 || c == 113 || c == 115 || c == 100 || c == 99 || c == 98
        || c == 116
}

/// Whether a pattern is well formed: eight significant characters, each a
/// fixed bit or a field letter.
pub open spec fn pattern_well_formed(s: Seq<u8>) -> bool {
    stripped_template(s).len() == 8 && forall|i: int|
        0 <= i < 8 ==> template_char_ok(#[trigger] stripped_template(s)[i])
}

/// The weight of the bit at template position `i` (position 0 is the most
/// significant bit).
pub open spec fn bit_weight(i: int) -> int {
    if i == 0 {
        128
    } else if i == 1 {
        64
    } else if i == 2 {
        32
    } else if i == 3 {
        16
    } else if i == 4 {
        8
    } else if i == 5 {
        4
    } else if i == 6 {
        2
    } else {
        1
    }
}

/// The bit of an opcode byte at template position `i`.
pub open spec fn opcode_bit(b: u8, i: int) -> int {
    ((b as int) / bit_weight(i)) % 2
}

/// Whether a byte agrees with one template position: a fixed bit must
/// match and a field letter admits either bit.
pub open spec fn position_matches(t: Seq<u8>, b: u8, i: int) -> bool {
    if t[i] == 48 {
        opcode_bit(b, i) == 0
    } else if t[i] == 49 {
        opcode_bit(b, i) == 1
    } else {
        true
    }
}

/// Whether a byte respects the register fields of a template: a run of
/// three r or three q letters is a register field, and the reserved code
/// 0b110 never denotes a register.
pub open spec fn register_fields_ok(t: Seq<u8>, b: u8) -> bool {
    forall|i: int|
        0 <= i <= 5 && ((#[trigger] t[i]) == 114 || t[i] == 113) && t[i + 1] == t[i] && t[i + 2]
            == t[i] ==> !(opcode_bit(b, i) == 1 && opcode_bit(b, i + 1) == 1 && opcode_bit(b, i + 2)
            == 0)
}

/// Whether an opcode byte belongs to the set a template admits.
pub open spec fn template_matches(t: Seq<u8>, b: u8) -> bool {
    (forall|i: int| 0 <= i < 8 ==> position_matches(t, b, i)) && register_fields_ok(t, b)
}

/// The bytes below `n` that a template admits, ascending.
pub open spec fn matching_opcodes(t: Seq<u8>, n: int) -> Seq<u8>
    decreases n,
{
    if n <= 0 {
        Seq::empty()
    } else {
        matching_opcodes(t, n - 1) + if template_matches(t, (n - 1) as u8) {
            seq![(n - 1) as u8]
        } else {
            Seq::empty()
        }
    }
}

/// Expansion of a bit-pattern template into the concrete opcode bytes it
/// admits.
pub trait OpcodePattern {
    /// The template's characters.
    spec fn pattern_view(&self) -> Seq<u8>;

    /// The concrete opcode bytes the template admits, ascending; an
    /// ill-formed template admits none.
    fn opcodes(&self) -> (r: Vec<u8>)
        ensures
            r@ == if pattern_well_formed(self.pattern_view()) {
                matching_opcodes(stripped_template(self.pattern_view()), 256)
            } else {
                Seq::<u8>::empty()
            },
    ;
}

/// The bit of an opcode byte at template position `i`.
fn opcode_bit_at(b: u8, i: usize) -> (r: u8)
    ensures
        r == opcode_bit(b, i as int),
{
    if i == 0 {
        (b / 128) % 2
    } else if i == 1 {
        (b / 64) % 2
    } else if i == 2 {
        (b / 32) % 2
    } else if i == 3 {
        (b / 16) % 2
    } else if i == 4 {
        (b / 8) % 2
    } else if i == 5 {
        (b / 4) % 2
    } else if i == 6 {
        (b / 2) % 2
    } else {
        b % 2
    }
}

/// Whether an opcode byte belongs to the set an eight-character template
/// admits.
fn template_matches_exec(template: &Vec<u8>, b: u8) -> (r: bool)
    requires
        template@.len() == 8,
    ensures
        r == template_matches(template@, b),
{
    let mut position_ok = true;
    let mut i: usize = 0;

    while i < 8
        invariant
            template@.len() == 8,
            i <= 8,
            position_ok ==> (forall|j: int| 0 <= j < i ==> position_matches(template@, b, j)),
            !position_ok ==> (exists|j: int| 0 <= j < 8 && !position_matches(template@, b, j)),
        decreases 8 - i,
    {
        let c = template[i];
        let bit = opcode_bit_at(b, i);

        if c == 48 && bit != 0 {
            proof {
                assert(!position_matches(template@, b, i as int));
            }

            position_ok = false;
        } else if c == 49 && bit != 1 {
            proof {
                assert(!position_matches(template@, b, i as int));
            }

            position_ok = false;
        } else {
            proof {
                assert(position_matches(template@, b, i as int));
            }
        }

        i = i + 1;
    }

    let mut registers_ok = true;
    let mut k: usize = 0;

    while k < 6
        invariant
            template@.len() == 8,
            k <= 6,
            registers_ok ==> (forall|j: int|
                0 <= j < k && ((#[trigger] template@[j]) == 114 || template@[j] == 113)
                    && template@[j + 1] == template@[j] && template@[j + 2] == template@[j] ==> !(
                opcode_bit(b, j) == 1 && opcode_bit(b, j + 1) == 1 && opcode_bit(b, j + 2) == 0)),
            !registers_ok ==> !register_fields_ok(template@, b),
        decreases 6 - k,
    {
        let c = template[k];

        if (c == 114 || c == 113) && template[k + 1] == c && template[k + 2] == c {
            if opcode_bit_at(b, k) == 1 && opcode_bit_at(b, k + 1) == 1 && opcode_bit_at(b, k + 2)
                == 0 {
                proof {
                    assert(!register_fields_ok(template@, b)) by {
                        assert(((template@[k as int]) == 114 || template@[k as int] == 113)
                            && template@[k + 1] == template@[k as int] && template@[k + 2]
                            == template@[k as int]);
                    }
                }

                registers_ok = false;
            }
        }

        k = k + 1;
    }

    position_ok && registers_ok
}

impl OpcodePattern for &str {
    open spec fn pattern_view(&self) -> Seq<u8> {
        (*self).spec_bytes()
    }

    fn opcodes(&self) -> (r: Vec<u8>) {
        let bytes = self.as_bytes();

        let mut template: Vec<u8> = Vec::new();
        let mut i: usize = 0;

        while i < bytes.len()
            invariant
                i <= bytes@.len(),
                template@ == bytes@.subrange(0, i as int).filter(|c: u8| c != 32),
            decreases bytes@.len() - i,
        {
            proof {
                assert(bytes@.subrange(0, i + 1 as int) =~= bytes@.subrange(0, i as int).push(
                    bytes@[i as int],
                ));
            }

            if bytes[i] != 32 {
                template.push(bytes[i]);
            }

            i = i + 1;
        }

        proof {
            assert(bytes@.subrange(0, bytes@.len() as int) =~= bytes@);
        }

        if template.len() != 8 {
            return Vec::new();
        }

        let mut chars_ok = true;
        let mut k: usize = 0;

        while k < 8
            invariant
                template@.len() == 8,
                k <= 8,
                chars_ok <==> (forall|j: int|
                    0 <= j < k ==> template_char_ok(#[trigger] template@[j])),
            decreases 8 - k,
        {
            let c = template[k];

            if !(c == 48 || c == 49 || c == 114 || c == 113 || c == 115 || c == 100 || c == 99
                || c == 98 || c == 116) {
                chars_ok = false;
            }

            k = k + 1;
        }

        if !chars_ok {
            return Vec::new();
        }

        let mut result: Vec<u8> = Vec::new();
        let mut code: u32 = 0;

        while code < 256
            invariant
                template@.len() == 8,
                code <= 256,
                result@ == matching_opcodes(template@, code as int),
            decreases 256 - code,
        {
            if template_matches_exec(&template, code as u8) {
                result.push(code as u8);
            }

            code = code + 1;
        }

        result
    }
}

} // verus!
