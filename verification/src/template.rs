//! Expansion of an opcode template split into its prefix and two argument
//! fields: a two-bit literal prefix and two three-bit arguments, where a
//! register argument enumerates the seven register codes (accumulator
//! first) and a register-pair argument enumerates the four pair codes
//! around its literal bit.

use vstd::prelude::*;

use vstd::string::StringSliceAdditionalSpecFns;

verus! {

broadcast use vstd::seq_lib::group_filter_ensures, vstd::seq::Seq::lemma_filter_push;

/// The seven 3-bit register field codes in enumeration order: A first,
/// then B, C, D, E, H, L; the reserved code 0b110 is absent.
pub open spec fn register_code_order() -> Seq<u8> {
    seq![7u8, 0u8, 1u8, 2u8, 3u8, 4u8, 5u8]
}

/// The four 2-bit register pair codes in enumeration order: AF, BC, DE,
/// HL.
pub open spec fn register_pair_code_order() -> Seq<u8> {
    seq![3u8, 0u8, 1u8, 2u8]
}

/// Whether a template character is a fixed bit.
pub open spec fn is_bit_char(c: u8) -> bool {
    c == 48 || c == 49
}

/// The value of a fixed-bit character.
pub open spec fn bit_char_value(c: u8) -> int {
    if c == 49 {
        1
    } else {
        0
    }
}

/// The 3-bit values a template argument admits, in enumeration order: a
/// register argument ("rrr" or "sss") admits the seven register codes; a
/// register-pair argument keeps its literal bit in place around the four
/// pair codes; three fixed bits admit their single value; any other
/// argument admits none.
pub open spec fn spec_argument_variations(arg: Seq<u8>) -> Seq<u8> {
    if arg.len() != 3 {
        Seq::empty()
    } else if (arg[0] == 114 && arg[1] == 114 && arg[2] == 114) || (arg[0] == 115 && arg[1] == 115
        && arg[2] == 115) {
        register_code_order()
    } else if is_bit_char(arg[0]) && ((arg[1] == 114 && arg[2] == 114) || (arg[1] == 115 && arg[2]
        == 115)) {
        register_pair_code_order().map_values(
            |p: u8| (bit_char_value(arg[0]) * 4 + p) as u8,
        )
    } else if ((arg[0] == 114 && arg[1] == 114) || (arg[0] == 115 && arg[1] == 115))
        && is_bit_char(arg[2]) {
        register_pair_code_order().map_values(
            |p: u8| (p * 2 + bit_char_value(arg[2])) as u8,
        )
    } else if is_bit_char(arg[0]) && is_bit_char(arg[1]) && is_bit_char(arg[2]) {
        seq![
            (bit_char_value(arg[0]) * 4 + bit_char_value(arg[1]) * 2 + bit_char_value(
                arg[2],
            )) as u8,
        ]
    } else {
        Seq::empty()
    }
}

/// The value of a two-character literal prefix, when it is one.
pub open spec fn spec_prefix_value(prefix: Seq<u8>) -> Option<int> {
    if prefix.len() == 2 && is_bit_char(prefix[0]) && is_bit_char(prefix[1]) {
        Some(bit_char_value(prefix[0]) * 2 + bit_char_value(prefix[1]))
    } else {
        None
    }
}

/// The opcode bytes formed from one first-argument value and the first
/// `m` second-argument values.
pub open spec fn cross_one_up_to(prefix_value: int, x: u8, v2: Seq<u8>, m: int) -> Seq<u8>
    decreases m,
{
    if m <= 0 {
        Seq::empty()
    } else {
        cross_one_up_to(prefix_value, x, v2, m - 1) + seq![
            (prefix_value * 64 + x * 8 + v2[m - 1]) as u8,
        ]
    }
}

/// The opcode bytes formed from the first `n` first-argument values and
/// all second-argument values, first argument outermost.
pub open spec fn cross_up_to(prefix_value: int, v1: Seq<u8>, v2: Seq<u8>, n: int) -> Seq<u8>
    decreases n,
{
    if n <= 0 {
        Seq::empty()
    } else {
        cross_up_to(prefix_value, v1, v2, n - 1) + cross_one_up_to(
            prefix_value,
            v1[n - 1],
            v2,
            v2.len() as int,
        )
    }
}

/// The opcode bytes a split template admits: every combination of the two
/// arguments' values under the literal prefix, first argument outermost.
pub open spec fn spec_opcode_variations(prefix: Seq<u8>, arg1: Seq<u8>, arg2: Seq<u8>) -> Seq<u8> {
    match spec_prefix_value(prefix) {
        None => Seq::empty(),
        Some(prefix_value) => cross_up_to(
            prefix_value,
            spec_argument_variations(arg1),
            spec_argument_variations(arg2),
            spec_argument_variations(arg1).len() as int,
        ),
    }
}

/// The 3-bit values a template argument admits, in enumeration order.
fn argument_variations(arg: &Vec<u8>) -> (r: Vec<u8>)
    ensures
        r@ == spec_argument_variations(arg@),
{
    let mut variations: Vec<u8> = Vec::new();

    if arg.len() != 3 {
        return variations;
    }

    let c0 = arg[0];
    let c1 = arg[1];
    let c2 = arg[2];

    if (c0 == 114 && c1 == 114 && c2 == 114) || (c0 == 115 && c1 == 115 && c2 == 115) {
        variations.push(7);
        variations.push(0);
        variations.push(1);
        variations.push(2);
        variations.push(3);
        variations.push(4);
        variations.push(5);

        proof {
            assert(variations@ =~= spec_argument_variations(arg@));
        }
    } else if (c0 == 48 || c0 == 49) && ((c1 == 114 && c2 == 114) || (c1 == 115 && c2 == 115)) {
        let high: u8 = if c0 == 49 {
            4
        } else {
            0
        };

        variations.push(high + 3);
        variations.push(high);
        variations.push(high + 1);
        variations.push(high + 2);

        proof {
            assert(variations@ =~= spec_argument_variations(arg@));
        }
    } else if ((c0 == 114 && c1 == 114) || (c0 == 115 && c1 == 115)) && (c2 == 48 || c2 == 49) {
        let low: u8 = if c2 == 49 {
            1
        } else {
            0
        };

        variations.push(6 + low);
        variations.push(low);
        variations.push(2 + low);
        variations.push(4 + low);

        proof {
            assert(variations@ =~= spec_argument_variations(arg@));
        }
    } else if (c0 == 48 || c0 == 49) && (c1 == 48 || c1 == 49) && (c2 == 48 || c2 == 49) {
        let v0: u8 = if c0 == 49 {
            4
        } else {
            0
        };
        let v1: u8 = if c1 == 49 {
            2
        } else {
            0
        };
        let v2: u8 = if c2 == 49 {
            1
        } else {
            0
        };

        variations.push(v0 + v1 + v2);

        proof {
            assert(variations@ =~= spec_argument_variations(arg@));
        }
    }

    variations
}

/// The opcode bytes a split template admits, first argument outermost.
fn opcode_variations_bytes(prefix: &Vec<u8>, arg1: &Vec<u8>, arg2: &Vec<u8>) -> (r: Vec<u8>)
    ensures
        r@ == spec_opcode_variations(prefix@, arg1@, arg2@),
{
    let mut variations: Vec<u8> = Vec::new();

    if !(prefix.len() == 2 && (prefix[0] == 48 || prefix[0] == 49) && (prefix[1] == 48 || prefix[1]
        == 49)) {
        return variations;
    }

    let prefix_value: u8 = (if prefix[0] == 49 {
        2
    } else {
        0
    }) + (if prefix[1] == 49 {
        1
    } else {
        0
    });

    let first = argument_variations(arg1);
    let second = argument_variations(arg2);

    proof {
        assert forall|k: int| 0 <= k < first@.len() implies (#[trigger] first@[k]) < 8 by {
            assert(first@ == spec_argument_variations(arg1@));
        }
        assert forall|k: int| 0 <= k < second@.len() implies (#[trigger] second@[k]) < 8 by {
            assert(second@ == spec_argument_variations(arg2@));
        }
    }

    let mut i: usize = 0;

    while i < first.len()
        invariant
            i <= first@.len(),
            prefix_value < 4,
            spec_prefix_value(prefix@) == Some(prefix_value as int),
            first@ == spec_argument_variations(arg1@),
            second@ == spec_argument_variations(arg2@),
            forall|k: int| 0 <= k < first@.len() ==> #[trigger] first@[k] < 8,
            variations@ == cross_up_to(prefix_value as int, first@, second@, i as int),
        decreases first@.len() - i,
    {
        let x = first[i];

        let mut j: usize = 0;

        while j < second.len()
            invariant
                j <= second@.len(),
                i < first@.len(),
                x == first@[i as int],
                x < 8,
                prefix_value < 4,
                forall|k: int| 0 <= k < second@.len() ==> #[trigger] second@[k] < 8,
                variations@ == cross_up_to(prefix_value as int, first@, second@, i as int)
                    + cross_one_up_to(prefix_value as int, x, second@, j as int),
            decreases second@.len() - j,
        {
            variations.push(prefix_value * 64 + x * 8 + second[j]);

            j = j + 1;
        }

        i = i + 1;
    }

    variations
}

/// Expands a split opcode template: a two-bit literal prefix and two
/// three-bit arguments, each argument a register field, a register-pair
/// field with its literal bit, or three fixed bits.
pub fn opcode_variations(prefix: &str, arg1: &str, arg2: &str) -> (r: Vec<u8>)
    ensures
        r@ == spec_opcode_variations(prefix.spec_bytes(), arg1.spec_bytes(), arg2.spec_bytes()),
{
    let prefix_bytes = bytes_of(prefix);
    let arg1_bytes = bytes_of(arg1);
    let arg2_bytes = bytes_of(arg2);

    opcode_variations_bytes(&prefix_bytes, &arg1_bytes, &arg2_bytes)
}

/// A parsed opcode template: its literal prefix, its two argument fields,
/// and the concrete opcode bytes it admits.
pub struct Opcode {
    /// The first three-bit argument field.
    pub arg1: Vec<u8>,
    /// The second three-bit argument field.
    pub arg2: Vec<u8>,
    /// The two-bit literal prefix.
    pub prefix: Vec<u8>,
    /// The concrete opcode bytes the template admits.
    pub variations: Vec<u8>,
}

impl Opcode {
    /// Parses a pattern into its prefix and argument fields and expands
    /// it; a pattern without exactly eight significant characters admits
    /// nothing.
    pub fn new(pattern: &str) -> (r: Opcode)
        ensures
            ({
                let t = crate::opcode::stripped_template(pattern.spec_bytes());
                if t.len() == 8 {
                    &&& r.prefix@ == t.subrange(0, 2)
                    &&& r.arg1@ == t.subrange(2, 5)
                    &&& r.arg2@ == t.subrange(5, 8)
                    &&& r.variations@ == spec_opcode_variations(
                        t.subrange(0, 2),
                        t.subrange(2, 5),
                        t.subrange(5, 8),
                    )
                } else {
                    &&& r.prefix@.len() == 0
                    &&& r.arg1@.len() == 0
                    &&& r.arg2@.len() == 0
                    &&& r.variations@.len() == 0
                }
            }),
    {
        let bytes = pattern.as_bytes();

        let mut template: Vec<u8> = Vec::new();
        let mut i: usize = 0;

        while i < bytes.len()
            invariant
                i <= bytes@.len(),
                template@ == bytes@.subrange(0, i as int).filter(|c: u8| c != 32),
            decreases bytes@.len() - i,
        {
            proof {
                assert(bytes@.subrange(0, i + 1 as int) =~= bytes@.subrange(0, i as int).push(
                    bytes@[i as int],
                ));
            }

            if bytes[i] != 32 {
                template.push(bytes[i]);
            }

            i = i + 1;
        }

        proof {
            assert(bytes@.subrange(0, bytes@.len() as int) =~= bytes@);
        }

        if template.len() != 8 {
            return Opcode {
                arg1: Vec::new(),
                arg2: Vec::new(),
                prefix: Vec::new(),
                variations: Vec::new(),
            };
        }

        let mut prefix: Vec<u8> = Vec::new();

        prefix.push(template[0]);
        prefix.push(template[1]);

        let mut arg1: Vec<u8> = Vec::new();

        arg1.push(template[2]);
        arg1.push(template[3]);
        arg1.push(template[4]);

        let mut arg2: Vec<u8> = Vec::new();

        arg2.push(template[5]);
        arg2.push(template[6]);
        arg2.push(template[7]);

        proof {
            assert(prefix@ =~= template@.subrange(0, 2));
            assert(arg1@ =~= template@.subrange(2, 5));
            assert(arg2@ =~= template@.subrange(5, 8));
        }

        let variations = opcode_variations_bytes(&prefix, &arg1, &arg2);

        Opcode { arg1, arg2, prefix, variations }
    }

    /// The number of concrete opcode bytes the template admits.
    pub fn len(&self) -> (r: usize)
        ensures
            r == self.variations@.len(),
    {
        self.variations.len()
    }
}

/// The bytes of a string.
fn bytes_of(s: &str) -> (r: Vec<u8>)
    ensures
        r@ == s.spec_bytes(),
{
    let bytes = s.as_bytes();

    let mut out: Vec<u8> = Vec::new();
    let mut i: usize = 0;

    while i < bytes.len()
        invariant
            i <= bytes@.len(),
            out@ == bytes@.subrange(0, i as int),
        decreases bytes@.len() - i,
    {
        out.push(bytes[i]);

        i = i + 1;

        proof {
            assert(out@ =~= bytes@.subrange(0, i as int));
        }
    }

    proof {
        assert(out@ =~= bytes@);
    }

    out
}

} // verus!
