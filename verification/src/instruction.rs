//! The 16-bit CHIP-8 instruction word and its fields.

use vstd::prelude::*;
use vstd::string::StringExecFns;

verus! {

/// A raw 16-bit opcode. Every 16-bit value is an instruction, whether the
/// engine recognises it or not.
#[derive(Clone, Copy, Debug, PartialEq, Eq, Structural, Hash, PartialOrd, Ord)]
pub struct Instruction {
    raw: u16,
}

impl View for Instruction {
    type V = u16;

    /// The opcode itself.
    closed spec fn view(&self) -> u16 {
        self.raw
    }
}

/// The upper-case hexadecimal digit that stands for a value below sixteen.
pub open spec fn hex_digit(value: u8) -> char {
    if value < 10 {
        (value + 48) as char
    } else {
        (value + 55) as char
    }
}

/// Returns the one-character text of a hexadecimal digit.
fn hex_digit_str(value: u8) -> (r: &'static str)
    requires
        value < 16,
    ensures
        r@ == seq![hex_digit(value)],
{
    proof {
        reveal_strlit("0");
        reveal_strlit("1");
        reveal_strlit("2");
        reveal_strlit("3");
        reveal_strlit("4");
        reveal_strlit("5");
        reveal_strlit("6");
        reveal_strlit("7");
        reveal_strlit("8");
        reveal_strlit("9");
        reveal_strlit("A");
        reveal_strlit("B");
        reveal_strlit("C");
        reveal_strlit("D");
        reveal_strlit("E");
        reveal_strlit("F");
    }
    let text = match value {
        0 => "0",
        1 => "1",
        2 => "2",
        3 => "3",
        4 => "4",
        5 => "5",
        6 => "6",
        7 => "7",
        8 => "8",
        9 => "9",
        10 => "A",
        11 => "B",
        12 => "C",
        13 => "D",
        14 => "E",
        _ => "F",
    };
    text
}

impl Instruction {
    /// The four nibbles, most significant first.
    pub open spec fn spec_nibbles(self) -> (u8, u8, u8, u8) {
        (
            ((self@ & 0xF000) >> 12) as u8,
            ((self@ & 0x0F00) >> 8) as u8,
            ((self@ & 0x00F0) >> 4) as u8,
            (self@ & 0x000F) as u8,
        )
    }

    /// The register selector `x`: bits 8 to 11.
    pub open spec fn spec_x(self) -> usize {
        ((self@ & 0x0F00) >> 8) as usize
    }

    /// The register selector `y`: bits 4 to 7.
    pub open spec fn spec_y(self) -> usize {
        ((self@ & 0x00F0) >> 4) as usize
    }

    /// The immediate nibble `n`: bits 0 to 3.
    pub open spec fn spec_n(self) -> usize {
        (self@ & 0x000F) as usize
    }

    /// The immediate byte `nn`: bits 0 to 7.
    pub open spec fn spec_nn(self) -> u8 {
        (self@ & 0x00FF) as u8
    }

    /// The immediate address `nnn`: bits 0 to 11.
    pub open spec fn spec_nnn(self) -> usize {
        (self@ & 0x0FFF) as usize
    }

    /// The diagnostic rendering: `0x` and four upper-case hexadecimal digits.
    pub open spec fn spec_to_string(self) -> Seq<char> {
        let (a, b, c, d) = self.spec_nibbles();
        seq!['0', 'x', hex_digit(a), hex_digit(b), hex_digit(c), hex_digit(d)]
    }

    /// Every field lies within the width of its bits, and the nibbles make
    /// up the opcode again.
    pub proof fn lemma_fields(self)
        ensures
            self.spec_nibbles().0 < 16,
            self.spec_nibbles().1 < 16,
            self.spec_nibbles().2 < 16,
            self.spec_nibbles().3 < 16,
            self.spec_x() == self.spec_nibbles().1,
            self.spec_y() == self.spec_nibbles().2,
            self.spec_n() == self.spec_nibbles().3,
            self.spec_nn() == self.spec_nibbles().2 * 16 + self.spec_nibbles().3,
            self.spec_nnn() == self.spec_nibbles().1 * 256 + self.spec_nn(),
            self@ == self.spec_nibbles().0 * 4096 + self.spec_nnn(),
    {
        let raw = self@;
        assert((raw & 0xF000) >> 12 < 16 && (raw & 0x0F00) >> 8 < 16 && (raw & 0x00F0) >> 4 < 16
            && (raw & 0x000F) < 16 && (raw & 0x00FF) < 256 && (raw & 0x0FFF) < 4096) by (bit_vector);
        assert((raw & 0x00FF) == ((raw & 0x00F0) >> 4) * 16 + (raw & 0x000F)) by (bit_vector);
        assert((raw & 0x0FFF) == ((raw & 0x0F00) >> 8) * 256 + (raw & 0x00FF)) by (bit_vector);
        assert(raw == ((raw & 0xF000) >> 12) * 4096 + (raw & 0x0FFF)) by (bit_vector);
    }

    /// Returns the diagnostic rendering of the opcode, such as `0x00E0`.
    pub fn to_string(&self) -> (r: String)
        ensures
            r@ == self.spec_to_string(),
    {
        let (a, b, c, d) = self.nibbles();
        proof {
            reveal_strlit("0x");
        }
        let mut text = String::from_str("0x");
        text.append(hex_digit_str(a));
        text.append(hex_digit_str(b));
        text.append(hex_digit_str(c));
        text.append(hex_digit_str(d));
        text
    }

    /// The instruction whose opcode is `raw`.
    pub closed spec fn spec_new(raw: u16) -> Instruction {
        Instruction { raw }
    }

    /// An instruction is its opcode, no more: the instruction made from an
    /// opcode has that opcode, and an instruction is the one made from its
    /// opcode.
    pub broadcast proof fn lemma_opcode(raw: u16)
        ensures
            (#[trigger] Self::spec_new(raw))@ == raw,
            forall|op: Instruction| op@ == raw ==> op == Self::spec_new(raw),
    {
    }

    /// Wraps a raw opcode.
    #[verifier::when_used_as_spec(spec_new)]
    pub fn new(raw: u16) -> (r: Self)
        ensures
            r == Self::spec_new(raw),
            r@ == raw,
    {
        Self { raw }
    }

    /// Returns all four nibbles, most significant first.
    pub fn nibbles(&self) -> (r: (u8, u8, u8, u8))
        ensures
            r == self.spec_nibbles(),
            r.0 < 16 && r.1 < 16 && r.2 < 16 && r.3 < 16,
    {
        proof {
            self.lemma_fields();
        }
        (
            ((self.raw & 0xF000) >> 12) as u8,
            ((self.raw & 0x0F00) >> 8) as u8,
            ((self.raw & 0x00F0) >> 4) as u8,
            (self.raw & 0x000F) as u8,
        )
    }

    /// Returns the second nibble, a register selector.
    pub fn x(&self) -> (r: usize)
        ensures
            r == self.spec_x(),
            r < 16,
    {
        proof {
            self.lemma_fields();
        }
        ((self.raw & 0x0F00) >> 8) as usize
    }

    /// Returns the third nibble, a register selector.
    pub fn y(&self) -> (r: usize)
        ensures
            r == self.spec_y(),
            r < 16,
    {
        proof {
            self.lemma_fields();
        }
        ((self.raw & 0x00F0) >> 4) as usize
    }

    /// Returns the last nibble, a size.
    pub fn n(&self) -> (r: usize)
        ensures
            r == self.spec_n(),
            r < 16,
    {
        proof {
            self.lemma_fields();
        }
        (self.raw & 0x000F) as usize
    }

    /// Returns the last eight bits, a constant.
    pub fn nn(&self) -> (r: u8)
        ensures
            r == self.spec_nn(),
    {
        proof {
            self.lemma_fields();
        }
        (self.raw & 0x00FF) as u8
    }

    /// Returns the last twelve bits, a memory address.
    pub fn nnn(&self) -> (r: usize)
        ensures
            r == self.spec_nnn(),
            r < 4096,
    {
        proof {
            self.lemma_fields();
        }
        (self.raw & 0x0FFF) as usize
    }
}

} // verus!
