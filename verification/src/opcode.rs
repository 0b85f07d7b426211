//! The raw instruction word and its fields.

use vstd::prelude::*;

verus! {

/// A fetched 16-bit instruction word, held as its four nibbles from the most
/// significant (`n1`) to the least significant (`n4`).
pub struct Opcode {
    n1: u8,
    n2: u8,
    n3: u8,
    n4: u8,
}

/// How a word is made of its four nibbles.
pub proof fn lemma_nibbles_of_word(word: u16)
    by (bit_vector)
    ensures
        word == (word / 4096) * 4096 + (word / 256 % 16) * 256 + (word / 16 % 16) * 16 + word % 16,
        word % 4096 == (word / 256 % 16) * 256 + (word / 16 % 16) * 16 + word % 16,
        word % 256 == (word / 16 % 16) * 16 + word % 16,
        word / 4096 < 16,
{
}

/// How a word made of four nibbles divides back into them.
pub proof fn lemma_word_of_nibbles(n1: u8, n2: u8, n3: u8, n4: u8)
    by (bit_vector)
    requires
        n1 < 16,
        n2 < 16,
        n3 < 16,
        n4 < 16,
    ensures
        (n1 * 4096 + n2 * 256 + n3 * 16 + n4) / 4096 == n1,
        (n1 * 4096 + n2 * 256 + n3 * 16 + n4) / 256 % 16 == n2,
        (n1 * 4096 + n2 * 256 + n3 * 16 + n4) / 16 % 16 == n3,
        (n1 * 4096 + n2 * 256 + n3 * 16 + n4) % 16 == n4,
        (n1 * 4096 + n2 * 256 + n3 * 16 + n4) % 256 == n3 * 16 + n4,
        (n1 * 4096 + n2 * 256 + n3 * 16 + n4) % 4096 == n2 * 256 + n3 * 16 + n4,
        n1 * 4096 + n2 * 256 + n3 * 16 + n4 < 65536,
        n3 << 4 == n3 * 16,
{
}

impl View for Opcode {
    type V = int;

    /// The 16-bit word that the four nibbles spell.
    closed spec fn view(&self) -> int {
        self.n1 * 4096 + self.n2 * 256 + self.n3 * 16 + self.n4
    }
}

impl Opcode {
    #[verifier::type_invariant]
    spec fn nibbles_in_range(&self) -> bool {
        self.n1 < 16 && self.n2 < 16 && self.n3 < 16 && self.n4 < 16
    }

    /// The opcode whose nibbles are those of `word`.
    pub closed spec fn of_word(word: u16) -> Opcode {
        Opcode {
            n1: (word / 4096) as u8,
            n2: (word / 256 % 16) as u8,
            n3: (word / 16 % 16) as u8,
            n4: (word % 16) as u8,
        }
    }

    /// The whole word.
    pub fn word(&self) -> (w: u16)
        ensures
            w == self@,
    {
        proof {
            use_type_invariant(self);
            lemma_word_of_nibbles(self.n1, self.n2, self.n3, self.n4);
        }
        (self.n1 as u16) * 4096 + (self.n2 as u16) * 256 + (self.n3 as u16) * 16 + (self.n4 as u16)
    }

    /// The 12-bit address in the low three nibbles.
    pub fn addr(&self) -> (a: u16)
        ensures
            a == self@ % 4096,
    {
        proof {
            use_type_invariant(self);
            lemma_word_of_nibbles(self.n1, self.n2, self.n3, self.n4);
        }
        (self.n2 as u16) * 256 + (self.n3 as u16) * 16 + (self.n4 as u16)
    }

    /// The four nibbles, most significant first.
    pub fn nibbles(&self) -> (n: (u8, u8, u8, u8))
        ensures
            n.0 == self@ / 4096,
            n.1 == self@ / 256 % 16,
            n.2 == self@ / 16 % 16,
            n.3 == self@ % 16,
            0 <= self@ < 65536,
    {
        proof {
            use_type_invariant(self);
            lemma_word_of_nibbles(self.n1, self.n2, self.n3, self.n4);
        }
        (self.n1, self.n2, self.n3, self.n4)
    }

    /// The lowest nibble: a sprite height or a sub-opcode selector.
    pub fn nibble(&self) -> (n: u8)
        ensures
            n == self@ % 16,
    {
        proof {
            use_type_invariant(self);
            lemma_word_of_nibbles(self.n1, self.n2, self.n3, self.n4);
        }
        self.n4
    }

    /// The first register operand: the second nibble.
    pub fn x(&self) -> (x: usize)
        ensures
            x == self@ / 256 % 16,
    {
        proof {
            use_type_invariant(self);
            lemma_word_of_nibbles(self.n1, self.n2, self.n3, self.n4);
        }
        self.n2 as usize
    }

    /// The second register operand: the third nibble.
    pub fn y(&self) -> (y: usize)
        ensures
            y == self@ / 16 % 16,
    {
        proof {
            use_type_invariant(self);
            lemma_word_of_nibbles(self.n1, self.n2, self.n3, self.n4);
        }
        self.n3 as usize
    }

    /// The immediate byte in the low two nibbles.
    pub fn byte(&self) -> (b: u8)
        ensures
            b == self@ % 256,
    {
        proof {
            use_type_invariant(self);
            lemma_word_of_nibbles(self.n1, self.n2, self.n3, self.n4);
        }
        (self.n3 << 4) + self.n4
    }
}

impl From<u16> for Opcode {
    /// Splits a word into its nibbles.
    fn from(value: u16) -> (op: Opcode)
        ensures
            op@ == value,
    {
        assert((value & 0xF000) >> 12 == value / 4096) by (bit_vector);
        assert((value & 0x0F00) >> 8 == value / 256 % 16) by (bit_vector);
        assert((value & 0x00F0) >> 4 == value / 16 % 16) by (bit_vector);
        assert(value & 0x000F == value % 16) by (bit_vector);
        assert(value == (value / 4096) * 4096 + (value / 256 % 16) * 256 + (value / 16 % 16) * 16
            + value % 16) by (bit_vector);
        assert(value / 4096 < 16 && value / 256 % 16 < 16 && value / 16 % 16 < 16 && value % 16
            < 16) by (bit_vector);
        Opcode {
            n1: ((value & 0xF000) >> 12) as u8,
            n2: ((value & 0x0F00) >> 8) as u8,
            n3: ((value & 0x00F0) >> 4) as u8,
            n4: (value & 0x000F) as u8,
        }
    }
}

impl vstd::std_specs::convert::FromSpecImpl<u16> for Opcode {
    open spec fn obeys_from_spec() -> bool {
        true
    }

    open spec fn from_spec(value: u16) -> Opcode {
        Opcode::of_word(value)
    }
}

} // verus!
