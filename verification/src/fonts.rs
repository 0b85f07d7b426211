//! The built-in hexadecimal digit glyphs.

use crate::display::sprite_bit;
use crate::text::push_char;
use vstd::prelude::*;

verus! {

/// The sixteen glyphs for the digits 0 to F, five rows each. Only the four
/// leftmost bits of a row are used.
pub const FONTS: [u8; 80] = [
    0xF0, 0x90, 0x90, 0x90, 0xF0,
    0x20, 0x60, 0x20, 0x20, 0x70,
    0xF0, 0x10, 0xF0, 0x80, 0xF0,
    0xF0, 0x10, 0xF0, 0x10, 0xF0,
    0x90, 0x90, 0xF0, 0x10, 0x10,
    0xF0, 0x80, 0xF0, 0x10, 0xF0,
    0xF0, 0x80, 0xF0, 0x90, 0xF0,
    0xF0, 0x10, 0x20, 0x40, 0x40,
    0xF0, 0x90, 0xF0, 0x90, 0xF0,
    0xF0, 0x90, 0xF0, 0x10, 0xF0,
    0xF0, 0x90, 0xF0, 0x90, 0x90,
    0xE0, 0x90, 0xE0, 0x90, 0xE0,
    0xF0, 0x80, 0x80, 0x80, 0xF0,
    0xE0, 0x90, 0x90, 0x90, 0xE0,
    0xF0, 0x80, 0xF0, 0x80, 0xF0,
    0xF0, 0x80, 0xF0, 0x80, 0x80,
];

/// The five rows of the glyph for `digit`.
pub open spec fn glyph(digit: int) -> Seq<u8> {
    FONTS@.subrange(5 * digit, 5 * digit + 5)
}

/// The four-by-five pixel map of a glyph, row by row: the four leftmost bits
/// of each of its five rows.
pub open spec fn glyph_pixels(rows: Seq<u8>) -> Seq<bool> {
    Seq::new(20, |n: int| sprite_bit(rows[n / 4], n % 4))
}

/// The text that shows a glyph: one line per row, with a white square for
/// each set bit among the four leftmost and a black square for each clear one.
pub open spec fn glyph_text(rows: Seq<u8>) -> Seq<char> {
    Seq::new(
        25,
        |n: int|
            if n % 5 == 4 {
                '\n'
            } else if sprite_bit(rows[n / 5], n % 5) {
                '\u{2B1C}'
            } else {
                '\u{2B1B}'
            },
    )
}

/// Two sequences of five rows XORed one by one.
pub open spec fn xor_rows(a: Seq<u8>, b: Seq<u8>) -> Seq<u8> {
    Seq::new(5, |k: int| a[k] ^ b[k])
}

/// A hexadecimal digit: a value from 0 to 15.
#[derive(Copy, Clone, Debug, PartialEq, Eq)]
pub struct FontDigit(usize);

/// The value that was refused as a digit.
#[derive(Debug)]
pub struct FontDigitError(pub usize);

impl View for FontDigit {
    type V = int;

    closed spec fn view(&self) -> int {
        self.0 as int
    }
}

impl FontDigit {
    #[verifier::type_invariant]
    spec fn in_range(&self) -> bool {
        self.0 <= 0xF
    }

    /// The digit `val`, or an error that holds `val` if it is above 15.
    pub fn new(val: usize) -> (res: Result<FontDigit, FontDigitError>)
        ensures
            val <= 15 ==> res is Ok && res->Ok_0@ == val,
            val > 15 ==> res is Err && res->Err_0.0 == val,
    {
        if val <= 0xF {
            Ok(FontDigit(val))
        } else {
            Err(FontDigitError(val))
        }
    }

    /// The digit's value.
    pub fn get(self) -> (val: usize)
        ensures
            val == self@,
            val <= 15,
    {
        proof {
            use_type_invariant(self);
        }
        self.0
    }
}

/// The glyphs of two digits XORed row by row.
pub fn xor(digit1: FontDigit, digit2: FontDigit) -> (rows: [u8; 5])
    ensures
        rows@ == xor_rows(glyph(digit1@), glyph(digit2@)),
{
    let digit1 = digit1.get() * 5;
    let digit2 = digit2.get() * 5;
    [
        FONTS[digit1] ^ FONTS[digit2],
        FONTS[digit1 + 1] ^ FONTS[digit2 + 1],
        FONTS[digit1 + 2] ^ FONTS[digit2 + 2],
        FONTS[digit1 + 3] ^ FONTS[digit2 + 3],
        FONTS[digit1 + 4] ^ FONTS[digit2 + 4],
    ]
}

/// The index that names no glyph.
#[derive(Debug)]
pub struct FontIndexError(pub usize);

/// Five glyph rows together with a four-by-five pixel map.
#[derive(Copy, Clone, Debug, PartialEq, Eq)]
pub struct Font([u8; 5], [bool; 20]);

impl Font {
    /// The glyph table.
    pub const FONTS: [u8; 80] = FONTS;

    /// The five rows.
    pub closed spec fn rows(&self) -> Seq<u8> {
        self.0@
    }

    /// The pixel map.
    pub closed spec fn pixels(&self) -> Seq<bool> {
        self.1@
    }

    /// The font of a built-in glyph, with the glyph's pixel map.
    pub closed spec fn of_digit(digit: int) -> Font {
        let rows = [
            FONTS[5 * digit],
            FONTS[5 * digit + 1],
            FONTS[5 * digit + 2],
            FONTS[5 * digit + 3],
            FONTS[5 * digit + 4],
        ];
        Font(
            rows,
            [
                sprite_bit(rows[0], 0),
                sprite_bit(rows[0], 1),
                sprite_bit(rows[0], 2),
                sprite_bit(rows[0], 3),
                sprite_bit(rows[1], 0),
                sprite_bit(rows[1], 1),
                sprite_bit(rows[1], 2),
                sprite_bit(rows[1], 3),
                sprite_bit(rows[2], 0),
                sprite_bit(rows[2], 1),
                sprite_bit(rows[2], 2),
                sprite_bit(rows[2], 3),
                sprite_bit(rows[3], 0),
                sprite_bit(rows[3], 1),
                sprite_bit(rows[3], 2),
                sprite_bit(rows[3], 3),
                sprite_bit(rows[4], 0),
                sprite_bit(rows[4], 1),
                sprite_bit(rows[4], 2),
                sprite_bit(rows[4], 3),
            ],
        )
    }

    /// The font of the given rows, with a blank pixel map.
    pub closed spec fn of_rows(rows: [u8; 5]) -> Font {
        Font(rows, vstd::array::spec_array_fill_for_copy_type::<bool, 20>(false))
    }

    /// The font of the rows of `self` XORed one by one with `rhs`, with a
    /// blank pixel map.
    pub closed spec fn xor_with(self, rhs: [u8; 5]) -> Font {
        Font::of_rows(
            [
                self.0[0] ^ rhs[0],
                self.0[1] ^ rhs[1],
                self.0[2] ^ rhs[2],
                self.0[3] ^ rhs[3],
                self.0[4] ^ rhs[4],
            ],
        )
    }

    /// The font of the rows of `self` XORed one by one with those of `rhs`,
    /// with a blank pixel map.
    pub closed spec fn xor_with_font(self, rhs: Font) -> Font {
        self.xor_with(rhs.0)
    }

    /// What `of_digit` holds.
    pub proof fn lemma_of_digit(digit: int)
        requires
            0 <= digit <= 15,
        ensures
            Font::of_digit(digit).rows() == glyph(digit),
            Font::of_digit(digit).pixels() == glyph_pixels(glyph(digit)),
    {
    }

    /// What `of_rows` holds.
    pub proof fn lemma_of_rows(rows: [u8; 5])
        ensures
            Font::of_rows(rows).rows() == rows@,
            Font::of_rows(rows).pixels() == Seq::new(20, |n: int| false),
    {
    }

    /// The pixel map.
    pub fn sprite(&self) -> (pixels: &[bool; 20])
        ensures
            pixels@ == self.pixels(),
    {
        &self.1
    }

    /// The rows as text, whatever the pixel map holds.
    pub fn render(&self) -> (text: String)
        ensures
            text@ == glyph_text(self.rows()),
    {
        let mut text = String::new();
        let mut i: usize = 0;
        while i < 5
            invariant
                i <= 5,
                text@ == glyph_text(self.rows()).take(5 * i),
            decreases 5 - i,
        {
            let mut col: usize = 0;
            while col < 4
                invariant
                    i < 5,
                    col <= 4,
                    text@ == glyph_text(self.rows()).take(5 * i + col),
                decreases 4 - col,
            {
                let shift: u8 = 7 - col as u8;
                let c = if (self.0[i] >> shift) & 1 == 1 {
                    '\u{2B1C}'
                } else {
                    '\u{2B1B}'
                };
                push_char(&mut text, c);
                col += 1;
            }
            push_char(&mut text, '\n');
            i += 1;
        }
        text
    }
}

impl TryFrom<usize> for Font {
    type Error = FontIndexError;

    /// The font of the built-in glyph for `value`, or an error that holds
    /// `value` if it is above 15.
    fn try_from(value: usize) -> (res: Result<Font, FontIndexError>)
        ensures
            value <= 15 ==> res is Ok && res->Ok_0.rows() == glyph(value as int)
                && res->Ok_0.pixels() == glyph_pixels(glyph(value as int)),
            value > 15 ==> res is Err && res->Err_0.0 == value,
    {
        if value <= 15 {
            let start = value * 5;
            let font = [
                FONTS[start],
                FONTS[start + 1],
                FONTS[start + 2],
                FONTS[start + 3],
                FONTS[start + 4],
            ];
            let mut sprite = [false;20];
            let mut i: usize = 0;
            while i < 5
                invariant
                    i <= 5,
                    forall|n: int| 0 <= n < 4 * i ==> sprite@[n] == sprite_bit(font@[n / 4], n % 4),
                decreases 5 - i,
            {
                let mut col: usize = 0;
                while col < 4
                    invariant
                        i < 5,
                        col <= 4,
                        forall|n: int|
                            0 <= n < 4 * i + col ==> sprite@[n] == sprite_bit(font@[n / 4], n % 4),
                    decreases 4 - col,
                {
                    let shift: u8 = 7 - col as u8;
                    sprite[i * 4 + col] = (font[i] >> shift) & 1 == 1;
                    col += 1;
                }
                i += 1;
            }
            let res = Font(font, sprite);
            assert(res.0 =~= Font::of_digit(value as int).0);
            assert(res.1 =~= Font::of_digit(value as int).1);
            Ok(res)
        } else {
            Err(FontIndexError(value))
        }
    }
}

impl vstd::std_specs::convert::TryFromSpecImpl<usize> for Font {
    open spec fn obeys_try_from_spec() -> bool {
        true
    }

    open spec fn try_from_spec(value: usize) -> Result<Font, FontIndexError> {
        if value <= 15 {
            Ok(Font::of_digit(value as int))
        } else {
            Err(FontIndexError(value))
        }
    }
}

impl From<[u8; 5]> for Font {
    /// The font of the given rows. Its pixel map is blank.
    fn from(value: [u8; 5]) -> (font: Font)
        ensures
            font.rows() == value@,
            font.pixels() == Seq::new(20, |n: int| false),
    {
        Font(value, [false;20])
    }
}

impl vstd::std_specs::convert::FromSpecImpl<[u8; 5]> for Font {
    open spec fn obeys_from_spec() -> bool {
        true
    }

    open spec fn from_spec(value: [u8; 5]) -> Font {
        Font::of_rows(value)
    }
}

impl std::ops::BitXor<Font> for Font {
    type Output = Font;

    /// The rows of the two fonts XORed one by one, with a blank pixel map.
    fn bitxor(self, rhs: Font) -> (font: Font)
        ensures
            font.rows() == xor_rows(self.rows(), rhs.rows()),
            font.pixels() == Seq::new(20, |n: int| false),
    {
        Font::from(
            [
                self.0[0] ^ rhs.0[0],
                self.0[1] ^ rhs.0[1],
                self.0[2] ^ rhs.0[2],
                self.0[3] ^ rhs.0[3],
                self.0[4] ^ rhs.0[4],
            ],
        )
    }
}

impl vstd::std_specs::ops::BitXorSpecImpl<Font> for Font {
    open spec fn obeys_bitxor_spec() -> bool {
        true
    }

    open spec fn bitxor_req(self, rhs: Font) -> bool {
        true
    }

    open spec fn bitxor_spec(self, rhs: Font) -> Font {
        self.xor_with_font(rhs)
    }
}

impl std::ops::BitXor<[u8; 5]> for Font {
    type Output = Font;

    /// The font's rows XORed with `rhs` one by one, with a blank pixel map.
    fn bitxor(self, rhs: [u8; 5]) -> (font: Font)
        ensures
            font.rows() == xor_rows(self.rows(), rhs@),
            font.pixels() == Seq::new(20, |n: int| false),
    {
        let rhs: Font = Font::from(rhs);
        self ^ rhs
    }
}

impl vstd::std_specs::ops::BitXorSpecImpl<[u8; 5]> for Font {
    open spec fn obeys_bitxor_spec() -> bool {
        true
    }

    open spec fn bitxor_req(self, rhs: [u8; 5]) -> bool {
        true
    }

    open spec fn bitxor_spec(self, rhs: [u8; 5]) -> Font {
        self.xor_with(rhs)
    }
}

impl std::ops::BitXor<Font> for [u8; 5] {
    type Output = Font;

    /// The rows XORed with those of `rhs` one by one, with a blank pixel map.
    fn bitxor(self, rhs: Font) -> (font: Font)
        ensures
            font.rows() == xor_rows(rhs.rows(), self@),
            font.pixels() == Seq::new(20, |n: int| false),
    {
        rhs ^ self
    }
}

impl vstd::std_specs::ops::BitXorSpecImpl<Font> for [u8; 5] {
    open spec fn obeys_bitxor_spec() -> bool {
        true
    }

    open spec fn bitxor_req(self, rhs: Font) -> bool {
        true
    }

    open spec fn bitxor_spec(self, rhs: Font) -> Font {
        rhs.xor_with(self)
    }
}

} // verus!
