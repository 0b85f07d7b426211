use capp8_core::fonts::{xor, Font, FontDigit, FontDigitError, FontIndexError, FONTS};

fn print_font(font: &[u8]) {
    for i in 0..5 {
        for shift in (4usize..8usize).rev() {
            let cell = if ((font[i] >> shift) & 1) > 0 { "\u{2B1C}" } else { "\u{2B1B}" };
            println!("{}", cell);
        }
        println!();
    }
}

fn glyph(digit: FontDigit) -> [u8; 5] {
    [
        FONTS[digit.get() * 5],
        FONTS[digit.get() * 5 + 1],
        FONTS[digit.get() * 5 + 2],
        FONTS[digit.get() * 5 + 3],
        FONTS[digit.get() * 5 + 4],
    ]
}

#[test]
fn testone() {
    // 17 is no digit: nothing is drawn for it.
    assert!(matches!(FontDigit::new(17), Err(FontDigitError(17))));
    let digit1 = FontDigit::new(7).unwrap();
    let digit2 = FontDigit::new(2).unwrap();

    let elem = xor(digit1, digit2);

    print_font(&glyph(digit1));
    println!();
    print_font(&glyph(digit2));
    println!();
    print_font(&elem);
    assert_eq!(elem, [0x00, 0x00, 0xD0, 0xC0, 0xB0]);
}

#[test]
fn test_fonts() {
    for value in 0..=15 {
        println!("{}", Font::try_from(value).unwrap().render())
    }
}

#[test]
fn font_digit_accepts_zero_to_fifteen_only() {
    for val in 0..=15usize {
        assert_eq!(FontDigit::new(val).unwrap().get(), val);
    }
    for val in [16usize, 17, 255, usize::MAX] {
        assert!(matches!(FontDigit::new(val), Err(FontDigitError(v)) if v == val));
    }
}

#[test]
fn xor_of_a_digit_with_itself_is_blank() {
    for val in 0..=15usize {
        let digit = FontDigit::new(val).unwrap();
        assert_eq!(xor(digit, digit), [0; 5]);
    }
}

#[test]
fn xor_of_zero_and_one() {
    let zero = FontDigit::new(0).unwrap();
    let one = FontDigit::new(1).unwrap();
    assert_eq!(xor(zero, one), [0xD0, 0xF0, 0xB0, 0xB0, 0x80]);
    assert_eq!(xor(one, zero), [0xD0, 0xF0, 0xB0, 0xB0, 0x80]);
}

#[test]
fn font_of_an_index_holds_the_pixel_map_of_the_glyph() {
    let font = Font::try_from(1usize).unwrap();
    // 0x20, 0x60, 0x20, 0x20, 0x70
    let expected = [
        false, false, true, false, //
        false, true, true, false, //
        false, false, true, false, //
        false, false, true, false, //
        false, true, true, true,
    ];
    assert_eq!(font.sprite(), &expected);
    assert_eq!(
        font.render(),
        "\u{2B1B}\u{2B1B}\u{2B1C}\u{2B1B}\n\
         \u{2B1B}\u{2B1C}\u{2B1C}\u{2B1B}\n\
         \u{2B1B}\u{2B1B}\u{2B1C}\u{2B1B}\n\
         \u{2B1B}\u{2B1B}\u{2B1C}\u{2B1B}\n\
         \u{2B1B}\u{2B1C}\u{2B1C}\u{2B1C}\n"
    );
}

#[test]
fn font_of_an_index_above_fifteen_is_refused() {
    for value in [16usize, 17, 1000, usize::MAX] {
        assert!(matches!(Font::try_from(value), Err(FontIndexError(v)) if v == value));
    }
}

#[test]
fn font_of_rows_has_a_blank_pixel_map() {
    let font = Font::from([0xF0, 0x90, 0x90, 0x90, 0xF0]);
    assert_eq!(font.sprite(), &[false; 20]);
    assert_eq!(
        font.render(),
        "\u{2B1C}\u{2B1C}\u{2B1C}\u{2B1C}\n\
         \u{2B1C}\u{2B1B}\u{2B1B}\u{2B1C}\n\
         \u{2B1C}\u{2B1B}\u{2B1B}\u{2B1C}\n\
         \u{2B1C}\u{2B1B}\u{2B1B}\u{2B1C}\n\
         \u{2B1C}\u{2B1C}\u{2B1C}\u{2B1C}\n"
    );
}

#[test]
fn font_xor_combines_rows() {
    let zero = Font::try_from(0usize).unwrap();
    let one = Font::try_from(1usize).unwrap();
    let both = Font::from([0xD0, 0xF0, 0xB0, 0xB0, 0x80]);
    assert_eq!(zero ^ one, both);
    assert_eq!(zero ^ [0x20, 0x60, 0x20, 0x20, 0x70], both);
    assert_eq!([0x20, 0x60, 0x20, 0x20, 0x70] ^ zero, both);
    assert_eq!((zero ^ one) ^ one, Font::from([0xF0, 0x90, 0x90, 0x90, 0xF0]));
}

#[test]
fn font_holds_the_glyph_table() {
    assert_eq!(Font::FONTS, FONTS);
    assert_eq!(&FONTS[..5], &[0xF0, 0x90, 0x90, 0x90, 0xF0]);
    assert_eq!(&FONTS[75..], &[0xF0, 0x80, 0xF0, 0x80, 0x80]);
}
