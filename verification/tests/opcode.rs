use capp8_core::opcode::Opcode;

#[test]
fn opcode_splits_a_word_into_nibbles() {
    let opcode = Opcode::from(0xD12F);
    assert_eq!(opcode.nibbles(), (0xD, 0x1, 0x2, 0xF));
    assert_eq!(opcode.addr(), 0x12F);
    assert_eq!(opcode.byte(), 0x2F);
    assert_eq!(opcode.x(), 1);
    assert_eq!(opcode.y(), 2);
    assert_eq!(opcode.nibble(), 0xF);
    assert_eq!(opcode.word(), 0xD12F);
}

#[test]
fn opcode_fields_of_the_extreme_words() {
    let zero = Opcode::from(0x0000);
    assert_eq!(zero.nibbles(), (0, 0, 0, 0));
    assert_eq!(zero.addr(), 0);
    assert_eq!(zero.byte(), 0);
    let ones = Opcode::from(0xFFFF);
    assert_eq!(ones.nibbles(), (0xF, 0xF, 0xF, 0xF));
    assert_eq!(ones.addr(), 0xFFF);
    assert_eq!(ones.byte(), 0xFF);
    assert_eq!(ones.x(), 15);
    assert_eq!(ones.y(), 15);
    assert_eq!(ones.nibble(), 15);
}

#[test]
fn opcode_word_is_the_word_it_was_made_from() {
    for word in 0..=u16::MAX {
        let opcode = Opcode::from(word);
        assert_eq!(opcode.word(), word);
        assert_eq!(opcode.addr(), word & 0x0FFF);
        assert_eq!(opcode.byte(), (word & 0x00FF) as u8);
        assert_eq!(opcode.x(), ((word >> 8) & 0xF) as usize);
        assert_eq!(opcode.y(), ((word >> 4) & 0xF) as usize);
        assert_eq!(opcode.nibble(), (word & 0xF) as u8);
    }
}
