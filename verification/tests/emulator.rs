use capp8_core::emulator::Emulator;
use capp8_core::error::{EmulatorError, RomLoadError};
use capp8_core::fonts::FONTS;
use capp8_core::instruction::Instruction;

/// Five periods of the 60 Hz clock, in nanoseconds.
const FIVE_TICKS: u64 = 5 * 16_667_000;

fn machine(rom: &[u8]) -> Emulator {
    Emulator::new(rom).unwrap()
}

fn set(emulator: &mut Emulator, reg: usize, imm: u8) {
    emulator.execute(Instruction::StoreRegFromImm { reg, imm }).unwrap();
}

fn lit(emulator: &Emulator) -> Vec<(usize, usize)> {
    let mut pixels = Vec::new();
    for y in 0..32 {
        for x in 0..64 {
            if emulator.display()[(x, y)] {
                pixels.push((x, y));
            }
        }
    }
    pixels
}

fn keys(down: &[usize]) -> [bool; 16] {
    let mut keypad = [false; 16];
    for &key in down {
        keypad[key] = true;
    }
    keypad
}

#[test]
fn new_loads_the_glyphs_and_the_image() {
    let emulator = machine(&[0x12, 0x34, 0x56]);
    let memory = emulator.memory();
    assert!(memory[..0x50].iter().all(|&byte| byte == 0));
    assert_eq!(&memory[0x50..0xA0], &FONTS[..]);
    assert!(memory[0xA0..0x200].iter().all(|&byte| byte == 0));
    assert_eq!(&memory[0x200..0x203], &[0x12, 0x34, 0x56]);
    assert!(memory[0x203..].iter().all(|&byte| byte == 0));
    assert_eq!(emulator.program_counter(), 0x200);
    assert_eq!(emulator.index(), 0);
    assert_eq!(emulator.registers(), &[0; 16]);
    assert_eq!(emulator.stack(), &[0; 16]);
    assert_eq!(emulator.stack_pointer(), 0);
    assert_eq!(emulator.delay_timer(), 0);
    assert_eq!(emulator.sound_timer(), 0);
    assert!(lit(&emulator).is_empty());
}

#[test]
fn new_takes_an_image_that_fills_memory_and_refuses_a_longer_one() {
    let full = vec![0xAB; 3584];
    let emulator = machine(&full);
    assert_eq!(emulator.memory()[0x200], 0xAB);
    assert_eq!(emulator.memory()[4095], 0xAB);
    let too_long = vec![0xAB; 3585];
    assert!(matches!(Emulator::new(&too_long), Err(RomLoadError { len: 3585 })));
    assert!(Emulator::new(&[]).is_ok());
}

#[test]
fn add_wraps_and_sets_the_carry() {
    let mut emulator = machine(&[]);
    set(&mut emulator, 0, 250);
    set(&mut emulator, 1, 10);
    emulator.execute(Instruction::AddRegReg { reg_x: 0, reg_y: 1 }).unwrap();
    assert_eq!(emulator.registers()[0], 4);
    assert_eq!(emulator.registers()[0xF], 1);
    set(&mut emulator, 0, 10);
    set(&mut emulator, 1, 20);
    emulator.execute(Instruction::AddRegReg { reg_x: 0, reg_y: 1 }).unwrap();
    assert_eq!(emulator.registers()[0], 30);
    assert_eq!(emulator.registers()[0xF], 0);
}

#[test]
fn add_through_a_program() {
    // V0 = 250; V1 = 10; V0 += V1
    let mut emulator = machine(&[0x60, 0xFA, 0x61, 0x0A, 0x80, 0x14]);
    for _ in 0..3 {
        emulator.step(0).unwrap();
    }
    assert_eq!(emulator.registers()[0], 4);
    assert_eq!(emulator.registers()[0xF], 1);
    assert_eq!(emulator.program_counter(), 0x206);
}

#[test]
fn add_into_the_flag_register_keeps_the_flag() {
    let mut emulator = machine(&[]);
    set(&mut emulator, 0xF, 200);
    set(&mut emulator, 1, 100);
    emulator.execute(Instruction::AddRegReg { reg_x: 0xF, reg_y: 1 }).unwrap();
    assert_eq!(emulator.registers()[0xF], 1);
    set(&mut emulator, 0xF, 1);
    emulator.execute(Instruction::AddRegReg { reg_x: 0xF, reg_y: 1 }).unwrap();
    assert_eq!(emulator.registers()[0xF], 0);
}

#[test]
fn add_immediate_wraps_and_leaves_the_flag() {
    let mut emulator = machine(&[]);
    set(&mut emulator, 0xF, 7);
    set(&mut emulator, 2, 250);
    emulator.execute(Instruction::AddRegImm { reg: 2, imm: 10 }).unwrap();
    assert_eq!(emulator.registers()[2], 4);
    assert_eq!(emulator.registers()[0xF], 7);
}

#[test]
fn subtract_wraps_and_sets_the_flag_unless_it_borrows() {
    let mut emulator = machine(&[]);
    set(&mut emulator, 0, 10);
    set(&mut emulator, 1, 20);
    emulator.execute(Instruction::SubRegReg { reg_x: 0, reg_y: 1 }).unwrap();
    assert_eq!(emulator.registers()[0], 246);
    assert_eq!(emulator.registers()[0xF], 0);
    set(&mut emulator, 0, 20);
    set(&mut emulator, 1, 10);
    emulator.execute(Instruction::SubRegReg { reg_x: 0, reg_y: 1 }).unwrap();
    assert_eq!(emulator.registers()[0], 10);
    assert_eq!(emulator.registers()[0xF], 1);
    set(&mut emulator, 0, 20);
    set(&mut emulator, 1, 20);
    emulator.execute(Instruction::SubRegReg { reg_x: 0, reg_y: 1 }).unwrap();
    assert_eq!(emulator.registers()[0], 0);
    assert_eq!(emulator.registers()[0xF], 1);
}

#[test]
fn subtract_reversed_takes_the_first_from_the_second() {
    let mut emulator = machine(&[]);
    set(&mut emulator, 0, 10);
    set(&mut emulator, 1, 20);
    emulator.execute(Instruction::SubnRegReg { reg_x: 0, reg_y: 1 }).unwrap();
    assert_eq!(emulator.registers()[0], 10);
    assert_eq!(emulator.registers()[1], 20);
    assert_eq!(emulator.registers()[0xF], 1);
    set(&mut emulator, 0, 20);
    set(&mut emulator, 1, 10);
    emulator.execute(Instruction::SubnRegReg { reg_x: 0, reg_y: 1 }).unwrap();
    assert_eq!(emulator.registers()[0], 246);
    assert_eq!(emulator.registers()[0xF], 0);
}

#[test]
fn shifts_set_the_flag_to_the_bit_shifted_out() {
    let mut emulator = machine(&[]);
    set(&mut emulator, 3, 0b1000_0101);
    emulator.execute(Instruction::ShiftRight { reg: 3 }).unwrap();
    assert_eq!(emulator.registers()[3], 0b0100_0010);
    assert_eq!(emulator.registers()[0xF], 1);
    emulator.execute(Instruction::ShiftRight { reg: 3 }).unwrap();
    assert_eq!(emulator.registers()[3], 0b0010_0001);
    assert_eq!(emulator.registers()[0xF], 0);
    set(&mut emulator, 3, 0b1000_0101);
    emulator.execute(Instruction::ShiftLeft { reg: 3 }).unwrap();
    assert_eq!(emulator.registers()[3], 0b0000_1010);
    assert_eq!(emulator.registers()[0xF], 1);
    emulator.execute(Instruction::ShiftLeft { reg: 3 }).unwrap();
    assert_eq!(emulator.registers()[3], 0b0001_0100);
    assert_eq!(emulator.registers()[0xF], 0);
}

#[test]
fn bitwise_instructions_leave_the_flag() {
    let mut emulator = machine(&[]);
    set(&mut emulator, 0xF, 9);
    set(&mut emulator, 0, 0b1100);
    set(&mut emulator, 1, 0b1010);
    emulator.execute(Instruction::OrRegReg { reg_x: 0, reg_y: 1 }).unwrap();
    assert_eq!(emulator.registers()[0], 0b1110);
    set(&mut emulator, 0, 0b1100);
    emulator.execute(Instruction::AndRegReg { reg_x: 0, reg_y: 1 }).unwrap();
    assert_eq!(emulator.registers()[0], 0b1000);
    set(&mut emulator, 0, 0b1100);
    emulator.execute(Instruction::XorRegReg { reg_x: 0, reg_y: 1 }).unwrap();
    assert_eq!(emulator.registers()[0], 0b0110);
    emulator.execute(Instruction::StoreRegFromReg { reg_x: 2, reg_y: 1 }).unwrap();
    assert_eq!(emulator.registers()[2], 0b1010);
    assert_eq!(emulator.registers()[0xF], 9);
}

#[test]
fn bcd_store_writes_the_three_digits() {
    let mut emulator = machine(&[]);
    set(&mut emulator, 4, 234);
    emulator.execute(Instruction::SetI { addr: 0x300 }).unwrap();
    emulator.execute(Instruction::StoreBCD { reg: 4 }).unwrap();
    assert_eq!(&emulator.memory()[0x300..0x303], &[2, 3, 4]);
    assert_eq!(emulator.index(), 0x300);
    set(&mut emulator, 4, 7);
    emulator.execute(Instruction::StoreBCD { reg: 4 }).unwrap();
    assert_eq!(&emulator.memory()[0x300..0x303], &[0, 0, 7]);
    set(&mut emulator, 4, 255);
    emulator.execute(Instruction::StoreBCD { reg: 4 }).unwrap();
    assert_eq!(&emulator.memory()[0x300..0x303], &[2, 5, 5]);
}

#[test]
fn bcd_store_through_a_program() {
    // V4 = 234; I = 0x300; store BCD of V4
    let mut emulator = machine(&[0x64, 0xEA, 0xA3, 0x00, 0xF4, 0x33]);
    for _ in 0..3 {
        emulator.step(0).unwrap();
    }
    assert_eq!(&emulator.memory()[0x300..0x303], &[2, 3, 4]);
}

#[test]
fn wait_for_key_stalls_until_a_key_is_down() {
    // wait for a key into V3
    let mut emulator = machine(&[0xF3, 0x0A]);
    for _ in 0..10 {
        emulator.step(1_000_000).unwrap();
        assert_eq!(emulator.program_counter(), 0x200);
        assert_eq!(emulator.registers(), &[0; 16]);
    }
    emulator.set_keypad(keys(&[9, 7]));
    emulator.step(1_000_000).unwrap();
    assert_eq!(emulator.program_counter(), 0x202);
    assert_eq!(emulator.registers()[3], 7);
}

#[test]
fn wait_for_key_lets_the_timers_run() {
    // V0 = 10; delay = V0; wait for a key into V3
    let mut emulator = machine(&[0x60, 0x0A, 0xF0, 0x15, 0xF3, 0x0A]);
    emulator.step(0).unwrap();
    emulator.step(0).unwrap();
    assert_eq!(emulator.delay_timer(), 10);
    emulator.step(16_667_000).unwrap();
    emulator.step(16_667_000).unwrap();
    assert_eq!(emulator.program_counter(), 0x204);
    assert_eq!(emulator.delay_timer(), 8);
}

#[test]
fn wait_for_key_takes_key_zero() {
    let mut emulator = machine(&[]);
    set(&mut emulator, 5, 0xAA);
    emulator.set_keypad(keys(&[0, 15]));
    emulator.execute(Instruction::WaitKeyPress { reg: 5 }).unwrap();
    assert_eq!(emulator.registers()[5], 0);
    assert_eq!(emulator.program_counter(), 0x200);
    emulator.set_keypad(keys(&[15]));
    emulator.execute(Instruction::WaitKeyPress { reg: 5 }).unwrap();
    assert_eq!(emulator.registers()[5], 15);
    emulator.set_keypad(keys(&[]));
    emulator.execute(Instruction::WaitKeyPress { reg: 5 }).unwrap();
    assert_eq!(emulator.registers()[5], 15);
    assert_eq!(emulator.program_counter(), 0x1FE);
}

#[test]
fn timers_drain_by_the_time_that_has_passed() {
    // V0 = 10; delay = V0; sound = V0; jump to self
    let mut emulator = machine(&[0x60, 0x0A, 0xF0, 0x15, 0xF0, 0x18, 0x12, 0x06]);
    for _ in 0..3 {
        emulator.step(0).unwrap();
    }
    assert_eq!(emulator.delay_timer(), 10);
    assert_eq!(emulator.sound_timer(), 10);
    emulator.step(FIVE_TICKS).unwrap();
    assert_eq!(emulator.delay_timer(), 5);
    assert_eq!(emulator.sound_timer(), 5);
    emulator.step(FIVE_TICKS * 100).unwrap();
    assert_eq!(emulator.delay_timer(), 0);
    assert_eq!(emulator.sound_timer(), 0);
    emulator.step(u64::MAX).unwrap();
    assert_eq!(emulator.delay_timer(), 0);
    assert_eq!(emulator.sound_timer(), 0);
}

#[test]
fn timers_keep_what_is_left_of_a_period() {
    let mut emulator = machine(&[]);
    set(&mut emulator, 0, 3);
    emulator.execute(Instruction::SetDelayTimer { reg: 0 }).unwrap();
    emulator.tick_timers(16_666_999);
    assert_eq!(emulator.delay_timer(), 3);
    emulator.tick_timers(1);
    assert_eq!(emulator.delay_timer(), 2);
    emulator.tick_timers(16_667_000 + 8_000_000);
    assert_eq!(emulator.delay_timer(), 1);
    emulator.tick_timers(8_667_000);
    assert_eq!(emulator.delay_timer(), 0);
    assert_eq!(emulator.sound_timer(), 0);
}

#[test]
fn timers_tick_the_same_in_one_span_or_in_many() {
    let mut at_once = machine(&[]);
    let mut in_parts = machine(&[]);
    for emulator in [&mut at_once, &mut in_parts] {
        set(emulator, 0, 200);
        emulator.execute(Instruction::SetDelayTimer { reg: 0 }).unwrap();
        emulator.execute(Instruction::SetSoundTimer { reg: 0 }).unwrap();
    }
    at_once.tick_timers(1_000_000_000);
    for _ in 0..1000 {
        in_parts.tick_timers(1_000_000);
    }
    // One second holds 59 whole periods of 16.667 ms.
    assert_eq!(at_once.delay_timer(), 141);
    assert_eq!(in_parts.delay_timer(), 141);
    assert_eq!(in_parts.sound_timer(), 141);
}

#[test]
fn load_delay_timer_reads_the_timer() {
    let mut emulator = machine(&[]);
    set(&mut emulator, 0, 77);
    emulator.execute(Instruction::SetDelayTimer { reg: 0 }).unwrap();
    emulator.execute(Instruction::LoadDelayTimer { reg: 9 }).unwrap();
    assert_eq!(emulator.registers()[9], 77);
    assert_eq!(emulator.sound_timer(), 0);
}

#[test]
fn jump_sets_the_program_counter_and_nothing_more() {
    // jump to 0x300
    let mut emulator = machine(&[0x13, 0x00]);
    emulator.step(0).unwrap();
    assert_eq!(emulator.program_counter(), 0x300);
    let mut emulator = machine(&[]);
    emulator.execute(Instruction::Jump { addr: 0x300 }).unwrap();
    assert_eq!(emulator.program_counter(), 0x300);
}

#[test]
fn jump_with_offset_adds_register_zero() {
    let mut emulator = machine(&[]);
    set(&mut emulator, 0, 0xFF);
    emulator.execute(Instruction::JumpWithOffset { addr: 0xFFF }).unwrap();
    assert_eq!(emulator.program_counter(), 0x10FE);
}

#[test]
fn call_and_return_use_the_stack() {
    // 0x200: call 0x206; 0x202: jump to self; 0x206: return
    let mut emulator = machine(&[0x22, 0x06, 0x12, 0x02, 0x00, 0x00, 0x00, 0xEE]);
    emulator.step(0).unwrap();
    assert_eq!(emulator.program_counter(), 0x206);
    assert_eq!(emulator.stack_pointer(), 1);
    assert_eq!(emulator.stack()[1], 0x202);
    emulator.step(0).unwrap();
    assert_eq!(emulator.program_counter(), 0x202);
    assert_eq!(emulator.stack_pointer(), 0);
}

#[test]
fn call_overflows_at_depth_fifteen() {
    let mut emulator = machine(&[]);
    for depth in 1..=15 {
        emulator.execute(Instruction::Call { addr: 0x400 }).unwrap();
        assert_eq!(emulator.stack_pointer(), depth);
    }
    let stack = *emulator.stack();
    assert_eq!(
        emulator.execute(Instruction::Call { addr: 0x500 }),
        Err(EmulatorError::StackOverflow)
    );
    assert_eq!(emulator.stack_pointer(), 15);
    assert_eq!(emulator.program_counter(), 0x400);
    assert_eq!(emulator.stack(), &stack);
}

#[test]
fn return_underflows_on_an_empty_stack() {
    let mut emulator = machine(&[0x00, 0xEE]);
    assert_eq!(emulator.step(FIVE_TICKS), Err(EmulatorError::StackUnderflow));
    assert_eq!(emulator.program_counter(), 0x200);
    assert_eq!(emulator.stack_pointer(), 0);
}

#[test]
fn an_undefined_word_stops_the_machine_where_it_is() {
    // V0 = 10; delay = V0; then a word that spells nothing
    let mut emulator = machine(&[0x60, 0x0A, 0xF0, 0x15, 0xFF, 0xFF]);
    emulator.step(0).unwrap();
    emulator.step(0).unwrap();
    assert_eq!(emulator.step(FIVE_TICKS), Err(EmulatorError::DecodeError { word: 0xFFFF }));
    assert_eq!(emulator.program_counter(), 0x204);
    assert_eq!(emulator.delay_timer(), 10);
    assert_eq!(emulator.step(FIVE_TICKS), Err(EmulatorError::DecodeError { word: 0xFFFF }));
}

#[test]
fn a_system_call_does_nothing() {
    // system call; V1 = 5
    let mut emulator = machine(&[0x01, 0x23, 0x61, 0x05]);
    emulator.step(0).unwrap();
    assert_eq!(emulator.program_counter(), 0x202);
    assert_eq!(emulator.registers(), &[0; 16]);
    emulator.step(0).unwrap();
    assert_eq!(emulator.registers()[1], 5);
}

#[test]
fn fetch_beyond_memory_is_an_error() {
    let mut emulator = machine(&[]);
    emulator.execute(Instruction::Jump { addr: 0xFFF }).unwrap();
    assert_eq!(emulator.step(0), Err(EmulatorError::AddressOutOfRange { address: 0xFFF }));
    assert_eq!(emulator.program_counter(), 0xFFF);
    emulator.execute(Instruction::Jump { addr: 0xFFE }).unwrap();
    // Two zero bytes are a system call.
    assert_eq!(emulator.step(0), Ok(()));
    assert_eq!(emulator.program_counter(), 0x1000);
    assert_eq!(emulator.step(0), Err(EmulatorError::AddressOutOfRange { address: 0x1000 }));
}

#[test]
fn fetch_reads_the_high_byte_first() {
    let emulator = machine(&[0xD1, 0x2F]);
    assert_eq!(emulator.fetch().unwrap().word(), 0xD12F);
}

#[test]
fn skips_move_the_program_counter_by_two_more() {
    let mut emulator = machine(&[]);
    set(&mut emulator, 1, 5);
    set(&mut emulator, 2, 5);
    set(&mut emulator, 3, 6);
    let mut expected = 0x200;
    let cases = [
        (Instruction::SkipRegEqImm { reg: 1, imm: 5 }, true),
        (Instruction::SkipRegEqImm { reg: 1, imm: 6 }, false),
        (Instruction::SkipRegNeqImm { reg: 1, imm: 5 }, false),
        (Instruction::SkipRegNeqImm { reg: 1, imm: 6 }, true),
        (Instruction::SkipRegEqReg { reg_x: 1, reg_y: 2 }, true),
        (Instruction::SkipRegEqReg { reg_x: 1, reg_y: 3 }, false),
        (Instruction::SkipRegNeqReg { reg_x: 1, reg_y: 2 }, false),
        (Instruction::SkipRegNeqReg { reg_x: 1, reg_y: 3 }, true),
    ];
    for (instruction, skips) in cases {
        emulator.execute(instruction).unwrap();
        if skips {
            expected += 2;
        }
        assert_eq!(emulator.program_counter(), expected);
    }
}

#[test]
fn skip_through_a_program() {
    // V1 = 5; skip if V1 == 5; V2 = 1 (skipped); V3 = 1
    let mut emulator = machine(&[0x61, 0x05, 0x31, 0x05, 0x62, 0x01, 0x63, 0x01]);
    for _ in 0..3 {
        emulator.step(0).unwrap();
    }
    assert_eq!(emulator.registers()[2], 0);
    assert_eq!(emulator.registers()[3], 1);
    assert_eq!(emulator.program_counter(), 0x208);
}

#[test]
fn key_skips_go_by_the_key_that_the_register_names() {
    let mut emulator = machine(&[]);
    emulator.set_keypad(keys(&[4]));
    set(&mut emulator, 1, 4);
    set(&mut emulator, 2, 5);
    set(&mut emulator, 3, 20);
    let mut expected = 0x200;
    let cases = [
        (Instruction::SkipIfKey { reg: 1 }, true),
        (Instruction::SkipIfKey { reg: 2 }, false),
        (Instruction::SkipIfKey { reg: 3 }, false),
        (Instruction::SkipIfNotKey { reg: 1 }, false),
        (Instruction::SkipIfNotKey { reg: 2 }, true),
        (Instruction::SkipIfNotKey { reg: 3 }, true),
    ];
    for (instruction, skips) in cases {
        emulator.execute(instruction).unwrap();
        if skips {
            expected += 2;
        }
        assert_eq!(emulator.program_counter(), expected);
    }
}

#[test]
fn index_register_is_set_and_added_to() {
    let mut emulator = machine(&[]);
    emulator.execute(Instruction::SetI { addr: 0xFFF }).unwrap();
    assert_eq!(emulator.index(), 0xFFF);
    set(&mut emulator, 0xF, 3);
    set(&mut emulator, 1, 0xFF);
    emulator.execute(Instruction::AddI { reg: 1 }).unwrap();
    assert_eq!(emulator.index(), 0x10FE);
    assert_eq!(emulator.registers()[0xF], 3);
    for _ in 0..240 {
        emulator.execute(Instruction::AddI { reg: 1 }).unwrap();
    }
    // 0x10FE + 240 * 255 = 65536 + 14, in sixteen bits
    assert_eq!(emulator.index(), 14);
}

#[test]
fn index_of_a_digit_is_the_address_of_its_glyph() {
    let mut emulator = machine(&[]);
    for digit in 0..=15u8 {
        set(&mut emulator, 6, digit);
        emulator.execute(Instruction::SetIToSprite { reg: 6 }).unwrap();
        assert_eq!(emulator.index(), 0x50 + 5 * digit as u16);
        let start = emulator.index() as usize;
        assert_eq!(
            &emulator.memory()[start..start + 5],
            &FONTS[5 * digit as usize..5 * digit as usize + 5]
        );
    }
}

#[test]
fn index_of_a_value_that_is_no_digit_is_an_error() {
    let mut emulator = machine(&[]);
    emulator.execute(Instruction::SetI { addr: 0x123 }).unwrap();
    for value in [16u8, 17, 255] {
        set(&mut emulator, 6, value);
        assert_eq!(
            emulator.execute(Instruction::SetIToSprite { reg: 6 }),
            Err(EmulatorError::InvalidDigit { value })
        );
        assert_eq!(emulator.index(), 0x123);
    }
}

#[test]
fn registers_are_stored_and_loaded_in_ascending_order() {
    let mut emulator = machine(&[]);
    for reg in 0..16usize {
        set(&mut emulator, reg, 0x10 + reg as u8);
    }
    emulator.execute(Instruction::SetI { addr: 0x400 }).unwrap();
    emulator.execute(Instruction::StoreRegisters { reg: 3 }).unwrap();
    assert_eq!(&emulator.memory()[0x400..0x405], &[0x10, 0x11, 0x12, 0x13, 0]);
    assert_eq!(emulator.index(), 0x400);
    emulator.execute(Instruction::StoreRegisters { reg: 15 }).unwrap();
    assert_eq!(emulator.memory()[0x40F], 0x1F);
    assert_eq!(emulator.memory()[0x410], 0);
    emulator.execute(Instruction::SetI { addr: 0x402 }).unwrap();
    emulator.execute(Instruction::LoadRegisters { reg: 1 }).unwrap();
    assert_eq!(&emulator.registers()[..4], &[0x12, 0x13, 0x12, 0x13]);
    emulator.execute(Instruction::LoadRegisters { reg: 0 }).unwrap();
    assert_eq!(emulator.registers()[0], 0x12);
}

#[test]
fn memory_instructions_refuse_addresses_beyond_memory() {
    let mut emulator = machine(&[]);
    set(&mut emulator, 0, 0xFF);
    emulator.execute(Instruction::SetI { addr: 0xFFE }).unwrap();
    let wrong = Err(EmulatorError::AddressOutOfRange { address: 0xFFE });
    assert_eq!(emulator.execute(Instruction::StoreBCD { reg: 0 }), wrong);
    assert_eq!(emulator.execute(Instruction::StoreRegisters { reg: 2 }), wrong);
    assert_eq!(emulator.execute(Instruction::LoadRegisters { reg: 2 }), wrong);
    assert_eq!(emulator.execute(Instruction::Draw { reg_x: 1, reg_y: 1, height: 3 }), wrong);
    assert_eq!(&emulator.memory()[0xFFE..], &[0, 0]);
    assert_eq!(emulator.registers()[0], 0xFF);
    assert_eq!(emulator.execute(Instruction::StoreRegisters { reg: 1 }), Ok(()));
    assert_eq!(&emulator.memory()[0xFFE..], &[0xFF, 0]);
    assert_eq!(emulator.execute(Instruction::LoadRegisters { reg: 1 }), Ok(()));
    assert_eq!(emulator.execute(Instruction::Draw { reg_x: 1, reg_y: 1, height: 2 }), Ok(()));
    emulator.execute(Instruction::SetI { addr: 0xFFD }).unwrap();
    assert_eq!(emulator.execute(Instruction::StoreBCD { reg: 0 }), Ok(()));
    assert_eq!(&emulator.memory()[0xFFD..], &[2, 5, 5]);
}

#[test]
fn draw_without_rows_touches_no_memory() {
    let mut emulator = machine(&[]);
    set(&mut emulator, 1, 0xFF);
    for _ in 0..20 {
        emulator.execute(Instruction::AddI { reg: 1 }).unwrap();
    }
    assert!(emulator.index() > 4096);
    set(&mut emulator, 0xF, 1);
    assert_eq!(emulator.execute(Instruction::Draw { reg_x: 0, reg_y: 0, height: 0 }), Ok(()));
    assert_eq!(emulator.registers()[0xF], 0);
    assert!(lit(&emulator).is_empty());
}

#[test]
fn draw_puts_a_glyph_on_the_display() {
    // V0 = 1; I = glyph of V0; V1 = 10; V2 = 5; draw 5 rows at (V1, V2)
    let mut emulator = machine(&[0x60, 0x01, 0xF0, 0x29, 0x61, 0x0A, 0x62, 0x05, 0xD1, 0x25]);
    for _ in 0..5 {
        emulator.step(0).unwrap();
    }
    // 0x20, 0x60, 0x20, 0x20, 0x70
    assert_eq!(
        lit(&emulator),
        vec![(12, 5), (11, 6), (12, 6), (12, 7), (12, 8), (11, 9), (12, 9), (13, 9)]
    );
    assert_eq!(emulator.registers()[0xF], 0);
}

#[test]
fn draw_wraps_at_the_right_and_at_the_bottom() {
    let mut emulator = machine(&[0xFF, 0x81]);
    emulator.execute(Instruction::SetI { addr: 0x200 }).unwrap();
    // The place itself is reduced to the screen: 62 + 64 and 31 + 32.
    set(&mut emulator, 1, 126);
    set(&mut emulator, 2, 63);
    emulator.execute(Instruction::Draw { reg_x: 1, reg_y: 2, height: 2 }).unwrap();
    assert_eq!(
        lit(&emulator),
        vec![
            (5, 0),
            (62, 0),
            (0, 31),
            (1, 31),
            (2, 31),
            (3, 31),
            (4, 31),
            (5, 31),
            (62, 31),
            (63, 31)
        ]
    );
}

#[test]
fn draw_twice_restores_the_display_and_reports_the_collision() {
    let mut emulator = machine(&[0xF0, 0x0F, 0xAA]);
    emulator.execute(Instruction::SetI { addr: 0x200 }).unwrap();
    set(&mut emulator, 1, 7);
    set(&mut emulator, 2, 3);
    emulator.execute(Instruction::Draw { reg_x: 1, reg_y: 2, height: 3 }).unwrap();
    assert_eq!(emulator.registers()[0xF], 0);
    let once = lit(&emulator);
    assert_eq!(once.len(), 12);
    emulator.execute(Instruction::Draw { reg_x: 1, reg_y: 2, height: 3 }).unwrap();
    assert_eq!(emulator.registers()[0xF], 1);
    assert!(lit(&emulator).is_empty());
    emulator.execute(Instruction::Draw { reg_x: 1, reg_y: 2, height: 3 }).unwrap();
    assert_eq!(emulator.registers()[0xF], 0);
    assert_eq!(lit(&emulator), once);
}

#[test]
fn draw_collides_only_where_a_lit_pixel_goes_dark() {
    let mut emulator = machine(&[0x80, 0x40]);
    emulator.execute(Instruction::SetI { addr: 0x200 }).unwrap();
    emulator.execute(Instruction::Draw { reg_x: 0, reg_y: 0, height: 1 }).unwrap();
    assert_eq!(lit(&emulator), vec![(0, 0)]);
    // The second sprite lights the pixel beside the lit one.
    emulator.execute(Instruction::SetI { addr: 0x201 }).unwrap();
    emulator.execute(Instruction::Draw { reg_x: 0, reg_y: 0, height: 1 }).unwrap();
    assert_eq!(lit(&emulator), vec![(0, 0), (1, 0)]);
    assert_eq!(emulator.registers()[0xF], 0);
}

#[test]
fn clear_screen_turns_every_pixel_off() {
    // I = 0x50; draw 5 rows at (V0, V0); clear the screen
    let mut emulator = machine(&[0xA0, 0x50, 0xD0, 0x05, 0x00, 0xE0]);
    emulator.step(0).unwrap();
    emulator.step(0).unwrap();
    assert_eq!(lit(&emulator).len(), 14);
    emulator.step(0).unwrap();
    assert!(lit(&emulator).is_empty());
    assert_eq!(emulator.program_counter(), 0x206);
}

#[test]
fn random_is_masked() {
    let mut emulator = machine(&[]);
    let mut seen = [false; 16];
    for _ in 0..2000 {
        set(&mut emulator, 2, 0xFF);
        emulator.execute(Instruction::Rand { reg: 2, mask: 0x0F }).unwrap();
        let value = emulator.registers()[2];
        assert!(value <= 0x0F);
        seen[value as usize] = true;
    }
    assert!(seen.iter().all(|&s| s));
    emulator.execute(Instruction::Rand { reg: 2, mask: 0x00 }).unwrap();
    assert_eq!(emulator.registers()[2], 0);
}

#[test]
fn random_byte_is_the_byte_that_is_handed_in() {
    let mut emulator = machine(&[]);
    emulator.execute_with(Instruction::Rand { reg: 2, mask: 0xF0 }, 0xAB).unwrap();
    assert_eq!(emulator.registers()[2], 0xA0);
    emulator.execute_with(Instruction::AddRegImm { reg: 2, imm: 1 }, 0xAB).unwrap();
    assert_eq!(emulator.registers()[2], 0xA1);
}

#[test]
fn random_through_a_program() {
    // V2 = random & 0x07
    let mut emulator = machine(&[0xC2, 0x07]);
    emulator.step(0).unwrap();
    assert!(emulator.registers()[2] <= 7);
    assert_eq!(emulator.program_counter(), 0x202);
}

#[test]
fn set_keypad_replaces_every_key() {
    let mut emulator = machine(&[]);
    emulator.set_keypad(keys(&[1, 2, 3]));
    emulator.set_keypad(keys(&[3]));
    set(&mut emulator, 0, 1);
    emulator.execute(Instruction::SkipIfKey { reg: 0 }).unwrap();
    assert_eq!(emulator.program_counter(), 0x200);
    set(&mut emulator, 0, 3);
    emulator.execute(Instruction::SkipIfKey { reg: 0 }).unwrap();
    assert_eq!(emulator.program_counter(), 0x202);
}
