//! The mathematical model of the machine: its state and what a cycle does
//! to it.

use crate::display::{blank, draw_sprite_pixels, sprite_collides};
use crate::error::EmulatorError;
use crate::fonts::FONTS;
use crate::instruction::{decode_word, Instruction};
use vstd::prelude::*;

verus! {

/// The number of bytes of memory.
pub const MEMORY_SIZE: usize = 4096;

/// The address of the first built-in glyph.
pub const FONT_START: u16 = 0x50;

/// The address at which a program image is loaded and started.
pub const PROGRAM_START: u16 = 0x200;

/// The greatest depth of the call stack.
pub const MAX_DEPTH: usize = 15;

/// The time between two ticks of the 60 Hz timers, in nanoseconds.
pub const TIMER_PERIOD: u64 = 16_667_000;

/// The state of the machine.
#[verifier::ext_equal]
pub struct MachineState {
    /// The sixteen registers `V0` to `VF`.
    pub v: Seq<u8>,
    /// The index register.
    pub i: u16,
    /// The 4096 bytes of memory.
    pub memory: Seq<u8>,
    /// The address of the next instruction.
    pub pc: u16,
    /// The sixteen cells of the call stack. Cell 0 is never used.
    pub stack: Seq<u16>,
    /// The depth of the call stack: the cell that holds the latest return
    /// address.
    pub depth: nat,
    /// The timer that programs read.
    pub delay_timer: u8,
    /// The timer that sounds the buzzer while it is not zero.
    pub sound_timer: u8,
    /// The 2048 pixels of the display in row-major order.
    pub display: Seq<bool>,
    /// Which of the sixteen keys are down.
    pub keypad: Seq<bool>,
    /// The time that has passed since the last tick of the timers, in
    /// nanoseconds.
    pub timer_accum: nat,
}

impl MachineState {
    /// Whether the state is one that a machine can be in.
    pub open spec fn wf(self) -> bool {
        &&& self.v.len() == 16
        &&& self.memory.len() == 4096
        &&& self.stack.len() == 16
        &&& self.depth <= 15
        &&& self.display.len() == 2048
        &&& self.keypad.len() == 16
        &&& self.timer_accum < TIMER_PERIOD
    }
}

/// The state of a machine that has just loaded the program image `rom`: the
/// glyphs from `FONT_START` on, the image from `PROGRAM_START` on, where
/// execution starts, and everything else zero.
pub open spec fn initial_state(rom: Seq<u8>) -> MachineState {
    MachineState {
        v: Seq::new(16, |r: int| 0u8),
        i: 0,
        memory: Seq::new(
            4096,
            |a: int|
                if 0x50 <= a < 0xA0 {
                    FONTS@[a - 0x50]
                } else if 0x200 <= a < 0x200 + rom.len() {
                    rom[a - 0x200]
                } else {
                    0u8
                },
        ),
        pc: PROGRAM_START,
        stack: Seq::new(16, |d: int| 0u16),
        depth: 0,
        delay_timer: 0,
        sound_timer: 0,
        display: blank(),
        keypad: Seq::new(16, |k: int| false),
        timer_accum: 0,
    }
}

/// The address two bytes on, in 16 bits.
pub open spec fn pc_after(pc: u16) -> u16 {
    ((pc + 2) % 0x1_0000) as u16
}

/// The address two bytes back, in 16 bits.
pub open spec fn pc_before(pc: u16) -> u16 {
    ((pc - 2) % 0x1_0000) as u16
}

/// The low eight bits of a number.
pub open spec fn low_byte(n: int) -> u8 {
    (n % 256) as u8
}

/// Whether the key that a register value names is down. A value above 15
/// names no key, and a key that does not exist is not down.
pub open spec fn key_down(keypad: Seq<bool>, value: u8) -> bool {
    value < 16 && keypad[value as int]
}

/// Whether any key is down.
pub open spec fn any_key_down(keypad: Seq<bool>) -> bool {
    exists|k: int| 0 <= k < 16 && keypad[k]
}

/// Whether `k` is the lowest key that is down.
pub open spec fn is_first_key_down(keypad: Seq<bool>, k: int) -> bool {
    0 <= k < 16 && keypad[k] && forall|j: int| 0 <= j < k ==> !keypad[j]
}

/// The lowest key that is down, where one is.
pub open spec fn first_key_down(keypad: Seq<bool>) -> int {
    choose|k: int| is_first_key_down(keypad, k)
}

/// The `height` bytes of memory from `start` on.
pub open spec fn sprite_rows(memory: Seq<u8>, start: int, height: int) -> Seq<u8> {
    Seq::new(height as nat, |r: int| memory[start + r])
}

/// The lowest key that is down is what `first_key_down` names.
pub proof fn lemma_first_key_down(keypad: Seq<bool>, k: int)
    requires
        is_first_key_down(keypad, k),
    ensures
        any_key_down(keypad),
        first_key_down(keypad) == k,
{
    let chosen = first_key_down(keypad);
    assert(is_first_key_down(keypad, chosen));
    if chosen < k {
        assert(!keypad[chosen]);
    } else if k < chosen {
        assert(!keypad[k]);
    }
}

/// The value of a flag.
pub open spec fn flag(set: bool) -> u8 {
    if set {
        1
    } else {
        0
    }
}

/// The word at the program counter, high byte first, or the error that a
/// program counter too close to the end of memory gives.
pub open spec fn fetch(s: MachineState) -> Result<u16, EmulatorError> {
    if s.pc + 1 < 4096 {
        Ok((s.memory[s.pc as int] * 256 + s.memory[s.pc + 1]) as u16)
    } else {
        Err(EmulatorError::AddressOutOfRange { address: s.pc })
    }
}

/// What an instruction does to the machine, given the random byte that it
/// may draw. The flag register `VF` is written after the result, so where an
/// instruction names `VF` as its target the flag is what stays. Arithmetic on
/// registers wraps at eight bits, on the index register and the program
/// counter at sixteen.
pub open spec fn execute(s: MachineState, instruction: Instruction, random: u8) -> Result<
    MachineState,
    EmulatorError,
> {
    match instruction {
        Instruction::Sys { addr } => Ok(s),
        Instruction::ClearScreen => Ok(MachineState { display: blank(), ..s }),
        Instruction::Return => if s.depth == 0 {
            Err(EmulatorError::StackUnderflow)
        } else {
            Ok(MachineState { pc: s.stack[s.depth as int], depth: (s.depth - 1) as nat, ..s })
        },
        Instruction::Jump { addr } => Ok(MachineState { pc: addr, ..s }),
        Instruction::Call { addr } => if s.depth >= 15 {
            Err(EmulatorError::StackOverflow)
        } else {
            Ok(
                MachineState {
                    stack: s.stack.update(s.depth + 1 as int, s.pc),
                    depth: s.depth + 1,
                    pc: addr,
                    ..s
                },
            )
        },
        Instruction::SkipRegEqImm { reg, imm } => Ok(skip_if(s, s.v[reg as int] == imm)),
        Instruction::SkipRegNeqImm { reg, imm } => Ok(skip_if(s, s.v[reg as int] != imm)),
        Instruction::SkipRegEqReg { reg_x, reg_y } => Ok(
            skip_if(s, s.v[reg_x as int] == s.v[reg_y as int]),
        ),
        Instruction::SkipRegNeqReg { reg_x, reg_y } => Ok(
            skip_if(s, s.v[reg_x as int] != s.v[reg_y as int]),
        ),
        Instruction::StoreRegFromImm { reg, imm } => Ok(set_reg(s, reg as int, imm)),
        Instruction::StoreRegFromReg { reg_x, reg_y } => Ok(
            set_reg(s, reg_x as int, s.v[reg_y as int]),
        ),
        Instruction::AddRegImm { reg, imm } => Ok(
            set_reg(s, reg as int, low_byte(s.v[reg as int] + imm)),
        ),
        Instruction::AddRegReg { reg_x, reg_y } => {
            let sum = s.v[reg_x as int] + s.v[reg_y as int];
            Ok(set_reg_and_flag(s, reg_x as int, low_byte(sum), sum > 255))
        },
        Instruction::OrRegReg { reg_x, reg_y } => Ok(
            set_reg(s, reg_x as int, s.v[reg_x as int] | s.v[reg_y as int]),
        ),
        Instruction::AndRegReg { reg_x, reg_y } => Ok(
            set_reg(s, reg_x as int, s.v[reg_x as int] & s.v[reg_y as int]),
        ),
        Instruction::XorRegReg { reg_x, reg_y } => Ok(
            set_reg(s, reg_x as int, s.v[reg_x as int] ^ s.v[reg_y as int]),
        ),
        Instruction::SubRegReg { reg_x, reg_y } => {
            let x = s.v[reg_x as int];
            let y = s.v[reg_y as int];
            Ok(set_reg_and_flag(s, reg_x as int, low_byte(x - y), x >= y))
        },
        Instruction::SubnRegReg { reg_x, reg_y } => {
            let x = s.v[reg_x as int];
            let y = s.v[reg_y as int];
            Ok(set_reg_and_flag(s, reg_x as int, low_byte(y - x), y >= x))
        },
        Instruction::ShiftRight { reg } => {
            let x = s.v[reg as int];
            Ok(set_reg_and_flag(s, reg as int, x / 2, x % 2 == 1))
        },
        Instruction::ShiftLeft { reg } => {
            let x = s.v[reg as int];
            Ok(set_reg_and_flag(s, reg as int, low_byte(x * 2), x >= 128))
        },
        Instruction::SetI { addr } => Ok(MachineState { i: addr, ..s }),
        Instruction::JumpWithOffset { addr } => Ok(
            MachineState { pc: ((addr + s.v[0]) % 0x1_0000) as u16, ..s },
        ),
        Instruction::Rand { reg, mask } => Ok(set_reg(s, reg as int, random & mask)),
        Instruction::Draw { reg_x, reg_y, height } => if height > 0 && s.i + height > 4096 {
            Err(EmulatorError::AddressOutOfRange { address: s.i })
        } else {
            let rows = sprite_rows(s.memory, s.i as int, height as int);
            let x = s.v[reg_x as int] % 64;
            let y = s.v[reg_y as int] % 32;
            Ok(
                MachineState {
                    display: draw_sprite_pixels(s.display, rows, x as int, y as int),
                    v: s.v.update(0xF, flag(sprite_collides(s.display, rows, x as int, y as int))),
                    ..s
                },
            )
        },
        Instruction::SkipIfKey { reg } => Ok(skip_if(s, key_down(s.keypad, s.v[reg as int]))),
        Instruction::SkipIfNotKey { reg } => Ok(skip_if(s, !key_down(s.keypad, s.v[reg as int]))),
        Instruction::LoadDelayTimer { reg } => Ok(set_reg(s, reg as int, s.delay_timer)),
        Instruction::WaitKeyPress { reg } => if any_key_down(s.keypad) {
            Ok(set_reg(s, reg as int, first_key_down(s.keypad) as u8))
        } else {
            Ok(MachineState { pc: pc_before(s.pc), ..s })
        },
        Instruction::SetDelayTimer { reg } => Ok(
            MachineState { delay_timer: s.v[reg as int], ..s },
        ),
        Instruction::SetSoundTimer { reg } => Ok(
            MachineState { sound_timer: s.v[reg as int], ..s },
        ),
        Instruction::AddI { reg } => Ok(
            MachineState { i: ((s.i + s.v[reg as int]) % 0x1_0000) as u16, ..s },
        ),
        Instruction::SetIToSprite { reg } => {
            let digit = s.v[reg as int];
            if digit > 15 {
                Err(EmulatorError::InvalidDigit { value: digit })
            } else {
                Ok(MachineState { i: (FONT_START + 5 * digit) as u16, ..s })
            }
        },
        Instruction::StoreBCD { reg } => if s.i + 2 < 4096 {
            let x = s.v[reg as int];
            Ok(
                MachineState {
                    memory: s.memory.update(s.i as int, x / 100).update(
                        s.i + 1,
                        x / 10 % 10,
                    ).update(s.i + 2, x % 10),
                    ..s
                },
            )
        } else {
            Err(EmulatorError::AddressOutOfRange { address: s.i })
        },
        Instruction::StoreRegisters { reg } => if s.i + reg < 4096 {
            Ok(
                MachineState {
                    memory: Seq::new(
                        4096,
                        |a: int|
                            if s.i <= a <= s.i + reg {
                                s.v[a - s.i]
                            } else {
                                s.memory[a]
                            },
                    ),
                    ..s
                },
            )
        } else {
            Err(EmulatorError::AddressOutOfRange { address: s.i })
        },
        Instruction::LoadRegisters { reg } => if s.i + reg < 4096 {
            Ok(
                MachineState {
                    v: Seq::new(
                        16,
                        |r: int|
                            if r <= reg {
                                s.memory[s.i + r]
                            } else {
                                s.v[r]
                            },
                    ),
                    ..s
                },
            )
        } else {
            Err(EmulatorError::AddressOutOfRange { address: s.i })
        },
    }
}

/// The state with the next instruction skipped if `condition` holds.
pub open spec fn skip_if(s: MachineState, condition: bool) -> MachineState {
    if condition {
        MachineState { pc: pc_after(s.pc), ..s }
    } else {
        s
    }
}

/// The state with one register set.
pub open spec fn set_reg(s: MachineState, reg: int, value: u8) -> MachineState {
    MachineState { v: s.v.update(reg, value), ..s }
}

/// The state with one register set and then the flag register.
pub open spec fn set_reg_and_flag(s: MachineState, reg: int, value: u8, set: bool) -> MachineState {
    MachineState { v: s.v.update(reg, value).update(0xF, flag(set)), ..s }
}

/// The number of whole timer periods in the time that has passed since the
/// last tick, once `elapsed` nanoseconds are added to it.
pub open spec fn ticks_due(s: MachineState, elapsed: nat) -> nat {
    (s.timer_accum + elapsed) / (TIMER_PERIOD as nat)
}

/// A timer after `ticks` ticks: it counts down to zero and stays there.
pub open spec fn timer_after(timer: u8, ticks: nat) -> u8 {
    if timer >= ticks {
        (timer - ticks) as u8
    } else {
        0
    }
}

/// The state after `elapsed` nanoseconds have passed: both timers have
/// ticked once for each whole period, and what is left of the time is kept
/// for the next call.
pub open spec fn tick(s: MachineState, elapsed: nat) -> MachineState {
    MachineState {
        delay_timer: timer_after(s.delay_timer, ticks_due(s, elapsed)),
        sound_timer: timer_after(s.sound_timer, ticks_due(s, elapsed)),
        timer_accum: (s.timer_accum + elapsed) % (TIMER_PERIOD as nat),
        ..s
    }
}

/// Whether the cycle that starts in `s` draws a random byte: whether the
/// word at the program counter is a `Rand` instruction.
pub open spec fn draws_random(s: MachineState) -> bool {
    fetch(s) matches Ok(word) && decode_word(word) matches Some(instruction)
        && instruction is Rand
}

/// Whether a call that started in the state `before` and was to have the
/// given outcome ended as it should: with `Ok` in the new state, or with the
/// error in the state in which it started.
pub open spec fn ends_as(
    before: MachineState,
    outcome: Result<MachineState, EmulatorError>,
    res: Result<(), EmulatorError>,
    after: MachineState,
) -> bool {
    match outcome {
        Ok(s) => res is Ok && after == s,
        Err(e) => res == Err::<(), EmulatorError>(e) && after == before,
    }
}

/// An instruction that succeeds leaves the machine in a state that a machine
/// can be in.
pub proof fn lemma_execute_keeps_wf(s: MachineState, instruction: Instruction, random: u8)
    requires
        s.wf(),
        instruction.wf(),
    ensures
        execute(s, instruction, random) matches Ok(after) ==> after.wf(),
{
}

/// No instruction but `Rand` depends on the random byte.
pub proof fn lemma_random_unused(s: MachineState, instruction: Instruction, r1: u8, r2: u8)
    requires
        !(instruction is Rand),
    ensures
        execute(s, instruction, r1) == execute(s, instruction, r2),
{
}

/// One cycle: fetch the word at the program counter, advance the program
/// counter past it, decode and execute the word, then let `elapsed`
/// nanoseconds pass. An error at any stage is the outcome of the cycle.
pub open spec fn step(s: MachineState, elapsed: nat, random: u8) -> Result<
    MachineState,
    EmulatorError,
> {
    match fetch(s) {
        Err(e) => Err(e),
        Ok(word) => match decode_word(word) {
            None => Err(EmulatorError::DecodeError { word }),
            Some(instruction) => match execute(
                MachineState { pc: pc_after(s.pc), ..s },
                instruction,
                random,
            ) {
                Err(e) => Err(e),
                Ok(after) => Ok(tick(after, elapsed)),
            },
        },
    }
}

} // verus!
