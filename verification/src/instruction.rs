//! The instruction set and its encoding.

use crate::error::EmulatorError;
use crate::opcode::{lemma_nibbles_of_word, lemma_word_of_nibbles, Opcode};
use vstd::prelude::*;

verus! {

/// The instructions of the machine. `V0` to `VF` are the sixteen registers,
/// `I` is the index register.
#[derive(Clone, Copy, Debug, PartialEq, Eq, Structural)]
pub enum Instruction {
    /// `0nnn`: call a machine code routine. Ignored.
    Sys { addr: u16 },
    /// `00E0`: clear the display.
    ClearScreen,
    /// `00EE`: return from a subroutine.
    Return,
    /// `1nnn`: jump to `addr`.
    Jump { addr: u16 },
    /// `2nnn`: call the subroutine at `addr`.
    Call { addr: u16 },
    /// `3xkk`: skip the next instruction if `Vx == imm`.
    SkipRegEqImm { reg: usize, imm: u8 },
    /// `4xkk`: skip the next instruction if `Vx != imm`.
    SkipRegNeqImm { reg: usize, imm: u8 },
    /// `5xy0`: skip the next instruction if `Vx == Vy`.
    SkipRegEqReg { reg_x: usize, reg_y: usize },
    /// `6xkk`: set `Vx` to `imm`.
    StoreRegFromImm { reg: usize, imm: u8 },
    /// `8xy0`: set `Vx` to `Vy`.
    StoreRegFromReg { reg_x: usize, reg_y: usize },
    /// `7xkk`: add `imm` to `Vx`.
    AddRegImm { reg: usize, imm: u8 },
    /// `8xy4`: add `Vy` to `Vx`, and set `VF` to the carry.
    AddRegReg { reg_x: usize, reg_y: usize },
    /// `8xy1`: set `Vx` to `Vx | Vy`.
    OrRegReg { reg_x: usize, reg_y: usize },
    /// `8xy2`: set `Vx` to `Vx & Vy`.
    AndRegReg { reg_x: usize, reg_y: usize },
    /// `8xy3`: set `Vx` to `Vx ^ Vy`.
    XorRegReg { reg_x: usize, reg_y: usize },
    /// `8xy5`: subtract `Vy` from `Vx`, and set `VF` to 1 unless it borrowed.
    SubRegReg { reg_x: usize, reg_y: usize },
    /// `8xy7`: set `Vx` to `Vy - Vx`, and set `VF` to 1 unless it borrowed.
    SubnRegReg { reg_x: usize, reg_y: usize },
    /// `8xy6`: shift `Vx` right by one, and set `VF` to the bit shifted out.
    ShiftRight { reg: usize },
    /// `8xyE`: shift `Vx` left by one, and set `VF` to the bit shifted out.
    ShiftLeft { reg: usize },
    /// `9xy0`: skip the next instruction if `Vx != Vy`.
    SkipRegNeqReg { reg_x: usize, reg_y: usize },
    /// `Annn`: set `I` to `addr`.
    SetI { addr: u16 },
    /// `Bnnn`: jump to `addr + V0`.
    JumpWithOffset { addr: u16 },
    /// `Cxkk`: set `Vx` to a random byte masked with `mask`.
    Rand { reg: usize, mask: u8 },
    /// `Dxyn`: draw the sprite of `height` rows at `I` at `(Vx, Vy)`, and set
    /// `VF` to 1 if a lit pixel was turned off.
    Draw { reg_x: usize, reg_y: usize, height: u8 },
    /// `Ex9E`: skip the next instruction if the key `Vx` is down.
    SkipIfKey { reg: usize },
    /// `ExA1`: skip the next instruction if the key `Vx` is not down.
    SkipIfNotKey { reg: usize },
    /// `Fx07`: set `Vx` to the delay timer.
    LoadDelayTimer { reg: usize },
    /// `Fx0A`: wait for a key to be down, and set `Vx` to its index.
    WaitKeyPress { reg: usize },
    /// `Fx15`: set the delay timer to `Vx`.
    SetDelayTimer { reg: usize },
    /// `Fx18`: set the sound timer to `Vx`.
    SetSoundTimer { reg: usize },
    /// `Fx1E`: add `Vx` to `I`.
    AddI { reg: usize },
    /// `Fx29`: set `I` to the address of the glyph for the digit `Vx`.
    SetIToSprite { reg: usize },
    /// `Fx33`: store the three decimal digits of `Vx` at `I`, `I + 1`, `I + 2`.
    StoreBCD { reg: usize },
    /// `Fx55`: store `V0` to `Vx` in memory from `I` on.
    StoreRegisters { reg: usize },
    /// `Fx65`: load `V0` to `Vx` from memory from `I` on.
    LoadRegisters { reg: usize },
}

impl Instruction {
    /// Whether the operands fit their fields: four bits for a register or a
    /// sprite height, twelve for an address.
    pub open spec fn wf(self) -> bool {
        match self {
            Instruction::ClearScreen | Instruction::Return => true,
            Instruction::Sys { addr }
            | Instruction::Jump { addr }
            | Instruction::Call { addr }
            | Instruction::SetI { addr }
            | Instruction::JumpWithOffset { addr } => addr < 4096,
            Instruction::SkipRegEqImm { reg, .. }
            | Instruction::SkipRegNeqImm { reg, .. }
            | Instruction::StoreRegFromImm { reg, .. }
            | Instruction::AddRegImm { reg, .. }
            | Instruction::Rand { reg, .. }
            | Instruction::ShiftRight { reg }
            | Instruction::ShiftLeft { reg }
            | Instruction::SkipIfKey { reg }
            | Instruction::SkipIfNotKey { reg }
            | Instruction::LoadDelayTimer { reg }
            | Instruction::WaitKeyPress { reg }
            | Instruction::SetDelayTimer { reg }
            | Instruction::SetSoundTimer { reg }
            | Instruction::AddI { reg }
            | Instruction::SetIToSprite { reg }
            | Instruction::StoreBCD { reg }
            | Instruction::StoreRegisters { reg }
            | Instruction::LoadRegisters { reg } => reg < 16,
            Instruction::SkipRegEqReg { reg_x, reg_y }
            | Instruction::StoreRegFromReg { reg_x, reg_y }
            | Instruction::AddRegReg { reg_x, reg_y }
            | Instruction::OrRegReg { reg_x, reg_y }
            | Instruction::AndRegReg { reg_x, reg_y }
            | Instruction::XorRegReg { reg_x, reg_y }
            | Instruction::SubRegReg { reg_x, reg_y }
            | Instruction::SubnRegReg { reg_x, reg_y }
            | Instruction::SkipRegNeqReg { reg_x, reg_y } => reg_x < 16 && reg_y < 16,
            Instruction::Draw { reg_x, reg_y, height } => reg_x < 16 && reg_y < 16 && height < 16,
        }
    }
}

/// The instruction that a word encodes, if it encodes one. The words `00E0`
/// and `00EE` are the two instructions they spell, before any other word
/// that starts with the nibble 0 is taken for a call of a machine code
/// routine.
pub open spec fn decode_word(word: u16) -> Option<Instruction> {
    let kind = word / 4096;
    let addr = (word % 4096) as u16;
    let reg_x = (word / 256 % 16) as usize;
    let reg_y = (word / 16 % 16) as usize;
    let byte = (word % 256) as u8;
    let low = word % 16;
    if word == 0x00E0 {
        Some(Instruction::ClearScreen)
    } else if word == 0x00EE {
        Some(Instruction::Return)
    } else if kind == 0x0 {
        Some(Instruction::Sys { addr })
    } else if kind == 0x1 {
        Some(Instruction::Jump { addr })
    } else if kind == 0x2 {
        Some(Instruction::Call { addr })
    } else if kind == 0x3 {
        Some(Instruction::SkipRegEqImm { reg: reg_x, imm: byte })
    } else if kind == 0x4 {
        Some(Instruction::SkipRegNeqImm { reg: reg_x, imm: byte })
    } else if kind == 0x5 && low == 0x0 {
        Some(Instruction::SkipRegEqReg { reg_x, reg_y })
    } else if kind == 0x6 {
        Some(Instruction::StoreRegFromImm { reg: reg_x, imm: byte })
    } else if kind == 0x7 {
        Some(Instruction::AddRegImm { reg: reg_x, imm: byte })
    } else if kind == 0x8 && low == 0x0 {
        Some(Instruction::StoreRegFromReg { reg_x, reg_y })
    } else if kind == 0x8 && low == 0x1 {
        Some(Instruction::OrRegReg { reg_x, reg_y })
    } else if kind == 0x8 && low == 0x2 {
        Some(Instruction::AndRegReg { reg_x, reg_y })
    } else if kind == 0x8 && low == 0x3 {
        Some(Instruction::XorRegReg { reg_x, reg_y })
    } else if kind == 0x8 && low == 0x4 {
        Some(Instruction::AddRegReg { reg_x, reg_y })
    } else if kind == 0x8 && low == 0x5 {
        Some(Instruction::SubRegReg { reg_x, reg_y })
    } else if kind == 0x8 && low == 0x6 {
        Some(Instruction::ShiftRight { reg: reg_x })
    } else if kind == 0x8 && low == 0x7 {
        Some(Instruction::SubnRegReg { reg_x, reg_y })
    } else if kind == 0x8 && low == 0xE {
        Some(Instruction::ShiftLeft { reg: reg_x })
    } else if kind == 0x9 && low == 0x0 {
        Some(Instruction::SkipRegNeqReg { reg_x, reg_y })
    } else if kind == 0xA {
        Some(Instruction::SetI { addr })
    } else if kind == 0xB {
        Some(Instruction::JumpWithOffset { addr })
    } else if kind == 0xC {
        Some(Instruction::Rand { reg: reg_x, mask: byte })
    } else if kind == 0xD {
        Some(Instruction::Draw { reg_x, reg_y, height: low as u8 })
    } else if kind == 0xE && byte == 0x9E {
        Some(Instruction::SkipIfKey { reg: reg_x })
    } else if kind == 0xE && byte == 0xA1 {
        Some(Instruction::SkipIfNotKey { reg: reg_x })
    } else if kind == 0xF && byte == 0x07 {
        Some(Instruction::LoadDelayTimer { reg: reg_x })
    } else if kind == 0xF && byte == 0x0A {
        Some(Instruction::WaitKeyPress { reg: reg_x })
    } else if kind == 0xF && byte == 0x15 {
        Some(Instruction::SetDelayTimer { reg: reg_x })
    } else if kind == 0xF && byte == 0x18 {
        Some(Instruction::SetSoundTimer { reg: reg_x })
    } else if kind == 0xF && byte == 0x1E {
        Some(Instruction::AddI { reg: reg_x })
    } else if kind == 0xF && byte == 0x29 {
        Some(Instruction::SetIToSprite { reg: reg_x })
    } else if kind == 0xF && byte == 0x33 {
        Some(Instruction::StoreBCD { reg: reg_x })
    } else if kind == 0xF && byte == 0x55 {
        Some(Instruction::StoreRegisters { reg: reg_x })
    } else if kind == 0xF && byte == 0x65 {
        Some(Instruction::LoadRegisters { reg: reg_x })
    } else {
        None
    }
}

impl Instruction {
    /// The word that spells the instruction.
    pub open spec fn encode(self) -> int {
        match self {
            Instruction::Sys { addr } => 0x0000 + addr,
            Instruction::ClearScreen => 0x00E0,
            Instruction::Return => 0x00EE,
            Instruction::Jump { addr } => 0x1000 + addr,
            Instruction::Call { addr } => 0x2000 + addr,
            Instruction::SkipRegEqImm { reg, imm } => 0x3000 + reg * 256 + imm,
            Instruction::SkipRegNeqImm { reg, imm } => 0x4000 + reg * 256 + imm,
            Instruction::SkipRegEqReg { reg_x, reg_y } => 0x5000 + reg_x * 256 + reg_y * 16,
            Instruction::StoreRegFromImm { reg, imm } => 0x6000 + reg * 256 + imm,
            Instruction::AddRegImm { reg, imm } => 0x7000 + reg * 256 + imm,
            Instruction::StoreRegFromReg { reg_x, reg_y } => 0x8000 + reg_x * 256 + reg_y * 16,
            Instruction::OrRegReg { reg_x, reg_y } => 0x8001 + reg_x * 256 + reg_y * 16,
            Instruction::AndRegReg { reg_x, reg_y } => 0x8002 + reg_x * 256 + reg_y * 16,
            Instruction::XorRegReg { reg_x, reg_y } => 0x8003 + reg_x * 256 + reg_y * 16,
            Instruction::AddRegReg { reg_x, reg_y } => 0x8004 + reg_x * 256 + reg_y * 16,
            Instruction::SubRegReg { reg_x, reg_y } => 0x8005 + reg_x * 256 + reg_y * 16,
            Instruction::ShiftRight { reg } => 0x8006 + reg * 256,
            Instruction::SubnRegReg { reg_x, reg_y } => 0x8007 + reg_x * 256 + reg_y * 16,
            Instruction::ShiftLeft { reg } => 0x800E + reg * 256,
            Instruction::SkipRegNeqReg { reg_x, reg_y } => 0x9000 + reg_x * 256 + reg_y * 16,
            Instruction::SetI { addr } => 0xA000 + addr,
            Instruction::JumpWithOffset { addr } => 0xB000 + addr,
            Instruction::Rand { reg, mask } => 0xC000 + reg * 256 + mask,
            Instruction::Draw { reg_x, reg_y, height } => 0xD000 + reg_x * 256 + reg_y * 16
                + height,
            Instruction::SkipIfKey { reg } => 0xE09E + reg * 256,
            Instruction::SkipIfNotKey { reg } => 0xE0A1 + reg * 256,
            Instruction::LoadDelayTimer { reg } => 0xF007 + reg * 256,
            Instruction::WaitKeyPress { reg } => 0xF00A + reg * 256,
            Instruction::SetDelayTimer { reg } => 0xF015 + reg * 256,
            Instruction::SetSoundTimer { reg } => 0xF018 + reg * 256,
            Instruction::AddI { reg } => 0xF01E + reg * 256,
            Instruction::SetIToSprite { reg } => 0xF029 + reg * 256,
            Instruction::StoreBCD { reg } => 0xF033 + reg * 256,
            Instruction::StoreRegisters { reg } => 0xF055 + reg * 256,
            Instruction::LoadRegisters { reg } => 0xF065 + reg * 256,
        }
    }
}

/// A word that decodes gives an instruction whose operands fit their fields
/// and which spells that very word. The one exception is a shift, which
/// ignores the third nibble of its word: it spells the word with that nibble
/// cleared.
pub proof fn lemma_decode_then_encode(word: u16)
    ensures
        decode_word(word) matches Some(instruction) ==> {
            &&& instruction.wf()
            &&& instruction.encode() == if instruction is ShiftRight || instruction is ShiftLeft {
                word - (word / 16 % 16) * 16
            } else {
                word as int
            }
        },
{
    lemma_nibbles_of_word(word);
}

/// The word that spells an instruction decodes to it, so every instruction
/// has a word. The one exception is a call of a machine code routine at `0E0`
/// or `0EE`: those two words are the instructions that clear the display and
/// return.
pub proof fn lemma_encode_then_decode(instruction: Instruction)
    requires
        instruction.wf(),
        instruction != (Instruction::Sys { addr: 0x0E0 }),
        instruction != (Instruction::Sys { addr: 0x0EE }),
    ensures
        0 <= instruction.encode() < 65536,
        decode_word(instruction.encode() as u16) == Some(instruction),
{
    let word = instruction.encode();
    let kind = word / 4096;
    match instruction {
        Instruction::Sys { addr }
        | Instruction::Jump { addr }
        | Instruction::Call { addr }
        | Instruction::SetI { addr }
        | Instruction::JumpWithOffset { addr } => {
            lemma_nibbles_of_word(addr);
            lemma_word_of_nibbles(
                kind as u8,
                (addr / 256 % 16) as u8,
                (addr / 16 % 16) as u8,
                (addr % 16) as u8,
            );
        },
        Instruction::SkipRegEqImm { reg, imm }
        | Instruction::SkipRegNeqImm { reg, imm }
        | Instruction::StoreRegFromImm { reg, imm }
        | Instruction::AddRegImm { reg, imm }
        | Instruction::Rand { reg, mask: imm } => {
            lemma_nibbles_of_word(imm as u16);
            lemma_word_of_nibbles(kind as u8, reg as u8, (imm / 16) as u8, (imm % 16) as u8);
        },
        Instruction::SkipRegEqReg { reg_x, reg_y }
        | Instruction::StoreRegFromReg { reg_x, reg_y }
        | Instruction::OrRegReg { reg_x, reg_y }
        | Instruction::AndRegReg { reg_x, reg_y }
        | Instruction::XorRegReg { reg_x, reg_y }
        | Instruction::AddRegReg { reg_x, reg_y }
        | Instruction::SubRegReg { reg_x, reg_y }
        | Instruction::SubnRegReg { reg_x, reg_y }
        | Instruction::SkipRegNeqReg { reg_x, reg_y } => {
            lemma_word_of_nibbles(
                kind as u8,
                reg_x as u8,
                reg_y as u8,
                (word - kind * 4096 - reg_x * 256 - reg_y * 16) as u8,
            );
        },
        Instruction::Draw { reg_x, reg_y, height } => {
            lemma_word_of_nibbles(kind as u8, reg_x as u8, reg_y as u8, height);
        },
        Instruction::ClearScreen => {},
        Instruction::Return => {},
        Instruction::ShiftRight { reg }
        | Instruction::ShiftLeft { reg }
        | Instruction::SkipIfKey { reg }
        | Instruction::SkipIfNotKey { reg }
        | Instruction::LoadDelayTimer { reg }
        | Instruction::WaitKeyPress { reg }
        | Instruction::SetDelayTimer { reg }
        | Instruction::SetSoundTimer { reg }
        | Instruction::AddI { reg }
        | Instruction::SetIToSprite { reg }
        | Instruction::StoreBCD { reg }
        | Instruction::StoreRegisters { reg }
        | Instruction::LoadRegisters { reg } => {
            let low = word - kind * 4096 - reg * 256;
            lemma_word_of_nibbles(kind as u8, reg as u8, (low / 16) as u8, (low % 16) as u8);
        },
    }
}

/// What decoding gives for a word: its instruction, or the error that names
/// the word.
pub open spec fn decode_result(word: u16) -> Result<Instruction, EmulatorError> {
    match decode_word(word) {
        Some(instruction) => Ok(instruction),
        None => Err(EmulatorError::DecodeError { word }),
    }
}

impl Instruction {
    /// Classifies a fetched word. Every word gives either its one instruction
    /// or a `DecodeError` that holds the word.
    pub fn decode(opcode: Opcode) -> (res: Result<Instruction, EmulatorError>)
        ensures
            res == decode_result(opcode@ as u16),
            res matches Ok(instruction) ==> instruction.wf(),
    {
        let nibbles = opcode.nibbles();
        let res = match nibbles {
            (0, 0, 0xE, 0) => Instruction::ClearScreen,
            (0, 0, 0xE, 0xE) => Instruction::Return,
            (0, _, _, _) => Instruction::Sys { addr: opcode.addr() },
            (1, _, _, _) => Instruction::Jump { addr: opcode.addr() },
            (2, _, _, _) => Instruction::Call { addr: opcode.addr() },
            (3, _, _, _) => Instruction::SkipRegEqImm { reg: opcode.x(), imm: opcode.byte() },
            (4, _, _, _) => Instruction::SkipRegNeqImm { reg: opcode.x(), imm: opcode.byte() },
            (5, _, _, 0) => Instruction::SkipRegEqReg { reg_x: opcode.x(), reg_y: opcode.y() },
            (6, _, _, _) => Instruction::StoreRegFromImm { reg: opcode.x(), imm: opcode.byte() },
            (7, _, _, _) => Instruction::AddRegImm { reg: opcode.x(), imm: opcode.byte() },
            (8, _, _, 0) => Instruction::StoreRegFromReg { reg_x: opcode.x(), reg_y: opcode.y() },
            (8, _, _, 1) => Instruction::OrRegReg { reg_x: opcode.x(), reg_y: opcode.y() },
            (8, _, _, 2) => Instruction::AndRegReg { reg_x: opcode.x(), reg_y: opcode.y() },
            (8, _, _, 3) => Instruction::XorRegReg { reg_x: opcode.x(), reg_y: opcode.y() },
            (8, _, _, 4) => Instruction::AddRegReg { reg_x: opcode.x(), reg_y: opcode.y() },
            (8, _, _, 5) => Instruction::SubRegReg { reg_x: opcode.x(), reg_y: opcode.y() },
            (8, _, _, 6) => Instruction::ShiftRight { reg: opcode.x() },
            (8, _, _, 7) => Instruction::SubnRegReg { reg_x: opcode.x(), reg_y: opcode.y() },
            (8, _, _, 0xE) => Instruction::ShiftLeft { reg: opcode.x() },
            (9, _, _, 0) => Instruction::SkipRegNeqReg { reg_x: opcode.x(), reg_y: opcode.y() },
            (0xA, _, _, _) => Instruction::SetI { addr: opcode.addr() },
            (0xB, _, _, _) => Instruction::JumpWithOffset { addr: opcode.addr() },
            (0xC, _, _, _) => Instruction::Rand { reg: opcode.x(), mask: opcode.byte() },
            (0xD, _, _, _) => Instruction::Draw {
                reg_x: opcode.x(),
                reg_y: opcode.y(),
                height: opcode.nibble(),
            },
            (0xE, _, 9, 0xE) => Instruction::SkipIfKey { reg: opcode.x() },
            (0xE, _, 0xA, 1) => Instruction::SkipIfNotKey { reg: opcode.x() },
            (0xF, _, 0, 7) => Instruction::LoadDelayTimer { reg: opcode.x() },
            (0xF, _, 0, 0xA) => Instruction::WaitKeyPress { reg: opcode.x() },
            (0xF, _, 1, 5) => Instruction::SetDelayTimer { reg: opcode.x() },
            (0xF, _, 1, 8) => Instruction::SetSoundTimer { reg: opcode.x() },
            (0xF, _, 1, 0xE) => Instruction::AddI { reg: opcode.x() },
            (0xF, _, 2, 9) => Instruction::SetIToSprite { reg: opcode.x() },
            (0xF, _, 3, 3) => Instruction::StoreBCD { reg: opcode.x() },
            (0xF, _, 5, 5) => Instruction::StoreRegisters { reg: opcode.x() },
            (0xF, _, 6, 5) => Instruction::LoadRegisters { reg: opcode.x() },
            _ => {
                return Err(EmulatorError::DecodeError { word: opcode.word() });
            },
        };
        Ok(res)
    }
}

} // verus!
