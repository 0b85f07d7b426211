//! The machine itself: its state in fixed-size buffers and the cycle that
//! drives it.

use crate::display::{draw_sprite_pixels, lemma_draw_next_row, sprite_collides, Display};
use crate::error::{EmulatorError, RomLoadError};
use crate::fonts::{FontDigit, FONTS};
use crate::instruction::Instruction;
use crate::machine::{
    draws_random, ends_as, execute, fetch, initial_state, key_down, lemma_execute_keeps_wf,
    lemma_first_key_down, lemma_random_unused, low_byte, set_reg, set_reg_and_flag, skip_if,
    sprite_rows, step, tick, MachineState, FONT_START, MAX_DEPTH, MEMORY_SIZE, PROGRAM_START,
    TIMER_PERIOD,
};
use crate::opcode::Opcode;
use crate::random::{random_byte, thread_rng};
use rand::rngs::ThreadRng;
use vstd::prelude::*;

verus! {

/// A CHIP-8 machine.
pub struct Emulator {
    v: [u8; 16],
    i: u16,
    memory: [u8; 4096],
    program_counter: u16,
    stack: [u16; 16],
    stack_pointer: usize,
    delay_timer: u8,
    sound_timer: u8,
    display: Display,
    keypad: [bool; 16],
    rng: ThreadRng,
    timer_accum: u64,
}

impl View for Emulator {
    type V = MachineState;

    /// The state of the machine. The random number generator is no part of
    /// it.
    closed spec fn view(&self) -> MachineState {
        MachineState {
            v: self.v@,
            i: self.i,
            memory: self.memory@,
            pc: self.program_counter,
            stack: self.stack@,
            depth: self.stack_pointer as nat,
            delay_timer: self.delay_timer,
            sound_timer: self.sound_timer,
            display: self.display@,
            keypad: self.keypad@,
            timer_accum: self.timer_accum as nat,
        }
    }
}

/// The sum of two bytes in eight bits, and whether it carried.
fn add_bytes(x: u8, y: u8) -> (res: (u8, bool))
    ensures
        res.0 == low_byte(x + y),
        res.1 == (x + y > 255),
{
    (x.wrapping_add(y), x as u16 + y as u16 > 255)
}

/// The difference `x - y` of two bytes in eight bits, and whether it did
/// without a borrow.
fn sub_bytes(x: u8, y: u8) -> (res: (u8, bool))
    ensures
        res.0 == low_byte(x - y),
        res.1 == (x >= y),
{
    (x.wrapping_sub(y), x >= y)
}

/// A byte shifted right by one, and whether its lowest bit was set.
fn shift_right(x: u8) -> (res: (u8, bool))
    ensures
        res.0 == x / 2,
        res.1 == (x % 2 == 1),
{
    assert(x >> 1 == x / 2 && (x & 1 == 1) == (x % 2 == 1)) by (bit_vector);
    (x >> 1, x & 1 == 1)
}

/// A byte shifted left by one in eight bits, and whether its highest bit was
/// set.
fn shift_left(x: u8) -> (res: (u8, bool))
    ensures
        res.0 == low_byte(x * 2),
        res.1 == (x >= 128),
{
    assert(x << 1 == (x * 2) % 256 && (x & 0x80 == 0x80) == (x >= 128)) by (bit_vector);
    (x << 1, x & 0x80 == 0x80)
}

impl Emulator {
    /// A machine that has loaded the program image `rom`, or an error if the
    /// image does not fit between the load address and the end of memory.
    pub fn new(rom: &[u8]) -> (res: Result<Emulator, RomLoadError>)
        ensures
            rom@.len() <= 3584 ==> res is Ok && res->Ok_0@ == initial_state(rom@)
                && res->Ok_0@.wf(),
            rom@.len() > 3584 ==> res is Err && res->Err_0 == (RomLoadError { len: rom.len() }),
    {
        if rom.len() > MEMORY_SIZE - 0x200 {
            return Err(RomLoadError { len: rom.len() });
        }
        let mut memory = [0u8;4096];
        let mut k: usize = 0;
        while k < 80
            invariant
                k <= 80,
                forall|a: int|
                    0 <= a < 4096 ==> memory@[a] == if 0x50 <= a < 0x50 + k {
                        FONTS@[a - 0x50]
                    } else {
                        0u8
                    },
            decreases 80 - k,
        {
            memory[0x50 + k] = FONTS[k];
            k += 1;
        }
        let mut k: usize = 0;
        while k < rom.len()
            invariant
                k <= rom.len() <= 3584,
                forall|a: int|
                    0 <= a < 4096 ==> memory@[a] == if 0x50 <= a < 0xA0 {
                        FONTS@[a - 0x50]
                    } else if 0x200 <= a < 0x200 + k {
                        rom@[a - 0x200]
                    } else {
                        0u8
                    },
            decreases rom.len() - k,
        {
            memory[0x200 + k] = rom[k];
            k += 1;
        }
        let emulator = Emulator {
            v: [0;16],
            i: 0,
            program_counter: PROGRAM_START,
            memory,
            stack_pointer: 0,
            stack: [0;16],
            delay_timer: 0,
            sound_timer: 0,
            display: Display::new(),
            keypad: [false;16],
            rng: thread_rng(),
            timer_accum: 0,
        };
        assert(emulator@ =~= initial_state(rom@));
        Ok(emulator)
    }

    /// The display, for reading.
    pub fn display(&self) -> (display: &Display)
        ensures
            display@ == self@.display,
    {
        &self.display
    }

    /// The sixteen registers.
    pub fn registers(&self) -> (v: &[u8; 16])
        ensures
            v@ == self@.v,
    {
        &self.v
    }

    /// The index register.
    pub fn index(&self) -> (i: u16)
        ensures
            i == self@.i,
    {
        self.i
    }

    /// The memory.
    pub fn memory(&self) -> (memory: &[u8; 4096])
        ensures
            memory@ == self@.memory,
    {
        &self.memory
    }

    /// The address of the next instruction.
    pub fn program_counter(&self) -> (pc: u16)
        ensures
            pc == self@.pc,
    {
        self.program_counter
    }

    /// The cells of the call stack.
    pub fn stack(&self) -> (stack: &[u16; 16])
        ensures
            stack@ == self@.stack,
    {
        &self.stack
    }

    /// The depth of the call stack.
    pub fn stack_pointer(&self) -> (depth: usize)
        ensures
            depth == self@.depth,
    {
        self.stack_pointer
    }

    /// The delay timer.
    pub fn delay_timer(&self) -> (timer: u8)
        ensures
            timer == self@.delay_timer,
    {
        self.delay_timer
    }

    /// The sound timer.
    pub fn sound_timer(&self) -> (timer: u8)
        ensures
            timer == self@.sound_timer,
    {
        self.sound_timer
    }

    /// Replaces the state of all sixteen keys.
    pub fn set_keypad(&mut self, keypad: [bool; 16])
        ensures
            final(self)@ == (MachineState { keypad: keypad@, ..old(self)@ }),
            old(self)@.wf() ==> final(self)@.wf(),
    {
        self.keypad = keypad;
    }

    /// One cycle: fetches, decodes and executes the instruction at the
    /// program counter, then lets `elapsed_nanos` nanoseconds pass for the
    /// timers. On an error the machine is left as it was. Only a `Rand`
    /// instruction draws a random byte: any other cycle is determined by the
    /// state before it.
    pub fn step(&mut self, elapsed_nanos: u64) -> (res: Result<(), EmulatorError>)
        requires
            old(self)@.wf(),
        ensures
            final(self)@.wf(),
            exists|random: u8|
                ends_as(
                    old(self)@,
                    #[trigger] step(old(self)@, elapsed_nanos as nat, random),
                    res,
                    final(self)@,
                ),
            !draws_random(old(self)@) ==> ends_as(
                old(self)@,
                step(old(self)@, elapsed_nanos as nat, 0),
                res,
                final(self)@,
            ),
    {
        let ghost before = self@;
        let opcode = match self.fetch() {
            Ok(opcode) => opcode,
            Err(e) => {
                assert(ends_as(before, step(before, elapsed_nanos as nat, 0), Err(e), self@));
                return Err(e);
            },
        };
        let instruction = match Instruction::decode(opcode) {
            Ok(instruction) => instruction,
            Err(e) => {
                assert(ends_as(before, step(before, elapsed_nanos as nat, 0), Err(e), self@));
                return Err(e);
            },
        };
        let fetched_at = self.program_counter;
        self.program_counter = fetched_at + 2;
        let ghost advanced = self@;
        match self.execute(instruction) {
            Ok(()) => {
                let ghost executed = self@;
                self.tick_timers(elapsed_nanos);
                proof {
                    let random = choose|random: u8|
                        ends_as(
                            advanced,
                            #[trigger] execute(advanced, instruction, random),
                            Ok(()),
                            executed,
                        );
                    assert(ends_as(
                        before,
                        step(before, elapsed_nanos as nat, random),
                        Ok(()),
                        self@,
                    ));
                    if !draws_random(before) {
                        lemma_random_unused(advanced, instruction, random, 0);
                    }
                }
                Ok(())
            },
            Err(e) => {
                proof {
                    let random = choose|random: u8|
                        ends_as(
                            advanced,
                            #[trigger] execute(advanced, instruction, random),
                            Err(e),
                            advanced,
                        );
                    if !draws_random(before) {
                        lemma_random_unused(advanced, instruction, random, 0);
                    }
                }
                self.program_counter = fetched_at;
                proof {
                    assert(self@ =~= before);
                    let random = choose|random: u8|
                        ends_as(
                            advanced,
                            #[trigger] execute(advanced, instruction, random),
                            Err(e),
                            advanced,
                        );
                    assert(ends_as(
                        before,
                        step(before, elapsed_nanos as nat, random),
                        Err(e),
                        self@,
                    ));
                }
                Err(e)
            },
        }
    }

    /// The word at the program counter, high byte first.
    pub fn fetch(&self) -> (res: Result<Opcode, EmulatorError>)
        ensures
            match fetch(self@) {
                Ok(word) => res is Ok && res->Ok_0@ == word,
                Err(e) => res is Err && res->Err_0 == e,
            },
    {
        let pc = self.program_counter as usize;
        if pc + 1 >= MEMORY_SIZE {
            return Err(EmulatorError::AddressOutOfRange { address: self.program_counter });
        }
        let msb = self.memory[pc];
        let lsb = self.memory[pc + 1];
        Ok(Opcode::from((msb as u16) * 256 + (lsb as u16)))
    }

    /// Carries out one instruction. On an error the machine is left as it
    /// was. Only `Rand` draws a random byte: any other instruction is
    /// determined by the state before it.
    pub fn execute(&mut self, instruction: Instruction) -> (res: Result<(), EmulatorError>)
        requires
            old(self)@.wf(),
            instruction.wf(),
        ensures
            final(self)@.wf(),
            exists|random: u8|
                ends_as(
                    old(self)@,
                    #[trigger] execute(old(self)@, instruction, random),
                    res,
                    final(self)@,
                ),
            !(instruction is Rand) ==> ends_as(
                old(self)@,
                execute(old(self)@, instruction, 0),
                res,
                final(self)@,
            ),
    {
        let random = match instruction {
            Instruction::Rand { .. } => random_byte(&mut self.rng),
            _ => 0,
        };
        let res = self.execute_with(instruction, random);
        assert(ends_as(old(self)@, execute(old(self)@, instruction, random), res, self@));
        res
    }

    /// Carries out one instruction, with `random` as the byte that a `Rand`
    /// draws. On an error the machine is left as it was.
    pub fn execute_with(&mut self, instruction: Instruction, random: u8) -> (res: Result<
        (),
        EmulatorError,
    >)
        requires
            old(self)@.wf(),
            instruction.wf(),
        ensures
            final(self)@.wf(),
            ends_as(old(self)@, execute(old(self)@, instruction, random), res, final(self)@),
    {
        let res = self.dispatch(instruction, random);
        proof {
            lemma_execute_keeps_wf(old(self)@, instruction, random);
        }
        res
    }

    /// Hands an instruction to the code that carries it out.
    fn dispatch(&mut self, instruction: Instruction, random: u8) -> (res: Result<
        (),
        EmulatorError,
    >)
        requires
            old(self)@.wf(),
            instruction.wf(),
        ensures
            ends_as(old(self)@, execute(old(self)@, instruction, random), res, final(self)@),
    {
        match instruction {
            Instruction::Sys { addr: _ } => Ok(()),
            Instruction::ClearScreen => {
                self.display.reset();
                Ok(())
            },
            Instruction::Return => self.ret(),
            Instruction::Jump { addr } => {
                self.set_pc(addr);
                Ok(())
            },
            Instruction::Call { addr } => self.call(addr),
            Instruction::SkipRegEqImm { reg, imm } => {
                self.skip_if(self.v[reg] == imm);
                Ok(())
            },
            Instruction::SkipRegNeqImm { reg, imm } => {
                self.skip_if(self.v[reg] != imm);
                Ok(())
            },
            Instruction::SkipRegEqReg { reg_x, reg_y } => {
                self.skip_if(self.v[reg_x] == self.v[reg_y]);
                Ok(())
            },
            Instruction::StoreRegFromImm { reg, imm } => {
                self.set_reg(reg, imm);
                Ok(())
            },
            Instruction::StoreRegFromReg { reg_x, reg_y } => {
                self.set_reg(reg_x, self.v[reg_y]);
                Ok(())
            },
            Instruction::AddRegImm { reg, imm } => {
                let (sum, _) = add_bytes(self.v[reg], imm);
                self.set_reg(reg, sum);
                Ok(())
            },
            Instruction::AddRegReg { reg_x, reg_y } => {
                let (sum, carry) = add_bytes(self.v[reg_x], self.v[reg_y]);
                self.set_reg_and_flag(reg_x, sum, carry);
                Ok(())
            },
            Instruction::OrRegReg { reg_x, reg_y } => {
                self.set_reg(reg_x, self.v[reg_x] | self.v[reg_y]);
                Ok(())
            },
            Instruction::AndRegReg { reg_x, reg_y } => {
                self.set_reg(reg_x, self.v[reg_x] & self.v[reg_y]);
                Ok(())
            },
            Instruction::XorRegReg { reg_x, reg_y } => {
                self.set_reg(reg_x, self.v[reg_x] ^ self.v[reg_y]);
                Ok(())
            },
            Instruction::SubRegReg { reg_x, reg_y } => {
                let (difference, no_borrow) = sub_bytes(self.v[reg_x], self.v[reg_y]);
                self.set_reg_and_flag(reg_x, difference, no_borrow);
                Ok(())
            },
            Instruction::ShiftRight { reg } => {
                let (shifted, out) = shift_right(self.v[reg]);
                self.set_reg_and_flag(reg, shifted, out);
                Ok(())
            },
            Instruction::SubnRegReg { reg_x, reg_y } => {
                let (difference, no_borrow) = sub_bytes(self.v[reg_y], self.v[reg_x]);
                self.set_reg_and_flag(reg_x, difference, no_borrow);
                Ok(())
            },
            Instruction::ShiftLeft { reg } => {
                let (shifted, out) = shift_left(self.v[reg]);
                self.set_reg_and_flag(reg, shifted, out);
                Ok(())
            },
            Instruction::SkipRegNeqReg { reg_x, reg_y } => {
                self.skip_if(self.v[reg_x] != self.v[reg_y]);
                Ok(())
            },
            Instruction::SetI { addr } => {
                self.set_index(addr);
                Ok(())
            },
            Instruction::JumpWithOffset { addr } => {
                self.set_pc((self.v[0] as u16) + addr);
                Ok(())
            },
            Instruction::Rand { reg, mask } => {
                self.set_reg(reg, random & mask);
                Ok(())
            },
            Instruction::Draw { reg_x, reg_y, height } => self.draw(reg_x, reg_y, height),
            Instruction::SkipIfKey { reg } => {
                let down = self.key_down(self.v[reg]);
                self.skip_if(down);
                Ok(())
            },
            Instruction::SkipIfNotKey { reg } => {
                let down = self.key_down(self.v[reg]);
                self.skip_if(!down);
                Ok(())
            },
            Instruction::LoadDelayTimer { reg } => {
                self.set_reg(reg, self.delay_timer);
                Ok(())
            },
            Instruction::WaitKeyPress { reg } => {
                self.wait_key(reg);
                Ok(())
            },
            Instruction::SetDelayTimer { reg } => {
                self.delay_timer = self.v[reg];
                Ok(())
            },
            Instruction::SetSoundTimer { reg } => {
                self.sound_timer = self.v[reg];
                Ok(())
            },
            Instruction::AddI { reg } => {
                self.set_index(self.i.wrapping_add(self.v[reg] as u16));
                Ok(())
            },
            Instruction::SetIToSprite { reg } => self.set_index_to_sprite(reg),
            Instruction::StoreBCD { reg } => self.store_bcd(reg),
            Instruction::StoreRegisters { reg } => self.store_registers(reg),
            Instruction::LoadRegisters { reg } => self.load_registers(reg),
        }
    }

    /// The `Return` instruction.
    fn ret(&mut self) -> (res: Result<(), EmulatorError>)
        requires
            old(self)@.wf(),
        ensures
            ends_as(old(self)@, execute(old(self)@, Instruction::Return, 0), res, final(self)@),
    {
        if self.stack_pointer == 0 {
            return Err(EmulatorError::StackUnderflow);
        }
        self.program_counter = self.stack[self.stack_pointer];
        self.stack_pointer -= 1;
        Ok(())
    }

    /// The `Call` instruction.
    fn call(&mut self, addr: u16) -> (res: Result<(), EmulatorError>)
        requires
            old(self)@.wf(),
        ensures
            ends_as(
                old(self)@,
                execute(old(self)@, Instruction::Call { addr }, 0),
                res,
                final(self)@,
            ),
    {
        if self.stack_pointer >= MAX_DEPTH {
            return Err(EmulatorError::StackOverflow);
        }
        self.stack_pointer += 1;
        self.stack[self.stack_pointer] = self.program_counter;
        self.program_counter = addr;
        Ok(())
    }

    /// The `SetIToSprite` instruction.
    fn set_index_to_sprite(&mut self, reg: usize) -> (res: Result<(), EmulatorError>)
        requires
            reg < 16,
        ensures
            ends_as(
                old(self)@,
                execute(old(self)@, Instruction::SetIToSprite { reg }, 0),
                res,
                final(self)@,
            ),
    {
        match FontDigit::new(self.v[reg] as usize) {
            Ok(digit) => {
                self.i = FONT_START + 5 * (digit.get() as u16);
                Ok(())
            },
            Err(_) => Err(EmulatorError::InvalidDigit { value: self.v[reg] }),
        }
    }

    /// Sets the program counter.
    fn set_pc(&mut self, pc: u16)
        ensures
            final(self)@ == (MachineState { pc, ..old(self)@ }),
    {
        self.program_counter = pc;
    }

    /// Sets the index register.
    fn set_index(&mut self, i: u16)
        ensures
            final(self)@ == (MachineState { i, ..old(self)@ }),
    {
        self.i = i;
    }

    /// Lets `elapsed_nanos` nanoseconds pass: each timer ticks once for each
    /// whole period of the 60 Hz clock that has gone by since its last tick,
    /// down to zero and no further.
    pub fn tick_timers(&mut self, elapsed_nanos: u64)
        ensures
            final(self)@ == tick(old(self)@, elapsed_nanos as nat),
            old(self)@.wf() ==> final(self)@.wf(),
    {
        let total = self.timer_accum as u128 + elapsed_nanos as u128;
        let ticks = total / (TIMER_PERIOD as u128);
        let drained: u8 = if ticks > 255 {
            255
        } else {
            ticks as u8
        };
        self.timer_accum = (total % (TIMER_PERIOD as u128)) as u64;
        self.delay_timer = if self.delay_timer > drained {
            self.delay_timer - drained
        } else {
            0
        };
        self.sound_timer = if self.sound_timer > drained {
            self.sound_timer - drained
        } else {
            0
        };
    }

    /// Skips the next instruction if `condition` holds.
    fn skip_if(&mut self, condition: bool)
        ensures
            final(self)@ == skip_if(old(self)@, condition),
    {
        if condition {
            self.program_counter = self.program_counter.wrapping_add(2);
        }
    }

    /// Sets a register.
    fn set_reg(&mut self, reg: usize, value: u8)
        requires
            reg < 16,
        ensures
            final(self)@ == set_reg(old(self)@, reg as int, value),
    {
        self.v[reg] = value;
    }

    /// Sets a register and then the flag register.
    fn set_reg_and_flag(&mut self, reg: usize, value: u8, set: bool)
        requires
            reg < 16,
        ensures
            final(self)@ == set_reg_and_flag(old(self)@, reg as int, value, set),
    {
        self.v[reg] = value;
        self.v[0xF] = if set {
            1
        } else {
            0
        };
    }

    /// Whether the key that `value` names is down.
    fn key_down(&self, value: u8) -> (down: bool)
        ensures
            down == key_down(self@.keypad, value),
    {
        value < 16 && self.keypad[value as usize]
    }

    /// The `Draw` instruction.
    fn draw(&mut self, reg_x: usize, reg_y: usize, height: u8) -> (res: Result<(), EmulatorError>)
        requires
            old(self)@.wf(),
            reg_x < 16,
            reg_y < 16,
            height < 16,
        ensures
            ends_as(
                old(self)@,
                execute(old(self)@, Instruction::Draw { reg_x, reg_y, height }, 0),
                res,
                final(self)@,
            ),
    {
        proof {
            self.display.lemma_view_len();
        }
        let rows = height as usize;
        let start = self.i as usize;
        if rows > 0 && start + rows > MEMORY_SIZE {
            return Err(EmulatorError::AddressOutOfRange { address: self.i });
        }
        let x = self.v[reg_x];
        let y = self.v[reg_y];
        assert(x & 0x3F == x % 64 && y & 0x1F == y % 32) by (bit_vector);
        let v_x = (x & 0x3F) as usize;
        let v_y = (y & 0x1F) as usize;
        let ghost before = self@;
        let mut flip = false;
        let mut row: usize = 0;
        while row < rows
            invariant
                row <= rows < 16,
                rows > 0 ==> start + rows <= 4096,
                start == before.i,
                v_x < 64,
                v_y < 32,
                before.display.len() == 2048,
                self@ == (MachineState {
                    display: draw_sprite_pixels(
                        before.display,
                        sprite_rows(before.memory, start as int, row as int),
                        v_x as int,
                        v_y as int,
                    ),
                    ..before
                }),
                flip == sprite_collides(
                    before.display,
                    sprite_rows(before.memory, start as int, row as int),
                    v_x as int,
                    v_y as int,
                ),
            decreases rows - row,
        {
            let byte = self.memory[start + row];
            let hit = self.display.draw_byte(byte, v_x, v_y + row);
            flip = flip || hit;
            proof {
                let sprite = sprite_rows(before.memory, start as int, rows as int);
                assert(sprite.take(row as int) =~= sprite_rows(
                    before.memory,
                    start as int,
                    row as int,
                ));
                assert(sprite.take(row + 1) =~= sprite_rows(
                    before.memory,
                    start as int,
                    row + 1,
                ));
                lemma_draw_next_row(
                    before.display,
                    sprite,
                    row as int,
                    v_x as int,
                    v_y as int,
                );
            }
            row += 1;
        }
        self.v[0xF] = if flip {
            1
        } else {
            0
        };
        Ok(())
    }

    /// The `WaitKeyPress` instruction.
    fn wait_key(&mut self, reg: usize)
        requires
            reg < 16,
        ensures
            Ok::<MachineState, EmulatorError>(final(self)@) == execute(
                old(self)@,
                Instruction::WaitKeyPress { reg },
                0,
            ),
    {
        let mut idx: usize = 0;
        while idx < 16
            invariant
                idx <= 16,
                reg < 16,
                self@ == old(self)@,
                forall|j: int| 0 <= j < idx ==> !self@.keypad[j],
            decreases 16 - idx,
        {
            if self.keypad[idx] {
                proof {
                    lemma_first_key_down(self@.keypad, idx as int);
                }
                self.v[reg] = idx as u8;
                return ;
            }
            idx += 1;
        }
        self.program_counter = self.program_counter.wrapping_sub(2);
    }

    /// The `StoreBCD` instruction.
    fn store_bcd(&mut self, reg: usize) -> (res: Result<(), EmulatorError>)
        requires
            reg < 16,
        ensures
            ends_as(
                old(self)@,
                execute(old(self)@, Instruction::StoreBCD { reg }, 0),
                res,
                final(self)@,
            ),
    {
        let start = self.i as usize;
        if start + 2 >= MEMORY_SIZE {
            return Err(EmulatorError::AddressOutOfRange { address: self.i });
        }
        let x = self.v[reg];
        self.memory[start] = x / 100;
        self.memory[start + 1] = x / 10 % 10;
        self.memory[start + 2] = x % 10;
        Ok(())
    }

    /// The `StoreRegisters` instruction.
    fn store_registers(&mut self, reg: usize) -> (res: Result<(), EmulatorError>)
        requires
            reg < 16,
        ensures
            ends_as(
                old(self)@,
                execute(old(self)@, Instruction::StoreRegisters { reg }, 0),
                res,
                final(self)@,
            ),
    {
        let start = self.i as usize;
        if start + reg >= MEMORY_SIZE {
            return Err(EmulatorError::AddressOutOfRange { address: self.i });
        }
        let ghost before = self@;
        let mut offset: usize = 0;
        while offset <= reg
            invariant
                offset <= reg + 1,
                reg < 16,
                start + reg < 4096,
                start == before.i,
                self@ == (MachineState {
                    memory: Seq::new(
                        4096,
                        |a: int|
                            if start <= a < start + offset {
                                before.v[a - start]
                            } else {
                                before.memory[a]
                            },
                    ),
                    ..before
                }),
            decreases reg + 1 - offset,
        {
            self.memory[start + offset] = self.v[offset];
            offset += 1;
        }
        assert(self@.memory =~= Seq::new(
            4096,
            |a: int|
                if before.i <= a <= before.i + reg {
                    before.v[a - before.i]
                } else {
                    before.memory[a]
                },
        ));
        Ok(())
    }

    /// The `LoadRegisters` instruction.
    fn load_registers(&mut self, reg: usize) -> (res: Result<(), EmulatorError>)
        requires
            reg < 16,
        ensures
            ends_as(
                old(self)@,
                execute(old(self)@, Instruction::LoadRegisters { reg }, 0),
                res,
                final(self)@,
            ),
    {
        let start = self.i as usize;
        if start + reg >= MEMORY_SIZE {
            return Err(EmulatorError::AddressOutOfRange { address: self.i });
        }
        let ghost before = self@;
        let mut offset: usize = 0;
        while offset <= reg
            invariant
                offset <= reg + 1,
                reg < 16,
                start + reg < 4096,
                start == before.i,
                self@ == (MachineState {
                    v: Seq::new(
                        16,
                        |r: int|
                            if r < offset {
                                before.memory[start + r]
                            } else {
                                before.v[r]
                            },
                    ),
                    ..before
                }),
            decreases reg + 1 - offset,
        {
            self.v[offset] = self.memory[start + offset];
            offset += 1;
        }
        assert(self@.v =~= Seq::new(
            16,
            |r: int|
                if r <= reg {
                    before.memory[before.i + r]
                } else {
                    before.v[r]
                },
        ));
        Ok(())
    }
}

} // verus!
