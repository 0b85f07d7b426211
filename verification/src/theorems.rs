//! What holds of the machine whatever program it runs.

use crate::display::{
    byte_collides, draw_byte_pixels, draw_sprite_pixels, row_covers, sprite_collides,
    sprite_covers,
};
use crate::error::EmulatorError;
use crate::instruction::{decode_word, lemma_decode_then_encode, Instruction};
use crate::machine::{
    any_key_down, draws_random, execute, fetch, flag, is_first_key_down, lemma_execute_keeps_wf,
    lemma_first_key_down, lemma_random_unused, pc_after, sprite_rows, step, tick, MachineState,
    TIMER_PERIOD,
};
use vstd::prelude::*;

verus! {

/// XOR is its own inverse: a sprite row drawn twice at one place leaves the
/// screen as it was. The second drawing turns a lit pixel off exactly if the
/// first one lit a pixel that was dark.
pub proof fn lemma_draw_byte_twice(pixels: Seq<bool>, byte: u8, x: int, y: int)
    requires
        pixels.len() == 2048,
    ensures
        draw_byte_pixels(draw_byte_pixels(pixels, byte, x, y), byte, x, y) == pixels,
        byte_collides(draw_byte_pixels(pixels, byte, x, y), byte, x, y) <==> exists|k: int|
            0 <= k < 2048 && !pixels[k] && #[trigger] row_covers(byte, x, y, k),
{
    let once = draw_byte_pixels(pixels, byte, x, y);
    assert(draw_byte_pixels(once, byte, x, y) =~= pixels);
    if byte_collides(once, byte, x, y) {
        let k = choose|k: int| 0 <= k < 2048 && once[k] && #[trigger] row_covers(byte, x, y, k);
        assert(!pixels[k]);
    }
    if exists|k: int| 0 <= k < 2048 && !pixels[k] && #[trigger] row_covers(byte, x, y, k) {
        let k = choose|k: int| 0 <= k < 2048 && !pixels[k] && #[trigger] row_covers(byte, x, y, k);
        assert(once[k]);
    }
}

/// XOR is its own inverse: a sprite drawn twice at one place leaves the
/// screen as it was. The second drawing turns a lit pixel off exactly if the
/// first one lit a pixel that was dark.
pub proof fn lemma_draw_sprite_twice(pixels: Seq<bool>, rows: Seq<u8>, x: int, y: int)
    requires
        pixels.len() == 2048,
    ensures
        draw_sprite_pixels(draw_sprite_pixels(pixels, rows, x, y), rows, x, y) == pixels,
        sprite_collides(draw_sprite_pixels(pixels, rows, x, y), rows, x, y) <==> exists|k: int|
            0 <= k < 2048 && !pixels[k] && #[trigger] sprite_covers(rows, x, y, k),
{
    let once = draw_sprite_pixels(pixels, rows, x, y);
    assert(draw_sprite_pixels(once, rows, x, y) =~= pixels);
    if sprite_collides(once, rows, x, y) {
        let k = choose|k: int| 0 <= k < 2048 && once[k] && #[trigger] sprite_covers(rows, x, y, k);
        assert(!pixels[k]);
    }
    if exists|k: int| 0 <= k < 2048 && !pixels[k] && #[trigger] sprite_covers(rows, x, y, k) {
        let k = choose|k: int|
            0 <= k < 2048 && !pixels[k] && #[trigger] sprite_covers(rows, x, y, k);
        assert(once[k]);
    }
}

/// A `Draw` instruction carried out twice restores the display, provided
/// that the second drawing is at the place of the first: the first one writes
/// the flag register, which moves the sprite where that register is one of
/// the two that hold the place. The flag after the second drawing says
/// whether the first one lit a pixel that was dark.
pub proof fn lemma_draw_instruction_twice(
    s: MachineState,
    reg_x: usize,
    reg_y: usize,
    height: u8,
    random: u8,
)
    requires
        s.wf(),
        (Instruction::Draw { reg_x, reg_y, height }).wf(),
        execute(s, Instruction::Draw { reg_x, reg_y, height }, random) matches Ok(first)
            && first.v[reg_x as int] % 64 == s.v[reg_x as int] % 64 && first.v[reg_y as int] % 32
            == s.v[reg_y as int] % 32,
    ensures
        ({
            let draw = Instruction::Draw { reg_x, reg_y, height };
            let rows = sprite_rows(s.memory, s.i as int, height as int);
            let x = (s.v[reg_x as int] % 64) as int;
            let y = (s.v[reg_y as int] % 32) as int;
            &&& execute(s, draw, random) matches Ok(first)
            &&& execute(first, draw, random) matches Ok(second)
            &&& second.display == s.display
            &&& second.v[0xF] == flag(
                exists|k: int|
                    0 <= k < 2048 && !s.display[k] && #[trigger] sprite_covers(rows, x, y, k),
            )
        }),
{
    let rows = sprite_rows(s.memory, s.i as int, height as int);
    let x = (s.v[reg_x as int] % 64) as int;
    let y = (s.v[reg_y as int] % 32) as int;
    lemma_draw_sprite_twice(s.display, rows, x, y);
}

/// A jump sets the program counter to its address and to nothing else: the
/// cycle does not advance it any further.
pub proof fn lemma_jump_sets_pc(s: MachineState, addr: u16, elapsed: nat, random: u8)
    requires
        s.wf(),
        fetch(s) matches Ok(word) && decode_word(word) == Some(Instruction::Jump { addr }),
    ensures
        step(s, elapsed, random) matches Ok(after) && after.pc == addr,
{
}

/// A cycle on a `WaitKeyPress` while no key is down changes nothing but the
/// timers: the program counter stays on the instruction, which the next cycle
/// fetches again.
pub proof fn lemma_wait_key_stalls(s: MachineState, reg: usize, elapsed: nat, random: u8)
    requires
        s.wf(),
        fetch(s) matches Ok(word) && decode_word(word) == Some(
            Instruction::WaitKeyPress { reg },
        ),
        !any_key_down(s.keypad),
    ensures
        step(s, elapsed, random) == Ok::<MachineState, EmulatorError>(tick(s, elapsed)),
{
    let advanced = MachineState { pc: pc_after(s.pc), ..s };
    let stalled = execute(advanced, Instruction::WaitKeyPress { reg }, random)->Ok_0;
    assert(stalled =~= s);
}

/// A cycle on a `WaitKeyPress` while a key is down moves the program counter
/// on by two and sets the register to the lowest key that is down.
pub proof fn lemma_wait_key_resumes(
    s: MachineState,
    reg: usize,
    key: int,
    elapsed: nat,
    random: u8,
)
    requires
        s.wf(),
        reg < 16,
        fetch(s) matches Ok(word) && decode_word(word) == Some(
            Instruction::WaitKeyPress { reg },
        ),
        is_first_key_down(s.keypad, key),
    ensures
        step(s, elapsed, random) matches Ok(after) && after.pc == s.pc + 2 && after.v[reg as int]
            == key,
{
    lemma_first_key_down(s.keypad, key);
}

/// The state after a run of cycles, one for each entry of `elapsed`, with
/// the same keys down throughout; or the first error.
pub open spec fn run(s: MachineState, elapsed: Seq<nat>, random: Seq<u8>) -> Result<
    MachineState,
    EmulatorError,
>
    decreases elapsed.len(),
{
    if elapsed.len() == 0 {
        Ok(s)
    } else {
        match step(s, elapsed[0], random[0]) {
            Err(e) => Err(e),
            Ok(after) => run(after, elapsed.skip(1), random.skip(1)),
        }
    }
}

/// However many cycles run on a `WaitKeyPress` while no key is down, the
/// program counter stays where it is, and so do the registers, the memory
/// and the display.
pub proof fn lemma_wait_key_stalls_for_ever(
    s: MachineState,
    reg: usize,
    elapsed: Seq<nat>,
    random: Seq<u8>,
)
    requires
        s.wf(),
        fetch(s) matches Ok(word) && decode_word(word) == Some(
            Instruction::WaitKeyPress { reg },
        ),
        !any_key_down(s.keypad),
    ensures
        run(s, elapsed, random) matches Ok(after) && after == (MachineState {
            delay_timer: after.delay_timer,
            sound_timer: after.sound_timer,
            timer_accum: after.timer_accum,
            ..s
        }),
    decreases elapsed.len(),
{
    if elapsed.len() > 0 {
        lemma_wait_key_stalls(s, reg, elapsed[0], random[0]);
        let next = tick(s, elapsed[0]);
        lemma_wait_key_stalls_for_ever(next, reg, elapsed.skip(1), random.skip(1));
    }
}

/// A cycle that succeeds leaves the machine in a state that a machine can be
/// in.
pub proof fn lemma_step_keeps_wf(s: MachineState, elapsed: nat, random: u8)
    requires
        s.wf(),
    ensures
        step(s, elapsed, random) matches Ok(after) ==> after.wf(),
{
    if let Ok(word) = fetch(s) {
        if let Some(instruction) = decode_word(word) {
            lemma_decode_then_encode(word);
            lemma_execute_keeps_wf(MachineState { pc: pc_after(s.pc), ..s }, instruction, random);
        }
    }
}

/// A cycle depends on the random byte only where it carries out a `Rand`.
pub proof fn lemma_step_random_unused(s: MachineState, elapsed: nat, r1: u8, r2: u8)
    requires
        !draws_random(s),
    ensures
        step(s, elapsed, r1) == step(s, elapsed, r2),
{
    if let Ok(word) = fetch(s) {
        if let Some(instruction) = decode_word(word) {
            lemma_random_unused(MachineState { pc: pc_after(s.pc), ..s }, instruction, r1, r2);
        }
    }
}

/// A timer never counts up and never passes zero.
pub proof fn lemma_timers_count_down(s: MachineState, elapsed: nat)
    ensures
        0 <= tick(s, elapsed).delay_timer <= s.delay_timer,
        0 <= tick(s, elapsed).sound_timer <= s.sound_timer,
{
}

/// The timers go by the time that has passed and not by the number of
/// cycles in which it passed: two spans of time one after the other tick the
/// timers as their sum does at once.
pub proof fn lemma_tick_adds_up(s: MachineState, first: nat, second: nat)
    requires
        s.wf(),
    ensures
        tick(tick(s, first), second) == tick(s, first + second),
{
    let period = TIMER_PERIOD as int;
    let total = (s.timer_accum + first) as int;
    vstd::arithmetic::div_mod::lemma_fundamental_div_mod(total as int, period);
    vstd::arithmetic::div_mod::lemma_hoist_over_denominator(
        total % period + second,
        total / period,
        period as nat,
    );
    vstd::arithmetic::div_mod::lemma_mod_multiples_vanish(
        total / period,
        total % period + second,
        period,
    );
    assert(tick(tick(s, first), second) =~= tick(s, first + second));
}

} // verus!
