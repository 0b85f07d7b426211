//! A CHIP-8 virtual machine whose behaviour is stated in contracts.
//!
//! The machine interprets the base CHIP-8 instruction set over 4096 bytes of
//! memory, a display of 64 by 32 pixels, two 60 Hz timers and sixteen keys.
//! It does no input or output and keeps no time of its own: a driver calls
//! [`emulator::Emulator::step`] once per cycle with the time that has passed,
//! hands over the state of the keys and reads the display.
//!
//! The module [`machine`] holds the mathematical model: the state and what
//! fetching, executing and ticking do to it. The executable code is proved
//! to do what the model says, and [`theorems`] holds what follows from the
//! model for every program. Three things are believed and not proved: that
//! `rand` hands out its generator, that the generator yields a byte, and that
//! `String::push` appends a character. They stand in [`random`] and in the
//! private module `text`.

pub mod display;
pub mod emulator;
pub mod error;
pub mod fonts;
pub mod frontend;
pub mod instruction;
pub mod machine;
pub mod opcode;
pub mod random;
mod text;
pub mod theorems;
