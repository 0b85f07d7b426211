//! What can stop the machine.

use vstd::prelude::*;

verus! {

/// Why a cycle could not be carried out. A machine that reports one of these
/// is left exactly as it was before the cycle.
#[derive(Clone, Copy, Debug, PartialEq, Eq, Structural)]
pub enum EmulatorError {
    /// The fetched word is none of the defined instructions.
    DecodeError { word: u16 },
    /// A call was issued with the stack at its greatest depth.
    StackOverflow,
    /// A return was issued with an empty stack.
    StackUnderflow,
    /// The glyph of a value above 15 was asked for.
    InvalidDigit { value: u8 },
    /// An instruction was to be fetched from, or to read or write, an address
    /// beyond the 4096 bytes of memory. `address` is where the access was to
    /// start: the program counter for a fetch, else the index register.
    AddressOutOfRange { address: u16 },
}

/// A program image of `len` bytes does not fit between the load address and
/// the end of memory.
#[derive(Clone, Copy, Debug, PartialEq, Eq, Structural)]
pub struct RomLoadError {
    pub len: usize,
}

} // verus!
