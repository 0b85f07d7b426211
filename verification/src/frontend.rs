//! What a front end offers to the program that drives the machine.

use std::time::Duration;
use vstd::prelude::*;

verus! {

/// A front end owns a machine, shows its display, samples the keys for it
/// and paces its cycles. The machine does no input or output of its own.
pub trait Frontend {
    /// Samples the keys and hands their state to the machine.
    fn poll_keys(&mut self);

    /// Shows the machine's display.
    fn render_display(&mut self);

    /// Sounds the buzzer.
    fn play_sound(&self);

    /// Runs one cycle of the machine, for which `duration` has passed since
    /// the cycle before.
    fn step(&mut self, duration: Duration);

    /// Runs cycles until the user ends the program.
    fn run(&mut self);
}

} // verus!
