//! General Purpose Timer (GPTIMER) driver.
pub mod regs;

use vstd::prelude::*;

use regs::fields::{Config, Control};

verus! {

/// Number of timer blocks in the register block.
pub const NUM_TIMER_BLOCKS: usize = 7;

/// An index past the register block's timer blocks.
#[derive(Clone, Copy, Debug, PartialEq, Eq, Structural)]
pub struct OutOfBoundsError(pub usize);

/// Low-level driver of the GPTIMER register block.
///
/// The modifications take the current register value and return the new one.
#[derive(Debug)]
pub struct TimerLowLevel {}

impl TimerLowLevel {
    pub fn new() -> (r: TimerLowLevel) {
        TimerLowLevel {}
    }

    /// The new value of the configuration register, given its current value `config`:
    /// `f(config)`.
    pub fn modify_config<F: FnOnce(Config) -> Config>(&self, config: Config, f: F) -> (r: Config)
        requires
            f.requires((config,)),
        ensures
            f.ensures((config,), r),
    {
        f(config)
    }

    /// The new value of the control register of timer `timer_index`, given its current value
    /// `control`: `f(control)`, or an error when there is no such timer block.
    pub fn modify_timer_control<F: FnOnce(Control) -> Control>(
        &self,
        timer_index: usize,
        control: Control,
        f: F,
    ) -> (r: Result<Control, OutOfBoundsError>)
        requires
            timer_index < NUM_TIMER_BLOCKS ==> f.requires((control,)),
        ensures
            timer_index < NUM_TIMER_BLOCKS ==> r is Ok && f.ensures((control,), r->Ok_0),
            timer_index >= NUM_TIMER_BLOCKS ==> r == Err::<Control, OutOfBoundsError>(
                OutOfBoundsError(timer_index),
            ),
    {
        if timer_index >= NUM_TIMER_BLOCKS {
            return Err(OutOfBoundsError(timer_index));
        }
        Ok(f(control))
    }
}

} // verus!
