//! Bit layouts of the GPTIMER registers.
use vstd::prelude::*;

use crate::bits::{bit, bit_spec, field, field_spec, with_bit, with_bit_spec, with_field, with_field_spec};

verus! {

/// Scaler value and scaler reload value registers.
#[derive(Clone, Copy, Debug, PartialEq, Eq, Structural)]
pub struct Scaler {
    raw: u32,
}

impl View for Scaler {
    type V = u32;

    closed spec fn view(&self) -> u32 {
        self.raw
    }
}

impl Default for Scaler {
    /// The reset value: every bit cleared.
    fn default() -> (r: Scaler)
        ensures
            r@ == 0,
    {
        Scaler { raw: 0 }
    }
}

impl Scaler {
    /// The register value `raw`, bit for bit.
    pub fn new_with_raw_value(raw: u32) -> (r: Scaler)
        ensures
            r@ == raw,
    {
        Scaler { raw }
    }

    /// The whole register value.
    pub fn raw_value(&self) -> (r: u32)
        ensures
            r == self@,
    {
        self.raw
    }

    /// Scaler value (bits 0..=15).
    pub fn value(&self) -> (r: u16)
        ensures
            r == field_spec(self@, 0, 0xffff),
            r <= 0xffff,
    {
        field(self.raw, 0, 0xffff) as u16
    }

    /// This value with the scaler value (bits 0..=15) set to `value`.
    pub fn with_value(self, value: u16) -> (r: Scaler)
        ensures
            r@ == with_field_spec(self@, 0, 0xffff, value as u32),
    {
        Scaler { raw: with_field(self.raw, 0, 0xffff, value as u32) }
    }

}

/// The configuration register.
#[derive(Clone, Copy, Debug, PartialEq, Eq, Structural)]
pub struct Config {
    raw: u32,
}

impl View for Config {
    type V = u32;

    closed spec fn view(&self) -> u32 {
        self.raw
    }
}

impl Default for Config {
    /// The reset value: every bit cleared.
    fn default() -> (r: Config)
        ensures
            r@ == 0,
    {
        Config { raw: 0 }
    }
}

impl Config {
    /// The register value `raw`, bit for bit.
    pub fn new_with_raw_value(raw: u32) -> (r: Config)
        ensures
            r@ == raw,
    {
        Config { raw }
    }

    /// The whole register value.
    pub fn raw_value(&self) -> (r: u32)
        ensures
            r == self@,
    {
        self.raw
    }

    /// Timer enable of timer `index` (bit `16 + index`).
    pub fn enable_timer(&self, index: usize) -> (r: bool)
        requires
            index < 7,
        ensures
            r == bit_spec(self@, (16 + index) as u32),
    {
        bit(self.raw, 16 + index as u32)
    }

    /// This value with the timer enable of timer `index` (bit `16 + index`) set to `value`.
    pub fn with_enable_timer(self, index: usize, value: bool) -> (r: Config)
        requires
            index < 7,
        ensures
            r@ == with_bit_spec(self@, (16 + index) as u32, value),
    {
        Config { raw: with_bit(self.raw, 16 + index as u32, value) }
    }

    /// Timer enable by external event (bit 13).
    pub fn external_event(&self) -> (r: bool)
        ensures
            r == bit_spec(self@, 13),
    {
        bit(self.raw, 13)
    }

    /// This value with `external_event` (bit 13) set to `value`.
    pub fn with_external_event(self, value: bool) -> (r: Config)
        ensures
            r@ == with_bit_spec(self@, 13, value),
    {
        Config { raw: with_bit(self.raw, 13, value) }
    }

    /// Timer enable set (bit 12).
    pub fn enable_set(&self) -> (r: bool)
        ensures
            r == bit_spec(self@, 12),
    {
        bit(self.raw, 12)
    }

    /// This value with `enable_set` (bit 12) set to `value`.
    pub fn with_enable_set(self, value: bool) -> (r: Config)
        ensures
            r@ == with_bit_spec(self@, 12, value),
    {
        Config { raw: with_bit(self.raw, 12, value) }
    }

    /// Latching enable (bit 11).
    pub fn enable_latching(&self) -> (r: bool)
        ensures
            r == bit_spec(self@, 11),
    {
        bit(self.raw, 11)
    }

    /// This value with `enable_latching` (bit 11) set to `value`.
    pub fn with_enable_latching(self, value: bool) -> (r: Config)
        ensures
            r@ == with_bit_spec(self@, 11, value),
    {
        Config { raw: with_bit(self.raw, 11, value) }
    }

    /// Separate interrupts (bit 8).
    pub fn separate_interrupts(&self) -> (r: bool)
        ensures
            r == bit_spec(self@, 8),
    {
        bit(self.raw, 8)
    }

    /// Interrupt number of the first timer (bits 3..=7).
    pub fn irq(&self) -> (r: u8)
        ensures
            r == field_spec(self@, 3, 0x1f),
            r <= 0x1f,
    {
        field(self.raw, 3, 0x1f) as u8
    }

    /// Number of implemented timers (bits 0..=2).
    pub fn num_timers(&self) -> (r: u8)
        ensures
            r == field_spec(self@, 0, 0x7),
            r <= 0x7,
    {
        field(self.raw, 0, 0x7) as u8
    }

}

/// The control register of one timer.
#[derive(Clone, Copy, Debug, PartialEq, Eq, Structural)]
pub struct Control {
    raw: u32,
}

impl View for Control {
    type V = u32;

    closed spec fn view(&self) -> u32 {
        self.raw
    }
}

impl Default for Control {
    /// The reset value: every bit cleared.
    fn default() -> (r: Control)
        ensures
            r@ == 0,
    {
        Control { raw: 0 }
    }
}

impl Control {
    /// The register value `raw`, bit for bit.
    pub fn new_with_raw_value(raw: u32) -> (r: Control)
        ensures
            r@ == raw,
    {
        Control { raw }
    }

    /// The whole register value.
    pub fn raw_value(&self) -> (r: u32)
        ensures
            r == self@,
    {
        self.raw
    }

    /// Watchdog increment reload value (bits 16..=31).
    pub fn watchdog_increment_reload(&self) -> (r: u16)
        ensures
            r == field_spec(self@, 16, 0xffff),
            r <= 0xffff,
    {
        field(self.raw, 16, 0xffff) as u16
    }

    /// This value with `watchdog_increment_reload` (bits 16..=31) set to `value`.
    pub fn with_watchdog_increment_reload(self, value: u16) -> (r: Control)
        ensures
            r@ == with_field_spec(self@, 16, 0xffff, value as u32),
    {
        Control { raw: with_field(self.raw, 16, 0xffff, value as u32) }
    }

    /// Disable watchdog output (bit 8).
    pub fn disable_watchdog_output(&self) -> (r: bool)
        ensures
            r == bit_spec(self@, 8),
    {
        bit(self.raw, 8)
    }

    /// This value with `disable_watchdog_output` (bit 8) set to `value`.
    pub fn with_disable_watchdog_output(self, value: bool) -> (r: Control)
        ensures
            r@ == with_bit_spec(self@, 8, value),
    {
        Control { raw: with_bit(self.raw, 8, value) }
    }

    /// Watchdog non-maskable interrupt enable (bit 7).
    pub fn enable_watchdog_nmi(&self) -> (r: bool)
        ensures
            r == bit_spec(self@, 7),
    {
        bit(self.raw, 7)
    }

    /// Debug halt (bit 6).
    pub fn debug_halt(&self) -> (r: bool)
        ensures
            r == bit_spec(self@, 6),
    {
        bit(self.raw, 6)
    }

    /// Chain with the preceding timer (bit 5).
    pub fn chain(&self) -> (r: bool)
        ensures
            r == bit_spec(self@, 5),
    {
        bit(self.raw, 5)
    }

    /// This value with `chain` (bit 5) set to `value`.
    pub fn with_chain(self, value: bool) -> (r: Control)
        ensures
            r@ == with_bit_spec(self@, 5, value),
    {
        Control { raw: with_bit(self.raw, 5, value) }
    }

    /// Interrupt pending (bit 4).
    pub fn interrupt_pending(&self) -> (r: bool)
        ensures
            r == bit_spec(self@, 4),
    {
        bit(self.raw, 4)
    }

    /// This value with `interrupt_pending` (bit 4) set to `value`.
    pub fn with_interrupt_pending(self, value: bool) -> (r: Control)
        ensures
            r@ == with_bit_spec(self@, 4, value),
    {
        Control { raw: with_bit(self.raw, 4, value) }
    }

    /// Interrupt enable (bit 3).
    pub fn interrupt_enable(&self) -> (r: bool)
        ensures
            r == bit_spec(self@, 3),
    {
        bit(self.raw, 3)
    }

    /// This value with `interrupt_enable` (bit 3) set to `value`.
    pub fn with_interrupt_enable(self, value: bool) -> (r: Control)
        ensures
            r@ == with_bit_spec(self@, 3, value),
    {
        Control { raw: with_bit(self.raw, 3, value) }
    }

    /// Load the reload value into the counter (bit 2).
    pub fn load(&self) -> (r: bool)
        ensures
            r == bit_spec(self@, 2),
    {
        bit(self.raw, 2)
    }

    /// This value with `load` (bit 2) set to `value`.
    pub fn with_load(self, value: bool) -> (r: Control)
        ensures
            r@ == with_bit_spec(self@, 2, value),
    {
        Control { raw: with_bit(self.raw, 2, value) }
    }

    /// Restart from the reload value on underflow (bit 1).
    pub fn restart(&self) -> (r: bool)
        ensures
            r == bit_spec(self@, 1),
    {
        bit(self.raw, 1)
    }

    /// This value with `restart` (bit 1) set to `value`.
    pub fn with_restart(self, value: bool) -> (r: Control)
        ensures
            r@ == with_bit_spec(self@, 1, value),
    {
        Control { raw: with_bit(self.raw, 1, value) }
    }

    /// Timer enable (bit 0).
    pub fn enable(&self) -> (r: bool)
        ensures
            r == bit_spec(self@, 0),
    {
        bit(self.raw, 0)
    }

    /// This value with `enable` (bit 0) set to `value`.
    pub fn with_enable(self, value: bool) -> (r: Control)
        ensures
            r@ == with_bit_spec(self@, 0, value),
    {
        Control { raw: with_bit(self.raw, 0, value) }
    }

}

} // verus!
