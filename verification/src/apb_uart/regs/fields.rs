//! Bit layouts of the APBUART registers.
use vstd::prelude::*;

use crate::bits::{bit, bit_spec, field, field_spec, with_bit, with_bit_spec, with_field, with_field_spec};

verus! {

/// The data register: one byte to transmit or received.
#[derive(Clone, Copy, Debug, PartialEq, Eq, Structural)]
pub struct Data {
    raw: u32,
}

impl View for Data {
    type V = u32;

    closed spec fn view(&self) -> u32 {
        self.raw
    }
}

impl Default for Data {
    /// The reset value: every bit cleared.
    fn default() -> (r: Data)
        ensures
            r@ == 0,
    {
        Data { raw: 0 }
    }
}

impl Data {
    /// The register value `raw`, bit for bit.
    pub fn new_with_raw_value(raw: u32) -> (r: Data)
        ensures
            r@ == raw,
    {
        Data { raw }
    }

    /// The whole register value.
    pub fn raw_value(&self) -> (r: u32)
        ensures
            r == self@,
    {
        self.raw
    }

    /// The data byte (bits 0..=7).
    pub fn data(&self) -> (r: u8)
        ensures
            r == field_spec(self@, 0, 0xff),
            r <= 0xff,
    {
        field(self.raw, 0, 0xff) as u8
    }

    /// This value with `data` (bits 0..=7) set to `value`.
    pub fn with_data(self, value: u8) -> (r: Data)
        ensures
            r@ == with_field_spec(self@, 0, 0xff, value as u32),
    {
        Data { raw: with_field(self.raw, 0, 0xff, value as u32) }
    }

}

/// The status register.
#[derive(Clone, Copy, Debug, PartialEq, Eq, Structural)]
pub struct Status {
    raw: u32,
}

impl View for Status {
    type V = u32;

    closed spec fn view(&self) -> u32 {
        self.raw
    }
}

impl Default for Status {
    /// The reset value: every bit cleared.
    fn default() -> (r: Status)
        ensures
            r@ == 0,
    {
        Status { raw: 0 }
    }
}

impl Status {
    /// The register value `raw`, bit for bit.
    pub fn new_with_raw_value(raw: u32) -> (r: Status)
        ensures
            r@ == raw,
    {
        Status { raw }
    }

    /// The whole register value.
    pub fn raw_value(&self) -> (r: u32)
        ensures
            r == self@,
    {
        self.raw
    }

    /// Number of bytes in the receiver FIFO (bits 26..=31).
    pub fn rx_fifo_count(&self) -> (r: u8)
        ensures
            r == field_spec(self@, 26, 0x3f),
            r <= 0x3f,
    {
        field(self.raw, 26, 0x3f) as u8
    }

    /// This value with `rx_fifo_count` (bits 26..=31) set to `value`.
    pub fn with_rx_fifo_count(self, value: u8) -> (r: Status)
        requires
            value <= 0x3f,
        ensures
            r@ == with_field_spec(self@, 26, 0x3f, value as u32),
    {
        Status { raw: with_field(self.raw, 26, 0x3f, value as u32) }
    }

    /// Number of bytes in the transmitter FIFO (bits 20..=25).
    pub fn tx_fifo_count(&self) -> (r: u8)
        ensures
            r == field_spec(self@, 20, 0x3f),
            r <= 0x3f,
    {
        field(self.raw, 20, 0x3f) as u8
    }

    /// This value with `tx_fifo_count` (bits 20..=25) set to `value`.
    pub fn with_tx_fifo_count(self, value: u8) -> (r: Status)
        requires
            value <= 0x3f,
        ensures
            r@ == with_field_spec(self@, 20, 0x3f, value as u32),
    {
        Status { raw: with_field(self.raw, 20, 0x3f, value as u32) }
    }

    /// Receiver FIFO full (bit 10).
    pub fn rx_fifo_full(&self) -> (r: bool)
        ensures
            r == bit_spec(self@, 10),
    {
        bit(self.raw, 10)
    }

    /// This value with `rx_fifo_full` (bit 10) set to `value`.
    pub fn with_rx_fifo_full(self, value: bool) -> (r: Status)
        ensures
            r@ == with_bit_spec(self@, 10, value),
    {
        Status { raw: with_bit(self.raw, 10, value) }
    }

    /// Transmitter FIFO full (bit 9).
    pub fn tx_fifo_full(&self) -> (r: bool)
        ensures
            r == bit_spec(self@, 9),
    {
        bit(self.raw, 9)
    }

    /// This value with `tx_fifo_full` (bit 9) set to `value`.
    pub fn with_tx_fifo_full(self, value: bool) -> (r: Status)
        ensures
            r@ == with_bit_spec(self@, 9, value),
    {
        Status { raw: with_bit(self.raw, 9, value) }
    }

    /// Receiver FIFO at least half full (bit 8).
    pub fn rx_fifo_half_full(&self) -> (r: bool)
        ensures
            r == bit_spec(self@, 8),
    {
        bit(self.raw, 8)
    }

    /// This value with `rx_fifo_half_full` (bit 8) set to `value`.
    pub fn with_rx_fifo_half_full(self, value: bool) -> (r: Status)
        ensures
            r@ == with_bit_spec(self@, 8, value),
    {
        Status { raw: with_bit(self.raw, 8, value) }
    }

    /// Transmitter FIFO at most half full (bit 7).
    pub fn tx_fifo_half_full(&self) -> (r: bool)
        ensures
            r == bit_spec(self@, 7),
    {
        bit(self.raw, 7)
    }

    /// This value with `tx_fifo_half_full` (bit 7) set to `value`.
    pub fn with_tx_fifo_half_full(self, value: bool) -> (r: Status)
        ensures
            r@ == with_bit_spec(self@, 7, value),
    {
        Status { raw: with_bit(self.raw, 7, value) }
    }

    /// Framing error (bit 6).
    pub fn framing_error(&self) -> (r: bool)
        ensures
            r == bit_spec(self@, 6),
    {
        bit(self.raw, 6)
    }

    /// This value with `framing_error` (bit 6) set to `value`.
    pub fn with_framing_error(self, value: bool) -> (r: Status)
        ensures
            r@ == with_bit_spec(self@, 6, value),
    {
        Status { raw: with_bit(self.raw, 6, value) }
    }

    /// Parity error (bit 5).
    pub fn parity_error(&self) -> (r: bool)
        ensures
            r == bit_spec(self@, 5),
    {
        bit(self.raw, 5)
    }

    /// This value with `parity_error` (bit 5) set to `value`.
    pub fn with_parity_error(self, value: bool) -> (r: Status)
        ensures
            r@ == with_bit_spec(self@, 5, value),
    {
        Status { raw: with_bit(self.raw, 5, value) }
    }

    /// Overrun (bit 4).
    pub fn overrun(&self) -> (r: bool)
        ensures
            r == bit_spec(self@, 4),
    {
        bit(self.raw, 4)
    }

    /// This value with `overrun` (bit 4) set to `value`.
    pub fn with_overrun(self, value: bool) -> (r: Status)
        ensures
            r@ == with_bit_spec(self@, 4, value),
    {
        Status { raw: with_bit(self.raw, 4, value) }
    }

    /// Break received (bit 3).
    pub fn break_received(&self) -> (r: bool)
        ensures
            r == bit_spec(self@, 3),
    {
        bit(self.raw, 3)
    }

    /// This value with `break_received` (bit 3) set to `value`.
    pub fn with_break_received(self, value: bool) -> (r: Status)
        ensures
            r@ == with_bit_spec(self@, 3, value),
    {
        Status { raw: with_bit(self.raw, 3, value) }
    }

    /// Transmitter FIFO empty (bit 2).
    pub fn tx_fifo_empty(&self) -> (r: bool)
        ensures
            r == bit_spec(self@, 2),
    {
        bit(self.raw, 2)
    }

    /// This value with `tx_fifo_empty` (bit 2) set to `value`.
    pub fn with_tx_fifo_empty(self, value: bool) -> (r: Status)
        ensures
            r@ == with_bit_spec(self@, 2, value),
    {
        Status { raw: with_bit(self.raw, 2, value) }
    }

    /// Transmitter shift register empty (bit 1).
    pub fn tx_shiftreg_empty(&self) -> (r: bool)
        ensures
            r == bit_spec(self@, 1),
    {
        bit(self.raw, 1)
    }

    /// This value with `tx_shiftreg_empty` (bit 1) set to `value`.
    pub fn with_tx_shiftreg_empty(self, value: bool) -> (r: Status)
        ensures
            r@ == with_bit_spec(self@, 1, value),
    {
        Status { raw: with_bit(self.raw, 1, value) }
    }

    /// Data ready (bit 0).
    pub fn data_ready(&self) -> (r: bool)
        ensures
            r == bit_spec(self@, 0),
    {
        bit(self.raw, 0)
    }

    /// This value with `data_ready` (bit 0) set to `value`.
    pub fn with_data_ready(self, value: bool) -> (r: Status)
        ensures
            r@ == with_bit_spec(self@, 0, value),
    {
        Status { raw: with_bit(self.raw, 0, value) }
    }

}

/// Parity select field of the control register.
#[derive(Clone, Copy, Debug, PartialEq, Eq, Structural)]
pub enum ParitySelect {
    Even,
    Odd,
}

impl ParitySelect {
    /// The variant encoded by the one-bit value `value`.
    pub fn new_with_raw_value(value: u8) -> (r: ParitySelect)
        requires
            value <= 1,
        ensures
            r == (if value == 0 { ParitySelect::Even } else { ParitySelect::Odd }),
    {
        if value == 0 {
            ParitySelect::Even
        } else {
            ParitySelect::Odd
        }
    }

    /// The one-bit encoding of this variant.
    pub fn raw_value(self) -> (r: u8)
        ensures
            r == (if self == ParitySelect::Even { 0u8 } else { 1u8 }),
    {
        match self {
            ParitySelect::Even => 0,
            ParitySelect::Odd => 1,
        }
    }
}

/// Stop bits field of the control register.
#[derive(Clone, Copy, Debug, PartialEq, Eq, Structural)]
pub enum StopBits {
    One,
    Two,
}

impl StopBits {
    /// The variant encoded by the one-bit value `value`.
    pub fn new_with_raw_value(value: u8) -> (r: StopBits)
        requires
            value <= 1,
        ensures
            r == (if value == 0 { StopBits::One } else { StopBits::Two }),
    {
        if value == 0 {
            StopBits::One
        } else {
            StopBits::Two
        }
    }

    /// The one-bit encoding of this variant.
    pub fn raw_value(self) -> (r: u8)
        ensures
            r == (if self == StopBits::One { 0u8 } else { 1u8 }),
    {
        match self {
            StopBits::One => 0,
            StopBits::Two => 1,
        }
    }
}

/// The control register.
#[derive(Clone, Copy, Debug, PartialEq, Eq, Structural)]
pub struct Control {
    raw: u32,
}

impl View for Control {
    type V = u32;

    closed spec fn view(&self) -> u32 {
        self.raw
    }
}

impl Default for Control {
    /// The reset value: every bit cleared.
    fn default() -> (r: Control)
        ensures
            r@ == 0,
    {
        Control { raw: 0 }
    }
}

impl Control {
    /// The register value `raw`, bit for bit.
    pub fn new_with_raw_value(raw: u32) -> (r: Control)
        ensures
            r@ == raw,
    {
        Control { raw }
    }

    /// The whole register value.
    pub fn raw_value(&self) -> (r: u32)
        ensures
            r == self@,
    {
        self.raw
    }

    /// FIFOs available (bit 31).
    pub fn fifo_available(&self) -> (r: bool)
        ensures
            r == bit_spec(self@, 31),
    {
        bit(self.raw, 31)
    }

    /// Transmit break (bit 20).
    pub fn transmit_break(&self) -> (r: bool)
        ensures
            r == bit_spec(self@, 20),
    {
        bit(self.raw, 20)
    }

    /// This value with `transmit_break` (bit 20) set to `value`.
    pub fn with_transmit_break(self, value: bool) -> (r: Control)
        ensures
            r@ == with_bit_spec(self@, 20, value),
    {
        Control { raw: with_bit(self.raw, 20, value) }
    }

    /// Break size (bits 16..=19).
    pub fn break_size(&self) -> (r: u8)
        ensures
            r == field_spec(self@, 16, 0xf),
            r <= 0xf,
    {
        field(self.raw, 16, 0xf) as u8
    }

    /// This value with `break_size` (bits 16..=19) set to `value`.
    pub fn with_break_size(self, value: u8) -> (r: Control)
        requires
            value <= 0xf,
        ensures
            r@ == with_field_spec(self@, 16, 0xf, value as u32),
    {
        Control { raw: with_field(self.raw, 16, 0xf, value as u32) }
    }

    /// Number of stop bits (bit 15).
    pub fn stop_bits(&self) -> (r: StopBits)
        ensures
            r == (if bit_spec(self@, 15) { StopBits::Two } else { StopBits::One }),
    {
        if bit(self.raw, 15) {
            StopBits::Two
        } else {
            StopBits::One
        }
    }

    /// This value with the number of stop bits (bit 15) set to `value`.
    pub fn with_stop_bits(self, value: StopBits) -> (r: Control)
        ensures
            r@ == with_bit_spec(self@, 15, value == StopBits::Two),
    {
        let two = match value {
            StopBits::One => false,
            StopBits::Two => true,
        };
        Control { raw: with_bit(self.raw, 15, two) }
    }

    /// Transmitter shift register empty interrupt enable (bit 14).
    pub fn tx_shiftreg_empty_interrupt_enable(&self) -> (r: bool)
        ensures
            r == bit_spec(self@, 14),
    {
        bit(self.raw, 14)
    }

    /// This value with `tx_shiftreg_empty_interrupt_enable` (bit 14) set to `value`.
    pub fn with_tx_shiftreg_empty_interrupt_enable(self, value: bool) -> (r: Control)
        ensures
            r@ == with_bit_spec(self@, 14, value),
    {
        Control { raw: with_bit(self.raw, 14, value) }
    }

    /// Delayed interrupt enable (bit 13).
    pub fn delayed_interrupt_enable(&self) -> (r: bool)
        ensures
            r == bit_spec(self@, 13),
    {
        bit(self.raw, 13)
    }

    /// This value with `delayed_interrupt_enable` (bit 13) set to `value`.
    pub fn with_delayed_interrupt_enable(self, value: bool) -> (r: Control)
        ensures
            r@ == with_bit_spec(self@, 13, value),
    {
        Control { raw: with_bit(self.raw, 13, value) }
    }

    /// Break interrupt enable (bit 12).
    pub fn break_interrupt_enable(&self) -> (r: bool)
        ensures
            r == bit_spec(self@, 12),
    {
        bit(self.raw, 12)
    }

    /// This value with `break_interrupt_enable` (bit 12) set to `value`.
    pub fn with_break_interrupt_enable(self, value: bool) -> (r: Control)
        ensures
            r@ == with_bit_spec(self@, 12, value),
    {
        Control { raw: with_bit(self.raw, 12, value) }
    }

    /// FIFO debug mode enabled (bit 11).
    pub fn fifo_debug_enabled(&self) -> (r: bool)
        ensures
            r == bit_spec(self@, 11),
    {
        bit(self.raw, 11)
    }

    /// Receiver FIFO interrupt enable (bit 10).
    pub fn rx_fifo_interrupt_enable(&self) -> (r: bool)
        ensures
            r == bit_spec(self@, 10),
    {
        bit(self.raw, 10)
    }

    /// This value with `rx_fifo_interrupt_enable` (bit 10) set to `value`.
    pub fn with_rx_fifo_interrupt_enable(self, value: bool) -> (r: Control)
        ensures
            r@ == with_bit_spec(self@, 10, value),
    {
        Control { raw: with_bit(self.raw, 10, value) }
    }

    /// Transmitter FIFO interrupt enable (bit 9).
    pub fn tx_fifo_interrupt_enable(&self) -> (r: bool)
        ensures
            r == bit_spec(self@, 9),
    {
        bit(self.raw, 9)
    }

    /// This value with `tx_fifo_interrupt_enable` (bit 9) set to `value`.
    pub fn with_tx_fifo_interrupt_enable(self, value: bool) -> (r: Control)
        ensures
            r@ == with_bit_spec(self@, 9, value),
    {
        Control { raw: with_bit(self.raw, 9, value) }
    }

    /// External clock (bit 8).
    pub fn external_clock(&self) -> (r: bool)
        ensures
            r == bit_spec(self@, 8),
    {
        bit(self.raw, 8)
    }

    /// This value with `external_clock` (bit 8) set to `value`.
    pub fn with_external_clock(self, value: bool) -> (r: Control)
        ensures
            r@ == with_bit_spec(self@, 8, value),
    {
        Control { raw: with_bit(self.raw, 8, value) }
    }

    /// Loop back (bit 7).
    pub fn loopback(&self) -> (r: bool)
        ensures
            r == bit_spec(self@, 7),
    {
        bit(self.raw, 7)
    }

    /// This value with `loopback` (bit 7) set to `value`.
    pub fn with_loopback(self, value: bool) -> (r: Control)
        ensures
            r@ == with_bit_spec(self@, 7, value),
    {
        Control { raw: with_bit(self.raw, 7, value) }
    }

    /// Flow control (bit 6).
    pub fn flow_control(&self) -> (r: bool)
        ensures
            r == bit_spec(self@, 6),
    {
        bit(self.raw, 6)
    }

    /// This value with `flow_control` (bit 6) set to `value`.
    pub fn with_flow_control(self, value: bool) -> (r: Control)
        ensures
            r@ == with_bit_spec(self@, 6, value),
    {
        Control { raw: with_bit(self.raw, 6, value) }
    }

    /// Parity enable (bit 5).
    pub fn parity_enable(&self) -> (r: bool)
        ensures
            r == bit_spec(self@, 5),
    {
        bit(self.raw, 5)
    }

    /// This value with `parity_enable` (bit 5) set to `value`.
    pub fn with_parity_enable(self, value: bool) -> (r: Control)
        ensures
            r@ == with_bit_spec(self@, 5, value),
    {
        Control { raw: with_bit(self.raw, 5, value) }
    }

    /// Parity select (bit 4).
    pub fn parity_select(&self) -> (r: ParitySelect)
        ensures
            r == (if bit_spec(self@, 4) { ParitySelect::Odd } else { ParitySelect::Even }),
    {
        if bit(self.raw, 4) {
            ParitySelect::Odd
        } else {
            ParitySelect::Even
        }
    }

    /// This value with the parity select (bit 4) set to `value`.
    pub fn with_parity_select(self, value: ParitySelect) -> (r: Control)
        ensures
            r@ == with_bit_spec(self@, 4, value == ParitySelect::Odd),
    {
        let odd = match value {
            ParitySelect::Even => false,
            ParitySelect::Odd => true,
        };
        Control { raw: with_bit(self.raw, 4, odd) }
    }

    /// Transmitter interrupt enable (bit 3).
    pub fn enable_tx_interrupt(&self) -> (r: bool)
        ensures
            r == bit_spec(self@, 3),
    {
        bit(self.raw, 3)
    }

    /// This value with `enable_tx_interrupt` (bit 3) set to `value`.
    pub fn with_enable_tx_interrupt(self, value: bool) -> (r: Control)
        ensures
            r@ == with_bit_spec(self@, 3, value),
    {
        Control { raw: with_bit(self.raw, 3, value) }
    }

    /// Receiver interrupt enable (bit 2).
    pub fn enable_rx_interrupt(&self) -> (r: bool)
        ensures
            r == bit_spec(self@, 2),
    {
        bit(self.raw, 2)
    }

    /// This value with `enable_rx_interrupt` (bit 2) set to `value`.
    pub fn with_enable_rx_interrupt(self, value: bool) -> (r: Control)
        ensures
            r@ == with_bit_spec(self@, 2, value),
    {
        Control { raw: with_bit(self.raw, 2, value) }
    }

    /// Transmitter enable (bit 1).
    pub fn enable_tx(&self) -> (r: bool)
        ensures
            r == bit_spec(self@, 1),
    {
        bit(self.raw, 1)
    }

    /// This value with `enable_tx` (bit 1) set to `value`.
    pub fn with_enable_tx(self, value: bool) -> (r: Control)
        ensures
            r@ == with_bit_spec(self@, 1, value),
    {
        Control { raw: with_bit(self.raw, 1, value) }
    }

    /// Receiver enable (bit 0).
    pub fn enable_rx(&self) -> (r: bool)
        ensures
            r == bit_spec(self@, 0),
    {
        bit(self.raw, 0)
    }

    /// This value with `enable_rx` (bit 0) set to `value`.
    pub fn with_enable_rx(self, value: bool) -> (r: Control)
        ensures
            r@ == with_bit_spec(self@, 0, value),
    {
        Control { raw: with_bit(self.raw, 0, value) }
    }

}

/// The capability register.
#[derive(Clone, Copy, Debug, PartialEq, Eq, Structural)]
pub struct Capability {
    raw: u32,
}

impl View for Capability {
    type V = u32;

    closed spec fn view(&self) -> u32 {
        self.raw
    }
}

impl Default for Capability {
    /// The reset value: every bit cleared.
    fn default() -> (r: Capability)
        ensures
            r@ == 0,
    {
        Capability { raw: 0 }
    }
}

impl Capability {
    /// The register value `raw`, bit for bit.
    pub fn new_with_raw_value(raw: u32) -> (r: Capability)
        ensures
            r@ == raw,
    {
        Capability { raw }
    }

    /// The whole register value.
    pub fn raw_value(&self) -> (r: u32)
        ensures
            r == self@,
    {
        self.raw
    }

    /// Flow control available (bit 6).
    pub fn flow_control(&self) -> (r: bool)
        ensures
            r == bit_spec(self@, 6),
    {
        bit(self.raw, 6)
    }

    /// This value with `flow_control` (bit 6) set to `value`.
    pub fn with_flow_control(self, value: bool) -> (r: Capability)
        ensures
            r@ == with_bit_spec(self@, 6, value),
    {
        Capability { raw: with_bit(self.raw, 6, value) }
    }

    /// FIFO size (bits 0..=5).
    pub fn fifo_size(&self) -> (r: u8)
        ensures
            r == field_spec(self@, 0, 0x3f),
            r <= 0x3f,
    {
        field(self.raw, 0, 0x3f) as u8
    }

    /// This value with `fifo_size` (bits 0..=5) set to `value`.
    pub fn with_fifo_size(self, value: u8) -> (r: Capability)
        requires
            value <= 0x3f,
        ensures
            r@ == with_field_spec(self@, 0, 0x3f, value as u32),
    {
        Capability { raw: with_field(self.raw, 0, 0x3f, value as u32) }
    }

}

} // verus!
