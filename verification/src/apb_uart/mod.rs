//! APBUART transmitter driver.
pub mod regs;

use vstd::prelude::*;

use crate::bits::{bit_spec, with_bit_spec};
use regs::fields::{Control, Data, Status};

verus! {

/// The clock scaler value that makes the APBUART run at `baud` from a system clock of
/// `sys_clk` Hz: `sys_clk / (baud * 8) - 1`.
pub fn calculate_scaler(sys_clk: u32, baud: u32) -> (r: u32)
    requires
        baud > 0,
        baud * 8 <= u32::MAX,
        sys_clk as int / (baud * 8) >= 1,
    ensures
        r == sys_clk as int / (baud * 8) - 1,
{
    sys_clk / (baud * 8) - 1
}

/// The register writes that bring an APBUART up for transmission.
#[derive(Clone, Copy, Debug, PartialEq, Eq, Structural)]
pub struct TxSetup {
    /// The new value of the control register.
    pub control: Control,
    /// The value to write to the scaler register, if any.
    pub scaler: Option<u32>,
}

/// Transmit side of an APBUART that waits for room in the transmitter FIFO before writing
/// each byte.
///
/// Bytes handed to [`TxWithShiftRegister::write`] or [`TxWithShiftRegister::write_byte`] are
/// queued in order; [`TxWithShiftRegister::transmit`] takes a status register value and
/// releases the next byte for the data register only when the transmitter FIFO is not full.
pub struct TxWithShiftRegister {
    pending: Vec<u8>,
}

impl View for TxWithShiftRegister {
    type V = Seq<u8>;

    /// The bytes queued for transmission, oldest first.
    closed spec fn view(&self) -> Seq<u8> {
        self.pending@
    }
}

impl TxWithShiftRegister {
    /// A transmitter with nothing queued, and the writes that enable it: the control register
    /// as read (`control`) with the transmitter enabled, and the scaler register set to
    /// `clk_scaler` when one is given.
    pub fn new(control: Control, clk_scaler: Option<u32>) -> (r: (TxWithShiftRegister, TxSetup))
        ensures
            r.0@ == Seq::<u8>::empty(),
            r.1.control@ == with_bit_spec(control@, 1, true),
            r.1.scaler == clk_scaler,
    {
        let control = control.with_enable_tx(true);
        (TxWithShiftRegister { pending: Vec::new() }, TxSetup { control, scaler: clk_scaler })
    }

    /// The data register value that transmits `data` at once, without waiting for room in the
    /// transmitter FIFO.
    pub fn write_byte_unchecked(&self, data: u8) -> (r: Data)
        ensures
            r@ == data as u32,
    {
        let r = Data::default().with_data(data);
        assert(((0u32 & !(0xffu32 << 0u32)) | (((data as u32) & 0xffu32) << 0u32)) == data as u32)
            by (bit_vector);
        r
    }

    /// Queues `data` for transmission.
    pub fn write_byte(&mut self, data: u8)
        ensures
            final(self)@ == old(self)@.push(data),
    {
        self.pending.push(data);
    }

    /// Queues every byte of `buf` for transmission, in order.
    pub fn write(&mut self, buf: &[u8])
        ensures
            final(self)@ == old(self)@ + buf@,
    {
        let ghost start = self@;
        let mut i: usize = 0;
        while i < buf.len()
            invariant
                i <= buf.len(),
                self@ == start + buf@.subrange(0, i as int),
            decreases buf.len() - i,
        {
            self.write_byte(buf[i]);
            assert(buf@.subrange(0, i + 1) == buf@.subrange(0, i as int).push(buf@[i as int]));
            i = i + 1;
        }
        assert(buf@.subrange(0, buf.len() as int) == buf@);
    }

    /// Given the current status register value, the data register value to write next: the
    /// oldest queued byte, released only when there is one and the transmitter FIFO is not
    /// full. The byte released leaves the queue.
    pub fn transmit(&mut self, status: Status) -> (r: Option<Data>)
        ensures
            old(self)@.len() > 0 && !bit_spec(status@, 9) ==> {
                &&& r is Some
                &&& r->0@ == old(self)@[0] as u32
                &&& final(self)@ == old(self)@.drop_first()
            },
            !(old(self)@.len() > 0 && !bit_spec(status@, 9)) ==> {
                &&& r is None
                &&& final(self)@ == old(self)@
            },
    {
        if self.pending.len() == 0 || status.tx_fifo_full() {
            return None;
        }
        let byte = self.pending.remove(0);
        assert(self@ == old(self)@.drop_first());
        Some(self.write_byte_unchecked(byte))
    }

    /// Whether every queued byte has been released.
    pub fn is_flushed(&self) -> (r: bool)
        ensures
            r == (self@.len() == 0),
    {
        self.pending.len() == 0
    }
}

} // verus!
