//! GRGPIO general purpose I/O driver.
use vstd::prelude::*;

use crate::bits::{bit, bit_spec, with_bit, with_bit_spec, lemma_with_bit, lemma_xor_bit};

verus! {

/// Level of a pin.
#[derive(Clone, Copy, Debug, PartialEq, Eq, Structural)]
pub enum PinState {
    Low,
    High,
}

/// Marker for the GPIO line `OFFSET`, handed out once by [`Gpio::new`].
#[derive(Debug)]
pub struct Pin<const OFFSET: usize> {}

/// The GPIO lines of the GRGPIO instance.
#[derive(Debug)]
pub struct Pins {
    pub p0: Pin<0>,
    pub p1: Pin<1>,
    pub p2: Pin<2>,
    pub p3: Pin<3>,
    pub p4: Pin<4>,
    pub p5: Pin<5>,
    pub p6: Pin<6>,
    pub p7: Pin<7>,
    pub p8: Pin<8>,
    pub p9: Pin<9>,
    pub p10: Pin<10>,
    pub p11: Pin<11>,
    pub p12: Pin<12>,
    pub p13: Pin<13>,
    pub p14: Pin<14>,
    pub p15: Pin<15>,
    pub p16: Pin<16>,
    pub p17: Pin<17>,
    pub p18: Pin<18>,
    pub p19: Pin<19>,
}

impl Pins {
    fn new() -> (r: Pins) {
        Pins {
            p0: Pin {},
            p1: Pin {},
            p2: Pin {},
            p3: Pin {},
            p4: Pin {},
            p5: Pin {},
            p6: Pin {},
            p7: Pin {},
            p8: Pin {},
            p9: Pin {},
            p10: Pin {},
            p11: Pin {},
            p12: Pin {},
            p13: Pin {},
            p14: Pin {},
            p15: Pin {},
            p16: Pin {},
            p17: Pin {},
            p18: Pin {},
            p19: Pin {},
        }
    }
}

/// A write to one of the output register's logic registers, which the GRGPIO applies to the
/// output register in one bus access.
#[derive(Clone, Copy, Debug, PartialEq, Eq, Structural)]
pub enum OutputWrite {
    /// Write to the output logic-OR register: `output |= value`.
    LogicOr(u32),
    /// Write to the output logic-AND register: `output &= value`.
    LogicAnd(u32),
    /// Write to the output logic-XOR register: `output ^= value`.
    LogicXor(u32),
}

impl OutputWrite {
    /// The output register's value after this write, given its value `output` before.
    pub open spec fn effect(self, output: u32) -> u32 {
        match self {
            OutputWrite::LogicOr(v) => output | v,
            OutputWrite::LogicAnd(v) => output & v,
            OutputWrite::LogicXor(v) => output ^ v,
        }
    }
}

/// A register write that configures a GPIO line.
#[derive(Clone, Copy, Debug, PartialEq, Eq, Structural)]
pub enum GpioWrite {
    /// Write this value to the input-enable register.
    InputEnable(u32),
    /// Write this value to the direction register.
    Dir(u32),
    /// A write to one of the output logic registers.
    Output(OutputWrite),
}

/// The write that sets the output level of line `offset` to `level`.
pub open spec fn level_write(offset: u32, level: PinState) -> OutputWrite {
    if level == PinState::High {
        OutputWrite::LogicOr(1u32 << offset)
    } else {
        OutputWrite::LogicAnd(!(1u32 << offset))
    }
}

/// The writes, in order, that make line `offset` an input, given the current values of the
/// input-enable register (`input_enable`) and of the direction register (`dir`): input
/// enabled first, then output disabled.
pub open spec fn input_setup(offset: u32, input_enable: u32, dir: u32) -> Seq<GpioWrite> {
    seq![
        GpioWrite::InputEnable(with_bit_spec(input_enable, offset, true)),
        GpioWrite::Dir(with_bit_spec(dir, offset, false)),
    ]
}

/// The writes, in order, that make line `offset` an output at level `level`, given the
/// current value of the direction register (`dir`): the level first, so that the line never
/// drives a stale level, then the direction.
pub open spec fn output_setup(offset: u32, level: PinState, dir: u32) -> Seq<GpioWrite> {
    seq![GpioWrite::Output(level_write(offset, level)), GpioWrite::Dir(with_bit_spec(dir, offset, true))]
}

/// Driver of a GRGPIO register block.
#[derive(Debug)]
pub struct Gpio {}

impl Gpio {
    /// The driver and the markers of its GPIO lines.
    pub fn new() -> (r: (Gpio, Pins)) {
        let pins = Pins::new();
        (Gpio {}, pins)
    }

    /// Makes `pin` an input, see [`Input::new`].
    pub fn input_pin<const OFFSET: usize>(&self, pin: Pin<OFFSET>, input_enable: u32, dir: u32) -> (r: (
        Input,
        [GpioWrite; 2],
    ))
        requires
            OFFSET < 32,
        ensures
            r.0.pin_offset() == OFFSET,
            r.1@ == input_setup(OFFSET as u32, input_enable, dir),
    {
        Input::new(pin, input_enable, dir)
    }

    /// Makes `pin` an output at level `init_level`, see [`Output::new`].
    pub fn output_pin<const OFFSET: usize>(&self, pin: Pin<OFFSET>, init_level: PinState, dir: u32) -> (r: (
        Output,
        [GpioWrite; 2],
    ))
        requires
            OFFSET < 32,
        ensures
            r.0.pin_offset() == OFFSET,
            r.1@ == output_setup(OFFSET as u32, init_level, dir),
    {
        Output::new(pin, init_level, dir)
    }
}

/// Register-level access to one GPIO line.
///
/// Methods that modify a register take its current value and return its new value; methods
/// that read one take the value read; methods that set the output level return the write to
/// the output logic registers.
#[derive(Debug)]
pub struct LowLevelPin {
    offset: u8,
}

impl LowLevelPin {
    #[verifier::type_invariant]
    spec fn inv(self) -> bool {
        self.offset < 32
    }

    /// The line's bit position in the GPIO registers.
    pub closed spec fn pin_offset(&self) -> u32 {
        self.offset as u32
    }

    /// Access to the line of `_pin`.
    pub fn new<const OFFSET: usize>(_pin: Pin<OFFSET>) -> (r: LowLevelPin)
        requires
            OFFSET < 32,
        ensures
            r.pin_offset() == OFFSET,
    {
        Self::steal(OFFSET)
    }

    /// Access to line `offset` without its marker; the offset is kept as a `u8`.
    pub fn steal(offset: usize) -> (r: LowLevelPin)
        requires
            offset % 256 < 32,
        ensures
            r.pin_offset() == offset % 256,
    {
        LowLevelPin { offset: (offset % 256) as u8 }
    }

    /// The new value of the input-enable register, given its value `input_enable`: the line's
    /// bit set to `enable`.
    pub fn set_input_enable(&self, enable: bool, input_enable: u32) -> (r: u32)
        ensures
            r == with_bit_spec(input_enable, self.pin_offset(), enable),
    {
        proof {
            use_type_invariant(self);
        }
        with_bit(input_enable, self.offset as u32, enable)
    }

    /// The new value of the direction register, given its value `dir`: the line driven as an
    /// output.
    pub fn enable_output(&self, dir: u32) -> (r: u32)
        ensures
            r == with_bit_spec(dir, self.pin_offset(), true),
    {
        proof {
            use_type_invariant(self);
        }
        with_bit(dir, self.offset as u32, true)
    }

    /// The new value of the direction register, given its value `dir`: the line not driven.
    pub fn disable_output(&self, dir: u32) -> (r: u32)
        ensures
            r == with_bit_spec(dir, self.pin_offset(), false),
    {
        proof {
            use_type_invariant(self);
        }
        with_bit(dir, self.offset as u32, false)
    }

    /// Whether the output register value `output` drives the line high.
    pub fn is_set_high(&self, output: u32) -> (r: bool)
        ensures
            r == bit_spec(output, self.pin_offset()),
    {
        proof {
            use_type_invariant(self);
        }
        bit(output, self.offset as u32)
    }

    /// Whether the output register value `output` drives the line low.
    pub fn is_set_low(&self, output: u32) -> (r: bool)
        ensures
            r == !bit_spec(output, self.pin_offset()),
    {
        !self.is_set_high(output)
    }

    /// Whether the data register value `data` shows the line high.
    pub fn is_high(&self, data: u32) -> (r: bool)
        ensures
            r == bit_spec(data, self.pin_offset()),
    {
        proof {
            use_type_invariant(self);
        }
        bit(data, self.offset as u32)
    }

    /// Whether the data register value `data` shows the line low.
    pub fn is_low(&self, data: u32) -> (r: bool)
        ensures
            r == !bit_spec(data, self.pin_offset()),
    {
        !self.is_high(data)
    }

    /// The write that drives the line high: its bit to the output logic-OR register.
    pub fn set_high(&self) -> (r: OutputWrite)
        ensures
            r == OutputWrite::LogicOr(1u32 << self.pin_offset()),
    {
        proof {
            use_type_invariant(self);
        }
        OutputWrite::LogicOr(1u32 << self.offset as u32)
    }

    /// The write that drives the line low: every bit but its own to the output logic-AND
    /// register.
    pub fn set_low(&self) -> (r: OutputWrite)
        ensures
            r == OutputWrite::LogicAnd(!(1u32 << self.pin_offset())),
    {
        proof {
            use_type_invariant(self);
        }
        OutputWrite::LogicAnd(!(1u32 << self.offset as u32))
    }

    /// The write that inverts the line's output level: its bit to the output logic-XOR
    /// register.
    pub fn toggle(&self) -> (r: OutputWrite)
        ensures
            r == OutputWrite::LogicXor(1u32 << self.pin_offset()),
    {
        proof {
            use_type_invariant(self);
        }
        OutputWrite::LogicXor(1u32 << self.offset as u32)
    }
}

/// A GPIO line configured as an input.
#[derive(Debug)]
pub struct Input(LowLevelPin);

impl Input {
    /// The line's bit position in the GPIO registers.
    pub closed spec fn pin_offset(&self) -> u32 {
        self.0.pin_offset()
    }

    /// Makes the line of `pin` an input: given the current values of the input-enable
    /// register (`input_enable`) and of the direction register (`dir`), returns the input and
    /// the writes to perform in order: the line's input enabled, then its output disabled.
    ///
    /// It is recommended to use [`Gpio::input_pin`] to get an input pin.
    pub fn new<const OFFSET: usize>(pin: Pin<OFFSET>, input_enable: u32, dir: u32) -> (r: (
        Input,
        [GpioWrite; 2],
    ))
        requires
            OFFSET < 32,
        ensures
            r.0.pin_offset() == OFFSET,
            r.1@ == input_setup(OFFSET as u32, input_enable, dir),
    {
        let pin = LowLevelPin::new(pin);
        let new_input_enable = pin.set_input_enable(true, input_enable);
        let new_dir = pin.disable_output(dir);
        let writes = [GpioWrite::InputEnable(new_input_enable), GpioWrite::Dir(new_dir)];
        assert(writes@ =~= input_setup(OFFSET as u32, input_enable, dir));
        (Input(pin), writes)
    }

    /// Whether the data register value `data` shows the line high.
    pub fn is_high(&self, data: u32) -> (r: bool)
        ensures
            r == bit_spec(data, self.pin_offset()),
    {
        self.0.is_high(data)
    }

    /// Whether the data register value `data` shows the line low.
    pub fn is_low(&self, data: u32) -> (r: bool)
        ensures
            r == !bit_spec(data, self.pin_offset()),
    {
        self.0.is_low(data)
    }
}

/// A GPIO line configured as an output.
#[derive(Debug)]
pub struct Output(LowLevelPin);

impl Output {
    /// The line's bit position in the GPIO registers.
    pub closed spec fn pin_offset(&self) -> u32 {
        self.0.pin_offset()
    }

    /// Makes the line of `pin` an output at level `init_level`: given the current value of
    /// the direction register (`dir`), returns the output and the writes to perform in order:
    /// the level first, so that the line never drives a stale level, then the direction.
    ///
    /// It is recommended to use [`Gpio::output_pin`] to get an output pin.
    pub fn new<const OFFSET: usize>(pin: Pin<OFFSET>, init_level: PinState, dir: u32) -> (r: (
        Output,
        [GpioWrite; 2],
    ))
        requires
            OFFSET < 32,
        ensures
            r.0.pin_offset() == OFFSET,
            r.1@ == output_setup(OFFSET as u32, init_level, dir),
    {
        let pin = LowLevelPin::new(pin);
        let level = match init_level {
            PinState::Low => pin.set_low(),
            PinState::High => pin.set_high(),
        };
        let new_dir = pin.enable_output(dir);
        let writes = [GpioWrite::Output(level), GpioWrite::Dir(new_dir)];
        assert(writes@ =~= output_setup(OFFSET as u32, init_level, dir));
        (Output(pin), writes)
    }

    /// The write that drives the line high.
    pub fn set_high(&self) -> (r: OutputWrite)
        ensures
            r == OutputWrite::LogicOr(1u32 << self.pin_offset()),
    {
        self.0.set_high()
    }

    /// The write that drives the line low.
    pub fn set_low(&self) -> (r: OutputWrite)
        ensures
            r == OutputWrite::LogicAnd(!(1u32 << self.pin_offset())),
    {
        self.0.set_low()
    }

    /// The write that inverts the line's output level.
    pub fn toggle(&self) -> (r: OutputWrite)
        ensures
            r == OutputWrite::LogicXor(1u32 << self.pin_offset()),
    {
        self.0.toggle()
    }

    /// Whether the output register value `output` drives the line high.
    pub fn is_set_high(&self, output: u32) -> (r: bool)
        ensures
            r == bit_spec(output, self.pin_offset()),
    {
        self.0.is_set_high(output)
    }

    /// Whether the output register value `output` drives the line low.
    pub fn is_set_low(&self, output: u32) -> (r: bool)
        ensures
            r == !bit_spec(output, self.pin_offset()),
    {
        self.0.is_set_low(output)
    }
}

/// Driving a line high, low or inverting it changes that line's output bit as named, and
/// leaves the output bit of every other line unchanged; inverting twice restores the output
/// register.
pub proof fn law_output_writes(output: u32, offset: u32, other: u32)
    requires
        offset < 32,
        other < 32,
        other != offset,
    ensures
        bit_spec(OutputWrite::LogicOr(1u32 << offset).effect(output), offset),
        !bit_spec(OutputWrite::LogicAnd(!(1u32 << offset)).effect(output), offset),
        bit_spec(OutputWrite::LogicXor(1u32 << offset).effect(output), offset) == !bit_spec(output, offset),
        bit_spec(OutputWrite::LogicOr(1u32 << offset).effect(output), other) == bit_spec(output, other),
        bit_spec(OutputWrite::LogicAnd(!(1u32 << offset)).effect(output), other) == bit_spec(output, other),
        bit_spec(OutputWrite::LogicXor(1u32 << offset).effect(output), other) == bit_spec(output, other),
        OutputWrite::LogicXor(1u32 << offset).effect(OutputWrite::LogicXor(1u32 << offset).effect(output)) == output,
{
    lemma_with_bit(output, offset, true);
    lemma_with_bit(output, offset, false);
    lemma_xor_bit(output, offset, other);
}

/// Making line `offset` an output at `level`: the level is written first, and once both
/// writes are done the output register drives the line at `level`, every other line keeps its
/// output level, and the direction register drives the line.
pub proof fn law_output_setup(output: u32, dir: u32, offset: u32, level: PinState, other: u32)
    requires
        offset < 32,
        other < 32,
        other != offset,
    ensures
        output_setup(offset, level, dir)[0] == GpioWrite::Output(level_write(offset, level)),
        output_setup(offset, level, dir)[1] == GpioWrite::Dir(with_bit_spec(dir, offset, true)),
        bit_spec(level_write(offset, level).effect(output), offset) == (level == PinState::High),
        bit_spec(level_write(offset, level).effect(output), other) == bit_spec(output, other),
        bit_spec(with_bit_spec(dir, offset, true), offset),
{
    law_output_writes(output, offset, other);
    lemma_with_bit(dir, offset, true);
}

} // verus!
