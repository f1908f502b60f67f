use noelv::gr_gpio::{Gpio, GpioWrite, Input, LowLevelPin, Output, OutputWrite, PinState};

fn apply(output: u32, w: OutputWrite) -> u32 {
    match w {
        OutputWrite::LogicOr(v) => output | v,
        OutputWrite::LogicAnd(v) => output & v,
        OutputWrite::LogicXor(v) => output ^ v,
    }
}

#[test]
fn output_writes_of_a_pin() {
    let (_gpio, pins) = Gpio::new();
    let pin = LowLevelPin::new(pins.p16);
    assert_eq!(pin.set_high(), OutputWrite::LogicOr(1 << 16));
    assert_eq!(pin.set_low(), OutputWrite::LogicAnd(!(1 << 16)));
    assert_eq!(pin.toggle(), OutputWrite::LogicXor(1 << 16));
}

#[test]
fn set_high_low_toggle_effects() {
    let (_gpio, pins) = Gpio::new();
    let pin = LowLevelPin::new(pins.p3);
    let output = 0x0000_0101u32;
    let high = apply(output, pin.set_high());
    assert!(pin.is_set_high(high));
    assert_eq!(high & !(1 << 3), output);
    let low = apply(high, pin.set_low());
    assert!(pin.is_set_low(low));
    assert_eq!(low, output);
    let toggled = apply(output, pin.toggle());
    assert!(pin.is_set_high(toggled));
    assert_eq!(apply(toggled, pin.toggle()), output);
}

#[test]
fn read_pins() {
    let (_gpio, pins) = Gpio::new();
    let pin = LowLevelPin::new(pins.p0);
    assert!(pin.is_high(1));
    assert!(pin.is_low(2));
    assert!(!pin.is_set_high(0xffff_fffe));
    let pin19 = LowLevelPin::new(pins.p19);
    assert!(pin19.is_high(1 << 19));
    assert!(pin19.is_low(!(1 << 19)));
}

#[test]
fn direction_and_input_enable() {
    let (_gpio, pins) = Gpio::new();
    let pin = LowLevelPin::new(pins.p5);
    assert_eq!(pin.enable_output(0), 1 << 5);
    assert_eq!(pin.disable_output(0xff), 0xdf);
    assert_eq!(pin.set_input_enable(true, 0x1), 0x21);
    assert_eq!(pin.set_input_enable(false, 0x21), 0x1);
}

#[test]
fn steal_keeps_offset_as_u8() {
    let pin = LowLevelPin::steal(256 + 4);
    assert_eq!(pin.set_high(), OutputWrite::LogicOr(1 << 4));
    let pin = LowLevelPin::steal(31);
    assert_eq!(pin.toggle(), OutputWrite::LogicXor(1 << 31));
}

#[test]
fn input_pin_setup() {
    let (gpio, pins) = Gpio::new();
    let (input, writes) = gpio.input_pin(pins.p2, 0x1, 0xff);
    assert_eq!(writes, [GpioWrite::InputEnable(0x5), GpioWrite::Dir(0xfb)]);
    assert!(input.is_high(0x4));
    assert!(input.is_low(0x3));
    let (_input, writes) = Input::new(pins.p7, 0, 0);
    assert_eq!(writes, [GpioWrite::InputEnable(0x80), GpioWrite::Dir(0)]);
}

#[test]
fn output_pin_setup() {
    let (gpio, pins) = Gpio::new();
    let (led0, writes) = gpio.output_pin(pins.p16, PinState::Low, 0x1);
    // the level is written before the direction
    assert_eq!(writes, [GpioWrite::Output(OutputWrite::LogicAnd(!(1 << 16))), GpioWrite::Dir(0x1_0001)]);
    let GpioWrite::Output(level) = writes[0] else { panic!("level first") };
    let out = apply(0xffff_ffff, level);
    assert!(led0.is_set_low(out));
    let out = apply(out, led0.toggle());
    assert!(led0.is_set_high(out));
    assert_eq!(led0.set_high(), OutputWrite::LogicOr(1 << 16));
    assert_eq!(led0.set_low(), OutputWrite::LogicAnd(!(1 << 16)));
    let (led1, writes) = Output::new(pins.p17, PinState::High, 0);
    assert_eq!(writes, [GpioWrite::Output(OutputWrite::LogicOr(1 << 17)), GpioWrite::Dir(1 << 17)]);
    let GpioWrite::Output(level) = writes[0] else { panic!("level first") };
    assert!(led1.is_set_high(apply(0, level)));
    assert_eq!(apply(0x8000_0000, level), 0x8002_0000);
}
