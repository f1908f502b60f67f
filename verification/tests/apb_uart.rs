use noelv::apb_uart::regs::fields::{Capability, Control, Data, ParitySelect, Status, StopBits};
use noelv::apb_uart::{calculate_scaler, TxWithShiftRegister};

#[test]
fn scaler_for_115200_baud_at_40_mhz() {
    assert_eq!(calculate_scaler(40_000_000, 115_200), 42);
}

#[test]
fn scaler_for_exact_division() {
    // 80 MHz / (9600 * 8) = 1041.66.. -> 1041 - 1
    assert_eq!(calculate_scaler(80_000_000, 9_600), 1040);
    assert_eq!(calculate_scaler(64, 8), 0);
}

#[test]
fn data_field_round_trip() {
    let d = Data::default().with_data(0xab);
    assert_eq!(d.data(), 0xab);
    assert_eq!(d.raw_value(), 0xab);
    let d = Data::new_with_raw_value(0xffff_ff00).with_data(0x12);
    assert_eq!(d.raw_value(), 0xffff_ff12);
}

#[test]
fn status_bits() {
    let s = Status::new_with_raw_value(1 << 9);
    assert!(s.tx_fifo_full());
    assert!(!s.rx_fifo_full());
    assert!(!s.data_ready());
    let s = Status::new_with_raw_value((5 << 26) | (63 << 20) | 0b1000);
    assert_eq!(s.rx_fifo_count(), 5);
    assert_eq!(s.tx_fifo_count(), 63);
    assert!(s.break_received());
    assert!(!s.tx_fifo_full());
    let s = Status::default().with_tx_fifo_count(7).with_data_ready(true);
    assert_eq!(s.raw_value(), (7 << 20) | 1);
}

#[test]
fn uart_control_fields() {
    let c = Control::default().with_enable_tx(true);
    assert!(c.enable_tx());
    assert!(!c.enable_rx());
    assert_eq!(c.raw_value(), 0b10);
    let c = c.with_stop_bits(StopBits::Two).with_parity_select(ParitySelect::Odd).with_break_size(0xa);
    assert_eq!(c.stop_bits(), StopBits::Two);
    assert_eq!(c.parity_select(), ParitySelect::Odd);
    assert_eq!(c.break_size(), 0xa);
    assert_eq!(c.raw_value(), (0xa << 16) | (1 << 15) | (1 << 4) | 0b10);
    let c = c.with_stop_bits(StopBits::One).with_enable_tx(false);
    assert_eq!(c.raw_value(), (0xa << 16) | (1 << 4));
    assert!(Control::new_with_raw_value(1 << 31).fifo_available());
    assert!(Control::new_with_raw_value(1 << 11).fifo_debug_enabled());
}

#[test]
fn one_bit_enums() {
    assert_eq!(StopBits::new_with_raw_value(0), StopBits::One);
    assert_eq!(StopBits::new_with_raw_value(1), StopBits::Two);
    assert_eq!(StopBits::Two.raw_value(), 1);
    assert_eq!(ParitySelect::new_with_raw_value(1), ParitySelect::Odd);
    assert_eq!(ParitySelect::Even.raw_value(), 0);
}

#[test]
fn capability_fields() {
    let c = Capability::new_with_raw_value(0b101_0000);
    assert!(c.flow_control());
    assert_eq!(c.fifo_size(), 0b01_0000);
    assert_eq!(Capability::default().with_fifo_size(8).raw_value(), 8);
}

#[test]
fn tx_setup_enables_transmitter_and_keeps_other_bits() {
    let control = Control::new_with_raw_value(0x8000_0001);
    let (tx, setup) = TxWithShiftRegister::new(control, Some(42));
    assert!(tx.is_flushed());
    assert_eq!(setup.control.raw_value(), 0x8000_0003);
    assert_eq!(setup.scaler, Some(42));
    let (_, setup) = TxWithShiftRegister::new(control, None);
    assert_eq!(setup.scaler, None);
}

#[test]
fn tx_transmits_in_order_when_fifo_has_room() {
    let (mut tx, _) = TxWithShiftRegister::new(Control::default(), None);
    tx.write(b"ab");
    tx.write_byte(b'c');
    let room = Status::default();
    let mut sent = Vec::new();
    while let Some(d) = tx.transmit(room) {
        sent.push(d.data());
    }
    assert_eq!(sent, b"abc".to_vec());
    assert!(tx.is_flushed());
    assert!(tx.transmit(room).is_none());
}

#[test]
fn tx_waits_while_fifo_full() {
    let (mut tx, _) = TxWithShiftRegister::new(Control::default(), None);
    tx.write(b"x");
    let full = Status::new_with_raw_value(1 << 9);
    assert!(tx.transmit(full).is_none());
    assert!(!tx.is_flushed());
    let d = tx.transmit(Status::new_with_raw_value(1 << 2)).unwrap();
    assert_eq!(d.raw_value(), b'x' as u32);
    assert!(tx.is_flushed());
}

#[test]
fn write_byte_unchecked_is_the_data_word() {
    let (tx, _) = TxWithShiftRegister::new(Control::default(), None);
    assert_eq!(tx.write_byte_unchecked(0xfe).raw_value(), 0xfe);
    assert!(tx.is_flushed());
}
