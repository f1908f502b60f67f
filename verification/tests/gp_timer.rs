use noelv::gp_timer::regs::fields::{Config, Control, Scaler};
use noelv::gp_timer::{OutOfBoundsError, TimerLowLevel, NUM_TIMER_BLOCKS};

#[test]
fn scaler_value() {
    assert_eq!(Scaler::new_with_raw_value(4).value(), 4);
    assert_eq!(Scaler::default().with_value(0xffff).raw_value(), 0xffff);
    assert_eq!(Scaler::new_with_raw_value(0xabcd_1234).value(), 0x1234);
}

#[test]
fn config_fields() {
    let c = Config::new_with_raw_value((1 << 8) | (5 << 3) | 7);
    assert!(c.separate_interrupts());
    assert_eq!(c.irq(), 5);
    assert_eq!(c.num_timers(), 7);
    let c = Config::default().with_enable_timer(0, true).with_enable_set(true).with_enable_latching(false);
    assert!(c.enable_timer(0));
    assert!(!c.enable_timer(1));
    assert_eq!(c.raw_value(), (1 << 16) | (1 << 12));
    assert!(Config::default().with_enable_timer(6, true).enable_timer(6));
    assert_eq!(Config::default().with_enable_timer(6, true).raw_value(), 1 << 22);
}

#[test]
fn timer_control_fields() {
    let c = Control::default().with_interrupt_enable(true).with_enable(true).with_restart(true).with_load(true);
    assert_eq!(c.raw_value(), 0b1111);
    let c = c.with_interrupt_pending(true);
    assert!(c.interrupt_pending());
    assert_eq!(c.raw_value(), 0b1_1111);
    let c = Control::new_with_raw_value(0x1234_00c0);
    assert_eq!(c.watchdog_increment_reload(), 0x1234);
    assert!(c.enable_watchdog_nmi());
    assert!(c.debug_halt());
    assert!(!c.chain());
}

#[test]
fn modify_config_applies_closure() {
    let timer = TimerLowLevel::new();
    let new = timer.modify_config(Config::default(), |val| val.with_enable_timer(0, true).with_enable_set(true));
    assert_eq!(new.raw_value(), (1 << 16) | (1 << 12));
}

#[test]
fn modify_timer_control_bounds() {
    let timer = TimerLowLevel::new();
    let r = timer.modify_timer_control(0, Control::default(), |val| val.with_enable(true));
    assert_eq!(r.unwrap().raw_value(), 1);
    let r = timer.modify_timer_control(NUM_TIMER_BLOCKS - 1, Control::new_with_raw_value(1), |val| val.with_enable(false));
    assert_eq!(r.unwrap().raw_value(), 0);
    let r = timer.modify_timer_control(7, Control::default(), |val| val.with_enable(true));
    assert_eq!(r, Err(OutOfBoundsError(7)));
}
