use core::sync::atomic::{AtomicBool, AtomicU8};

use noelv::log::{claim_after, claim_logger, selected_logger, LoggerKind, UartGuard, LOG_SEL_LOCKED, LOG_SEL_UNSAFE_SINGLE_CORE};
use noelv::time_driver_mtimer::{init, scale, AlarmAction, AlarmState, CoreTimerDriver};
use noelv::timer::{read_timer, write_compare_value, Delay, HartId};
use noelv::{Interrupt, InterruptNumberError, SystemPeripherals, MAX_INTERRUPT_NUMBER};

#[test]
fn interrupt_numbers() {
    assert_eq!(Interrupt::ApbUart.number(), 1);
    assert_eq!(Interrupt::GpTimer1.number(), 2);
    assert_eq!(Interrupt::GrethGbit.number(), 5);
    for n in 1..=MAX_INTERRUPT_NUMBER {
        assert_eq!(Interrupt::from_number(n).unwrap().number(), n);
    }
    for i in [Interrupt::ApbUart, Interrupt::GpTimer1, Interrupt::GpTimer2, Interrupt::AhbState, Interrupt::GrethGbit] {
        assert_eq!(Interrupt::from_number(i.number()), Ok(i));
    }
    assert_eq!(Interrupt::from_number(0), Err(InterruptNumberError::InvalidVariant(0)));
    assert_eq!(Interrupt::from_number(6), Err(InterruptNumberError::InvalidVariant(6)));
}

#[test]
fn peripherals_are_taken_once() {
    let taken = portable_atomic::AtomicBool::new(false);
    let p = SystemPeripherals::take(&taken).unwrap();
    assert_eq!(p.apb_uart0, 0xFF90_0000);
    assert_eq!(p.gr_gpio, 0xFF98_3000);
    assert_eq!(p.gp_timer, 0xFF90_8000);
    assert_eq!(p.plic, 0xF800_0000);
    assert_eq!(p.clint, 0xE000_0000);
    assert!(SystemPeripherals::take(&taken).is_none());
    assert_eq!(SystemPeripherals::steal(), p);
    assert_eq!(SystemPeripherals::take_after(false), Some(p));
    assert_eq!(SystemPeripherals::take_after(true), None);
    assert_eq!(SystemPeripherals::steal_uart(), 0xFF90_0000);
    assert_eq!(SystemPeripherals::steal_timer(), 0xFF90_8000);
    assert_eq!(SystemPeripherals::steal_plic(), 0xF800_0000);
}

#[test]
fn compare_value_words() {
    let w = write_compare_value(HartId::Hart1, 0x1_0000_0005);
    assert_eq!((w.hart_id, w.low, w.high), (HartId::Hart1, 5, 1));
    let w = write_compare_value(HartId::Hart0, u64::MAX);
    assert_eq!((w.low, w.high), (0xffff_ffff, 0xffff_ffff));
}

#[test]
fn timer_words_round_trip() {
    assert_eq!(read_timer(1, 5), 0x1_0000_0005);
    for v in [0u64, 65535, 0xdead_beef_0000_0001, u64::MAX] {
        let w = write_compare_value(HartId::Hart0, v);
        assert_eq!(read_timer(w.high, w.low), v);
    }
}

#[test]
fn delay_ticks() {
    let delay = Delay::new(40_000_000);
    assert_eq!(delay.delay_ns(1000), 20);
    assert_eq!(delay.delay_ns(1), 1);
    assert_eq!(delay.delay_ns(0), 0);
    assert_eq!(delay.delay_ns(1_000_000), 20_000);
    assert_eq!(delay.delay_ns(u32::MAX), 85_899_346);
    assert_eq!(Delay::new(0).delay_ns(1000), 0);
    assert_eq!(Delay::new(1).delay_ns(1000), 1);
    assert!(delay.is_elapsed(100, 20, 120));
    assert!(!delay.is_elapsed(100, 20, 119));
}

#[test]
fn delay_never_short() {
    for (clk, ns) in [(40_000_000u32, 999u32), (33_333_333, 12_345), (3, 1_000_000_000)] {
        let ticks = Delay::new(clk).delay_ns(ns);
        assert!(ticks as u128 * 1_000_000_000 >= ns as u128 * (clk / 2) as u128);
        assert!(ticks >= 1);
    }
}

#[test]
fn time_driver_scale_and_init() {
    assert_eq!(scale(40_000_000, 1_000_000), 20);
    assert_eq!(scale(40_000_000, 32_768), 610);
    let mut driver = CoreTimerDriver::new();
    assert_eq!(driver.scale, None);
    let w = init(&mut driver, 40_000_000, 1_000_000).unwrap();
    assert_eq!((w.hart_id, w.low, w.high), (HartId::Hart0, 0xffff_ffff, 0xffff_ffff));
    assert_eq!(driver.scale, Some(20));
    let before = driver;
    // a second initialization is a no-op, even with a time base that would divide by zero
    assert!(init(&mut driver, 80_000_000, 1_000_000).is_none());
    assert!(init(&mut driver, 80_000_000, 1 << 32).is_none());
    assert_eq!(driver, before);
    let mut fresh = CoreTimerDriver::new();
    let w = fresh.init(80_000_000, 1_000_000);
    assert_eq!((w.low, w.high), (0xffff_ffff, 0xffff_ffff));
    assert_eq!(fresh.scale, Some(40));
    assert_eq!(driver.now(2_000), 100);
}

#[test]
fn alarm_decisions() {
    assert_eq!(AlarmState::new().timestamp, u64::MAX);
    let mut driver = CoreTimerDriver::new();
    assert_eq!(driver.set_alarm(100, 50), AlarmAction::NotInitialized);
    assert!(!AlarmAction::NotInitialized.is_set());
    // not initialized: the time is never looked at
    assert_eq!(driver.set_alarm(100, u64::MAX), AlarmAction::NotInitialized);
    driver.init(40_000_000, 1_000_000);
    let a = driver.set_alarm(100, 50);
    assert_eq!(a, AlarmAction::Arm(2000));
    assert!(a.is_set());
    assert_eq!(driver.alarm.timestamp, 100);
    // due within three ticks: pushed to now + 3
    assert_eq!(driver.set_alarm(100, 99), AlarmAction::Arm(102 * 20));
    let a = driver.set_alarm(100, 100);
    assert_eq!(a, AlarmAction::Expired);
    assert!(!a.is_set());
    assert_eq!(driver.alarm.timestamp, u64::MAX);
    let a = driver.set_alarm(u64::MAX / 2, 0);
    assert_eq!(a, AlarmAction::OutOfRange);
    assert!(a.is_set());
    driver.trigger_alarm();
    assert_eq!(driver.alarm.timestamp, u64::MAX);
}

#[test]
fn logger_selection() {
    assert_eq!(selected_logger(0), None);
    assert_eq!(selected_logger(LOG_SEL_LOCKED), Some(LoggerKind::Locked));
    assert_eq!(selected_logger(LOG_SEL_UNSAFE_SINGLE_CORE), Some(LoggerKind::BusyFlag));
    assert_eq!(selected_logger(3), None);
    assert_eq!(LoggerKind::BusyFlag.selection(), 2);
}

#[test]
fn first_logger_claim_wins() {
    let done = AtomicBool::new(false);
    let sel = AtomicU8::new(0);
    assert!(claim_logger(&done, &sel, LoggerKind::BusyFlag));
    assert!(!claim_logger(&done, &sel, LoggerKind::Locked));
    assert_eq!(selected_logger(sel.load(core::sync::atomic::Ordering::Relaxed)), Some(LoggerKind::BusyFlag));
}

#[test]
fn claim_decision() {
    assert_eq!(claim_after(false, LoggerKind::Locked), Some(LOG_SEL_LOCKED));
    assert_eq!(claim_after(false, LoggerKind::BusyFlag), Some(LOG_SEL_UNSAFE_SINGLE_CORE));
    assert_eq!(claim_after(true, LoggerKind::BusyFlag), None);
}

#[test]
fn guard_decision() {
    let busy = AtomicBool::new(false);
    assert!(UartGuard::after_swap(&busy, true).is_none());
    assert!(UartGuard::after_swap(&busy, false).is_some());
}

#[test]
fn busy_flag_guard() {
    let busy = AtomicBool::new(false);
    let guard = UartGuard::new(&busy).unwrap();
    assert!(UartGuard::new(&busy).is_none());
    guard.release();
    let again = UartGuard::new(&busy);
    assert!(again.is_some());
}
