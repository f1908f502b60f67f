//! Decisions of the time driver that runs on the machine timer of hart 0.
//!
//! The driver keeps one alarm. The caller owns the machine timer and the queue of timers to
//! wake; it hands the driver the current time and performs the actions the driver returns.
use vstd::prelude::*;

use crate::timer::{write_compare_value, CompareValueWrite};
use crate::HartId;

verus! {

/// The machine timer runs at a fixed frequency of half the system clock, and needs to be
/// scaled to the tick frequency of the time base: raw ticks per time base tick,
/// `sys_clk_hz / 2 / tick_hz` with `tick_hz` taken as a `u32`.
pub fn scale(sys_clk_hz: u32, tick_hz: u64) -> (r: u32)
    requires
        tick_hz as u32 > 0,
    ensures
        r == sys_clk_hz / 2 / (tick_hz as u32),
{
    sys_clk_hz / 2 / (tick_hz as u32)
}

/// The time at which the alarm fires; `u64::MAX` when no alarm is scheduled.
#[derive(Clone, Copy, Debug, PartialEq, Eq, Structural)]
pub struct AlarmState {
    pub timestamp: u64,
}

impl AlarmState {
    /// No alarm scheduled.
    pub fn new() -> (r: AlarmState)
        ensures
            r.timestamp == u64::MAX,
    {
        AlarmState { timestamp: u64::MAX }
    }
}

/// What the caller does after an attempt to set the alarm.
#[derive(Clone, Copy, Debug, PartialEq, Eq, Structural)]
pub enum AlarmAction {
    /// The driver is not initialized: nothing is done and the alarm is not set.
    NotInitialized,
    /// The time has already passed: disable the machine timer interrupt. The alarm is not set.
    Expired,
    /// Write this compare value for hart 0, then enable the machine timer interrupt. The alarm
    /// is set.
    Arm(u64),
    /// The compare value does not fit the timer: nothing is written, the alarm is set.
    OutOfRange,
}

impl AlarmAction {
    /// Whether the alarm was set; when not, the caller picks the next expiration and tries
    /// again.
    pub fn is_set(&self) -> (r: bool)
        ensures
            r == (self is Arm || self is OutOfRange),
    {
        match self {
            AlarmAction::Arm(_) => true,
            AlarmAction::OutOfRange => true,
            _ => false,
        }
    }
}

/// The raw compare value for an alarm at `timestamp` when the time is `now`: an alarm due in
/// the next few ticks is pushed to `now + 3`, so that it cannot be missed.
pub open spec fn comparator(timestamp: u64, now: u64, scale: u32) -> int {
    (if timestamp >= now + 3 { timestamp as int } else { now + 3 }) * scale
}

/// State of the time driver.
#[derive(Clone, Copy, Debug, PartialEq, Eq, Structural)]
pub struct CoreTimerDriver {
    /// Raw machine timer ticks per time base tick, once initialized.
    pub scale: Option<u32>,
    pub alarm: AlarmState,
}

impl CoreTimerDriver {
    /// An uninitialized driver without alarm.
    pub fn new() -> (r: CoreTimerDriver)
        ensures
            r.scale is None,
            r.alarm.timestamp == u64::MAX,
    {
        CoreTimerDriver { scale: None, alarm: AlarmState::new() }
    }

    /// Initializes the driver: sets the scale for a system clock of `sys_clk_hz` and a time
    /// base of `tick_hz`, and returns the compare value write that keeps the machine timer
    /// from firing; the caller then enables the machine timer and interrupts. The scale can
    /// be set only once; [`init`] skips an initialized driver.
    pub fn init(&mut self, sys_clk_hz: u32, tick_hz: u64) -> (r: CompareValueWrite)
        requires
            old(self).scale is None,
            tick_hz as u32 > 0,
        ensures
            *final(self) == initialized(*old(self), sys_clk_hz, tick_hz),
            r.hart_id == HartId::Hart0,
            r.low == 0xffff_ffff,
            r.high == 0xffff_ffff,
    {
        self.scale = Some(scale(sys_clk_hz, tick_hz));
        write_compare_value(HartId::Hart0, u64::MAX)
    }

    /// The time in time base ticks, given the raw machine timer value `raw`.
    pub fn now(&self, raw: u64) -> (r: u64)
        requires
            self.scale matches Some(s) && s > 0,
        ensures
            r == raw / (self.scale->0 as u64),
    {
        let scale = self.scale.unwrap();
        raw / (scale as u64)
    }

    /// The alarm fired: it is cleared. The caller disables the machine timer interrupt first,
    /// and then sets the alarm for the next expiration.
    pub fn trigger_alarm(&mut self)
        ensures
            final(self).alarm.timestamp == u64::MAX,
            final(self).scale == old(self).scale,
    {
        self.alarm.timestamp = u64::MAX;
    }

    /// Sets the alarm to `timestamp` when the time is `now`.
    ///
    /// An alarm can be delayed for up to 2 ticks (from `now + 1` to `now + 3`), but it is never
    /// triggered before its scheduled time.
    pub fn set_alarm(&mut self, timestamp: u64, now: u64) -> (r: AlarmAction)
        requires
            old(self).scale is Some && timestamp > now ==> now + 3 <= u64::MAX,
        ensures
            final(self).scale == old(self).scale,
            old(self).scale is None ==> r == AlarmAction::NotInitialized && final(self).alarm
                == old(self).alarm,
            old(self).scale is Some && timestamp <= now ==> r == AlarmAction::Expired
                && final(self).alarm.timestamp == u64::MAX,
            old(self).scale is Some && timestamp > now ==> {
                let s = old(self).scale->0;
                &&& final(self).alarm.timestamp == timestamp
                &&& comparator(timestamp, now, s) <= u64::MAX ==> r == AlarmAction::Arm(
                    comparator(timestamp, now, s) as u64,
                )
                &&& comparator(timestamp, now, s) > u64::MAX ==> r == AlarmAction::OutOfRange
            },
    {
        let scale = match self.scale {
            None => {
                return AlarmAction::NotInitialized;
            },
            Some(s) => s,
        };
        self.alarm.timestamp = timestamp;
        if timestamp <= now {
            self.alarm.timestamp = u64::MAX;
            return AlarmAction::Expired;
        }
        let safe_timestamp = if timestamp >= now + 3 {
            timestamp
        } else {
            now + 3
        };
        match safe_timestamp.checked_mul(scale as u64) {
            None => AlarmAction::OutOfRange,
            Some(comparator) => AlarmAction::Arm(comparator),
        }
    }
}

/// The driver after initialization for a system clock of `sys_clk_hz` and a time base of
/// `tick_hz`: an initialized driver stays as it is.
pub open spec fn initialized(driver: CoreTimerDriver, sys_clk_hz: u32, tick_hz: u64) -> CoreTimerDriver {
    if driver.scale is Some {
        driver
    } else {
        CoreTimerDriver { scale: Some(sys_clk_hz / 2 / (tick_hz as u32)), alarm: driver.alarm }
    }
}

/// Initializes `driver` once, at system initialization: the compare value write that the
/// caller performs before enabling the machine timer and interrupts, or `None`, with nothing
/// changed, when the driver was initialized before.
pub fn init(driver: &mut CoreTimerDriver, sys_clk_hz: u32, tick_hz: u64) -> (r: Option<
    CompareValueWrite,
>)
    requires
        old(driver).scale is None ==> tick_hz as u32 > 0,
    ensures
        *final(driver) == initialized(*old(driver), sys_clk_hz, tick_hz),
        old(driver).scale is Some ==> r is None,
        old(driver).scale is None ==> r is Some && r->0.hart_id == HartId::Hart0 && r->0.low
            == 0xffff_ffff && r->0.high == 0xffff_ffff,
{
    if driver.scale.is_some() {
        return None;
    }
    Some(driver.init(sys_clk_hz, tick_hz))
}

/// Initializing a second time changes nothing: the first initialization's scale stays.
pub proof fn law_init_once(
    driver: CoreTimerDriver,
    sys_clk_hz: u32,
    tick_hz: u64,
    sys_clk_hz2: u32,
    tick_hz2: u64,
)
    ensures
        initialized(initialized(driver, sys_clk_hz, tick_hz), sys_clk_hz2, tick_hz2)
            == initialized(driver, sys_clk_hz, tick_hz),
{
}

/// An armed alarm never fires early: its compare value is at least the alarm time in raw
/// timer ticks, and more than the current time.
pub proof fn law_alarm_never_early(timestamp: u64, now: u64, scale: u32)
    requires
        timestamp > now,
    ensures
        comparator(timestamp, now, scale) >= timestamp * scale,
        comparator(timestamp, now, scale) >= (now + 3) * scale,
{
    let safe: int = if timestamp >= now + 3 { timestamp as int } else { now + 3 };
    assert(safe * scale >= timestamp * scale && safe * scale >= (now + 3) * scale)
        by (nonlinear_arith)
        requires
            safe >= timestamp,
            safe >= now + 3,
            scale >= 0,
    ;
}

} // verus!
