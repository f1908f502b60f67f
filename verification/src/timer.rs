//! Machine timer of the CLINT and a busy-waiting delay on it.
use vstd::prelude::*;

pub use crate::HartId;

verus! {

/// The machine timer compare value of `hart_id` split into the words of its two compare
/// registers; the low word is written first.
#[derive(Clone, Copy, Debug, PartialEq, Eq, Structural)]
pub struct CompareValueWrite {
    pub hart_id: HartId,
    pub low: u32,
    pub high: u32,
}

/// The writes that set the machine timer compare value of `hart_id` to `value`.
pub fn write_compare_value(hart_id: HartId, value: u64) -> (r: CompareValueWrite)
    ensures
        r.hart_id == hart_id,
        r.low == value % 0x1_0000_0000,
        r.high == value / 0x1_0000_0000,
{
    let low = (value % 0x1_0000_0000) as u32;
    let high = (value / 0x1_0000_0000) as u32;
    CompareValueWrite { hart_id, low, high }
}

/// The machine timer value made of the words read from its high and low registers.
pub fn read_timer(high: u32, low: u32) -> (r: u64)
    ensures
        r == high * 0x1_0000_0000 + low,
{
    (high as u64) * 0x1_0000_0000 + low as u64
}

/// Reading back the two words written for a compare value gives that value.
pub proof fn law_compare_value_round_trip(hart_id: HartId, value: u64, w: CompareValueWrite)
    requires
        w.hart_id == hart_id,
        w.low == value % 0x1_0000_0000,
        w.high == value / 0x1_0000_0000,
    ensures
        w.high * 0x1_0000_0000 + w.low == value,
{
}

/// Number of machine timer ticks that a delay of `ns` nanoseconds takes on a system clocked at
/// `sys_clk` Hz, whose machine timer runs at half the system clock: 0 when there is nothing to
/// wait for, else `ns * (sys_clk / 2)` divided by 10^9 and rounded up, and at least 1.
pub open spec fn delay_ticks(sys_clk: u32, ns: u32) -> nat {
    if ns == 0 || sys_clk == 0 {
        0
    } else {
        let ticks = (ns * (sys_clk / 2) + 999_999_999) / 1_000_000_000;
        if ticks == 0 {
            1
        } else {
            ticks as nat
        }
    }
}

/// Busy-waiting delay on the machine timer.
#[derive(Clone, Copy, Debug, PartialEq, Eq, Structural)]
pub struct Delay {
    sys_clk: u32,
}

impl Delay {
    /// The system clock frequency in Hz.
    pub closed spec fn sys_clk(&self) -> u32 {
        self.sys_clk
    }

    /// A delay for a system clocked at `sys_clk` Hz.
    pub fn new(sys_clk: u32) -> (r: Delay)
        ensures
            r.sys_clk() == sys_clk,
    {
        Delay { sys_clk }
    }

    /// Number of machine timer ticks to wait for a delay of `ns` nanoseconds, counted from the
    /// timer value read when the wait starts; 0 means no wait.
    pub fn delay_ns(&self, ns: u32) -> (r: u64)
        ensures
            r == delay_ticks(self.sys_clk(), ns),
    {
        if ns == 0 || self.sys_clk == 0 {
            return 0;
        }
        let half_clk = self.sys_clk as u64 / 2;
        assert((ns as u64) * half_clk <= 0xffff_ffff * 0x7fff_ffff) by (nonlinear_arith)
            requires
                ns <= 0xffff_ffff,
                half_clk <= 0x7fff_ffff,
        ;
        let product = (ns as u64) * half_clk;
        let ticks = (product + 999_999_999) / 1_000_000_000;
        if ticks == 0 {
            1
        } else {
            ticks
        }
    }

    /// Whether a wait of `ticks` that started at timer value `start` is over at timer value
    /// `now`.
    pub fn is_elapsed(&self, start: u64, ticks: u64, now: u64) -> (r: bool)
        requires
            start + ticks <= u64::MAX,
        ensures
            r == (now >= start + ticks),
    {
        now >= start + ticks
    }
}

/// A delay never waits less than asked for, and at most one tick more, unless it rounds a
/// shorter delay up to a single tick.
pub proof fn law_delay_long_enough(sys_clk: u32, ns: u32)
    requires
        ns > 0,
        sys_clk > 0,
    ensures
        delay_ticks(sys_clk, ns) >= 1,
        delay_ticks(sys_clk, ns) * 1_000_000_000 >= ns * (sys_clk / 2),
        delay_ticks(sys_clk, ns) == 1 || delay_ticks(sys_clk, ns) * 1_000_000_000 < ns * (sys_clk
            / 2) + 1_000_000_000,
{
    let p = ns * (sys_clk / 2);
    let t = (p + 999_999_999) / 1_000_000_000;
    assert(t * 1_000_000_000 >= p && t * 1_000_000_000 < p + 1_000_000_000) by (nonlinear_arith)
        requires
            t == (p + 999_999_999) / 1_000_000_000,
            p >= 0,
    ;
}

} // verus!
