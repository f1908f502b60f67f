//! Register-level drivers for the GRLIB peripherals of a NOEL-V system.
//!
//! Every peripheral is driven through memory-mapped registers. This library holds everything
//! the drivers decide: the bit layout of each register, which value is written to which
//! register, how a read value is interpreted, and the state machines that poll hardware.
//! The volatile accesses themselves are performed by the caller, who hands the values read
//! from the hardware to the library and writes back what the library returns.
pub mod ahb_pnp;
pub mod apb_pnp;
pub mod apb_uart;
pub mod bits;
pub mod clint;
pub mod gp_timer;
pub mod gr_gpio;
pub mod log;
pub mod plic;
pub mod time_driver_mtimer;
pub mod timer;

use vstd::prelude::*;

verus! {

/// Base address of the core logger UART (APBUART0).
pub const BASE_ADDR_APBUART0: usize = 0xFF90_0000;

/// Base address of the GRGPIO instance.
pub const BASE_ADDR_GRGPIO0: usize = 0xFF98_3000;

/// Base address of the general purpose timer (GPTIMER).
pub const BASE_ADDR_GPTIMER0: usize = 0xFF90_8000;

/// Base address of the platform-level interrupt controller (PLIC).
pub const BASE_ADDR_PLIC: usize = 0xF800_0000;

/// Hardware thread of the NOEL-V.
#[derive(Clone, Copy, Debug, PartialEq, Eq, Structural)]
pub enum HartId {
    Hart0,
    Hart1,
}

#[verifier::external_type_specification]
#[verifier::external_body]
pub struct ExPortableAtomicBool(portable_atomic::AtomicBool);

/// `portable_atomic::AtomicBool::swap` stores `val` and returns the previous value. Nothing is
/// stated of that value: it depends on every other access to the flag.
pub assume_specification[portable_atomic::AtomicBool::swap](
    atomic: &portable_atomic::AtomicBool,
    val: bool,
    order: core::sync::atomic::Ordering,
) -> bool;

/// The peripheral register blocks of the NOEL-V system, each given by its base address.
#[derive(Clone, Copy, Debug, PartialEq, Eq, Structural)]
pub struct SystemPeripherals {
    pub apb_uart0: usize,
    pub gr_gpio: usize,
    /// This is the external timer provided as part of the subsystem. This is not the
    /// machine/core timer.
    pub gp_timer: usize,
    /// Platform-level interrupt controller (PLIC) for the NOEL-V.
    pub plic: usize,
    /// Core-local interrupt controller (CLINT) for the NOEL-V.
    pub clint: usize,
}

impl SystemPeripherals {
    /// The base addresses of the system's peripheral register blocks.
    pub open spec fn fixed() -> SystemPeripherals {
        SystemPeripherals {
            apb_uart0: BASE_ADDR_APBUART0,
            gr_gpio: BASE_ADDR_GRGPIO0,
            gp_timer: BASE_ADDR_GPTIMER0,
            plic: BASE_ADDR_PLIC,
            clint: clint::BASE_ADDR,
        }
    }

    /// The peripherals, the first time the `taken` flag is claimed; `None` when it was
    /// already set.
    pub fn take(taken: &portable_atomic::AtomicBool) -> (r: Option<SystemPeripherals>)
        ensures
            r matches Some(p) ==> p == SystemPeripherals::fixed(),
    {
        let already_taken = taken.swap(true, core::sync::atomic::Ordering::Relaxed);
        Self::take_after(already_taken)
    }

    /// The peripherals, unless `already_taken` says they were handed out before.
    pub fn take_after(already_taken: bool) -> (r: Option<SystemPeripherals>)
        ensures
            already_taken ==> r is None,
            !already_taken ==> r == Some(SystemPeripherals::fixed()),
    {
        if !already_taken {
            return Some(Self::steal());
        }
        None
    }

    /// All core peripheral register blocks, without claiming them.
    pub fn steal() -> (r: SystemPeripherals)
        ensures
            r == SystemPeripherals::fixed(),
    {
        SystemPeripherals {
            apb_uart0: Self::steal_uart(),
            gr_gpio: BASE_ADDR_GRGPIO0,
            gp_timer: Self::steal_timer(),
            plic: Self::steal_plic(),
            clint: clint::new_fixed(),
        }
    }

    /// The core logger UART (APBUART0) register block.
    pub fn steal_uart() -> (r: usize)
        ensures
            r == BASE_ADDR_APBUART0,
    {
        BASE_ADDR_APBUART0
    }

    /// The core timer (GPTIMER) register block.
    pub fn steal_timer() -> (r: usize)
        ensures
            r == BASE_ADDR_GPTIMER0,
    {
        BASE_ADDR_GPTIMER0
    }

    /// The platform-level interrupt controller (PLIC) register block.
    pub fn steal_plic() -> (r: usize)
        ensures
            r == BASE_ADDR_PLIC,
    {
        BASE_ADDR_PLIC
    }
}

/// External interrupt sources of the NOEL-V system.
#[derive(Clone, Copy, Debug, PartialEq, Eq, Structural)]
pub enum Interrupt {
    ApbUart,
    GpTimer1,
    GpTimer2,
    AhbState,
    GrethGbit,
}

/// A number that names no interrupt source.
#[derive(Clone, Copy, Debug, PartialEq, Eq, Structural)]
pub enum InterruptNumberError {
    InvalidVariant(usize),
}

/// Highest interrupt source number.
pub const MAX_INTERRUPT_NUMBER: usize = 5;

impl Interrupt {
    /// The source's interrupt number.
    pub open spec fn number_spec(self) -> usize {
        match self {
            Interrupt::ApbUart => 1,
            Interrupt::GpTimer1 => 2,
            Interrupt::GpTimer2 => 3,
            Interrupt::AhbState => 4,
            Interrupt::GrethGbit => 5,
        }
    }

    /// The source's interrupt number.
    pub fn number(self) -> (r: usize)
        ensures
            r == self.number_spec(),
    {
        match self {
            Interrupt::ApbUart => 1,
            Interrupt::GpTimer1 => 2,
            Interrupt::GpTimer2 => 3,
            Interrupt::AhbState => 4,
            Interrupt::GrethGbit => 5,
        }
    }

    /// The source with interrupt number `value`.
    pub fn from_number(value: usize) -> (r: Result<Interrupt, InterruptNumberError>)
        ensures
            r matches Ok(i) ==> i.number_spec() == value,
            r is Err <==> !(1 <= value <= MAX_INTERRUPT_NUMBER),
            r is Err ==> r == Err::<Interrupt, InterruptNumberError>(
                InterruptNumberError::InvalidVariant(value),
            ),
    {
        match value {
            1 => Ok(Interrupt::ApbUart),
            2 => Ok(Interrupt::GpTimer1),
            3 => Ok(Interrupt::GpTimer2),
            4 => Ok(Interrupt::AhbState),
            5 => Ok(Interrupt::GrethGbit),
            _ => Err(InterruptNumberError::InvalidVariant(value)),
        }
    }
}

/// Interrupt numbers name the sources one to one: every source's number is between 1 and
/// [MAX_INTERRUPT_NUMBER], and distinct sources have distinct numbers.
pub proof fn law_interrupt_numbers(a: Interrupt, b: Interrupt)
    ensures
        1 <= a.number_spec() <= MAX_INTERRUPT_NUMBER,
        a.number_spec() == b.number_spec() ==> a == b,
{
}

/// Each external interrupt source has the interrupt number the NOEL-V system wires it to:
/// the APBUART 1, the first and second GPTIMER timers 2 and 3, the AHB status register 4 and
/// the GRETH gigabit Ethernet MAC 5. So a number `n` in 1..=5 names exactly the source wired
/// to `n`, and [`Interrupt::from_number`] gives that source.
pub proof fn law_interrupt_hardware_numbers(i: Interrupt, n: usize)
    requires
        i.number_spec() == n,
    ensures
        n == 1 <==> i == Interrupt::ApbUart,
        n == 2 <==> i == Interrupt::GpTimer1,
        n == 3 <==> i == Interrupt::GpTimer2,
        n == 4 <==> i == Interrupt::AhbState,
        n == 5 <==> i == Interrupt::GrethGbit,
{
}

} // verus!
