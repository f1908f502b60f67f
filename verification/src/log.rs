//! Decisions of the UART loggers: which logger is active, and the busy flag that keeps log
//! output from interleaving.
use vstd::prelude::*;

use core::sync::atomic::{AtomicBool, AtomicU8};

verus! {

/// Selection value of the logger that writes inside a critical section.
pub const LOG_SEL_LOCKED: u8 = 1;

/// Selection value of the logger guarded by a busy flag.
pub const LOG_SEL_UNSAFE_SINGLE_CORE: u8 = 2;

/// The UART logger variants.
#[derive(Clone, Copy, Debug, PartialEq, Eq, Structural)]
pub enum LoggerKind {
    /// Writes inside a critical section.
    Locked,
    /// Skips output while another writer holds the busy flag.
    BusyFlag,
}

impl LoggerKind {
    /// The selection value that names this logger.
    pub open spec fn selection_spec(self) -> u8 {
        match self {
            LoggerKind::Locked => LOG_SEL_LOCKED,
            LoggerKind::BusyFlag => LOG_SEL_UNSAFE_SINGLE_CORE,
        }
    }

    /// The selection value that names this logger.
    pub fn selection(self) -> (r: u8)
        ensures
            r == self.selection_spec(),
    {
        match self {
            LoggerKind::Locked => LOG_SEL_LOCKED,
            LoggerKind::BusyFlag => LOG_SEL_UNSAFE_SINGLE_CORE,
        }
    }
}

/// The logger that the selection value `selection` names; `None` before any logger was
/// initialized.
pub fn selected_logger(selection: u8) -> (r: Option<LoggerKind>)
    ensures
        r matches Some(kind) ==> kind.selection_spec() == selection,
        r is None <==> (selection != LOG_SEL_LOCKED && selection != LOG_SEL_UNSAFE_SINGLE_CORE),
{
    if selection == LOG_SEL_LOCKED {
        Some(LoggerKind::Locked)
    } else if selection == LOG_SEL_UNSAFE_SINGLE_CORE {
        Some(LoggerKind::BusyFlag)
    } else {
        None
    }
}

/// Decides a claim of the right to install a logger of kind `kind`, given whether a logger
/// was installed before (`already_done`): the selection value to record when this claim wins,
/// `None` when an earlier one did.
pub fn claim_after(already_done: bool, kind: LoggerKind) -> (r: Option<u8>)
    ensures
        already_done ==> r is None,
        !already_done ==> r == Some(kind.selection_spec()),
{
    if already_done {
        return None;
    }
    Some(kind.selection())
}

/// Claims the right to install a logger: the first claim on `init_done` wins, and records
/// `kind` in `selection`. Returns whether this call won; a later call changes nothing.
/// The flag's previous value, which decides the claim through [`claim_after`], depends on
/// every other access to the atomics, so nothing is stated of the result.
pub fn claim_logger(init_done: &AtomicBool, selection: &AtomicU8, kind: LoggerKind) -> (r: bool) {
    let already_done = init_done.swap(true, core::sync::atomic::Ordering::Relaxed);
    match claim_after(already_done, kind) {
        None => false,
        Some(value) => {
            selection.swap(value, core::sync::atomic::Ordering::Relaxed);
            true
        },
    }
}

/// Holds the busy flag of the busy-flag logger while it writes.
pub struct UartGuard<'lock>(&'lock AtomicBool);

impl<'lock> UartGuard<'lock> {
    /// The flag that the guard holds.
    pub closed spec fn flag(&self) -> &'lock AtomicBool {
        self.0
    }

    /// Takes the busy flag, or `None` when it was already taken. This can happen if we log
    /// inside an interrupt handler while the thread code was busy logging: logging is then
    /// skipped for thread-safety. Whether the flag was free depends on every other access to
    /// it, so nothing is stated of that; [`UartGuard::after_swap`] decides from it.
    pub fn new(flag: &'lock AtomicBool) -> (r: Option<UartGuard<'lock>>)
        ensures
            r matches Some(g) ==> g.flag() == flag,
    {
        let was_taken = flag.swap(true, core::sync::atomic::Ordering::AcqRel);
        Self::after_swap(flag, was_taken)
    }

    /// The guard of `flag`, given whether the flag was already taken when it was set
    /// (`was_taken`): `None` when it was, since another writer holds it.
    pub fn after_swap(flag: &'lock AtomicBool, was_taken: bool) -> (r: Option<UartGuard<'lock>>)
        ensures
            was_taken ==> r is None,
            !was_taken ==> r is Some && r->0.flag() == flag,
    {
        if was_taken {
            return None;
        }
        Some(UartGuard(flag))
    }

    /// Gives the busy flag back.
    pub fn release(self) {
        self.0.store(false, core::sync::atomic::Ordering::Release);
    }
}

/// The selection value that a winning claim records names the logger that claimed: the
/// locked logger records 1, the busy-flag logger 2, and reading the value back gives that
/// logger again, so output goes to the logger that was installed.
pub proof fn law_selection_names_logger(kind: LoggerKind, selection: u8)
    requires
        selection == kind.selection_spec(),
    ensures
        selection == LOG_SEL_LOCKED <==> kind == LoggerKind::Locked,
        selection == LOG_SEL_UNSAFE_SINGLE_CORE <==> kind == LoggerKind::BusyFlag,
        LOG_SEL_LOCKED == 1,
        LOG_SEL_UNSAFE_SINGLE_CORE == 2,
{
}

} // verus!
