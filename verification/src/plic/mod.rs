//! Platform-level interrupt controller (PLIC) driver.
use vstd::prelude::*;

use crate::bits::{bit_spec, with_bit, with_bit_spec, lemma_with_bit};

verus! {

/// Number of interrupt-enable contexts in the register block.
pub const NUM_CONTEXTS: usize = 8;

/// Number of 32-bit interrupt-enable words per context.
pub const ENABLE_WORDS_PER_CONTEXT: usize = 0x20;

/// Number of priority registers: one per interrupt source 1 to 1023 (source 0 has none).
pub const NUM_PRIORITY_REGISTERS: usize = 1023;

/// Interrupt target context of the PLIC.
#[derive(Clone, Copy, Debug, PartialEq, Eq, Structural)]
pub enum Context {
    Hart0MachineExternal,
    Hart0SupervisorExternal,
    Hart1MachineExternal,
    Hart1SupervisorExternal,
}

impl Context {
    /// The context's number, which selects its enable words and its threshold and
    /// claim/complete registers.
    pub open spec fn number(self) -> usize {
        match self {
            Context::Hart0MachineExternal => 0,
            Context::Hart0SupervisorExternal => 1,
            Context::Hart1MachineExternal => 4,
            Context::Hart1SupervisorExternal => 5,
        }
    }

    /// The context's number (`context as usize`).
    pub fn index(self) -> (r: usize)
        ensures
            r == self.number(),
    {
        match self {
            Context::Hart0MachineExternal => 0,
            Context::Hart0SupervisorExternal => 1,
            Context::Hart1MachineExternal => 4,
            Context::Hart1SupervisorExternal => 5,
        }
    }
}

/// A read-modify-write of one interrupt-enable word: in context `context_index`, word
/// `word_index`, set bit `bit_index` to `enable`.
#[derive(Clone, Copy, Debug, PartialEq, Eq, Structural)]
pub struct EnableBitsModify {
    pub context_index: usize,
    pub word_index: usize,
    pub bit_index: u32,
    pub enable: bool,
}

impl EnableBitsModify {
    /// The new value of the enable word whose current value is `word`.
    pub fn apply(&self, word: u32) -> (r: u32)
        requires
            self.bit_index < 32,
        ensures
            r == with_bit_spec(word, self.bit_index, self.enable),
    {
        with_bit(word, self.bit_index, self.enable)
    }

    /// The enable words of the context after this modification, given its `words` before.
    pub open spec fn apply_to(self, words: Seq<u32>) -> Seq<u32> {
        words.update(self.word_index as int, with_bit_spec(words[self.word_index as int], self.bit_index, self.enable))
    }
}

/// Whether interrupt source `number` is enabled according to a context's enable `words`.
pub open spec fn source_enabled(words: Seq<u32>, number: usize) -> bool {
    bit_spec(words[(number / 32) as int], (number % 32) as u32)
}

/// The modification that sets the enable bit of source `number` in `context` to `enable`.
pub open spec fn enable_modify_spec(context: Context, number: usize, enable: bool) -> EnableBitsModify {
    EnableBitsModify {
        context_index: context.number(),
        word_index: number / 32,
        bit_index: (number % 32) as u32,
        enable,
    }
}

/// An interrupt claimed from the PLIC, which has to be completed.
#[derive(Debug)]
pub struct ClaimedInterrupt {
    context: Context,
    interrupt: usize,
}

impl ClaimedInterrupt {
    /// The context in which the interrupt was claimed.
    pub closed spec fn context_spec(&self) -> Context {
        self.context
    }

    /// The claimed interrupt source.
    pub closed spec fn interrupt_spec(&self) -> usize {
        self.interrupt
    }

    /// The claimed interrupt source.
    pub fn interrupt(&self) -> (r: usize)
        ensures
            r == self.interrupt_spec(),
    {
        self.interrupt
    }

    /// The context in which the interrupt was claimed.
    pub fn context(&self) -> (r: Context)
        ensures
            r == self.context_spec(),
    {
        self.context
    }

    /// The claim/complete register write that completes this interrupt: the context's number
    /// and the value to write. Consuming the claim makes it complete exactly once.
    pub fn complete(self) -> (r: (usize, u32))
        ensures
            r == (self.context_spec().number(), self.interrupt_spec() as u32),
    {
        Plic::new().complete_raw(self.context, self.interrupt)
    }
}

/// Driver of the PLIC register block.
///
/// Each method returns the register access it stands for: which register of which context
/// is written, and with what value, or how a value read from a register is interpreted.
#[derive(Debug)]
pub struct Plic {}

impl Plic {
    pub fn new() -> (r: Plic) {
        Plic {}
    }

    /// Enables interrupt source `number` in `context`.
    pub fn enable_interrupt(&self, context: Context, number: usize) -> (r: EnableBitsModify)
        requires
            number < 1024,
        ensures
            r == enable_modify_spec(context, number, true),
    {
        self.set_interrupt_enable(context, number, true)
    }

    /// Disables interrupt source `number` in `context`.
    pub fn disable_interrupt(&self, context: Context, number: usize) -> (r: EnableBitsModify)
        requires
            number < 1024,
        ensures
            r == enable_modify_spec(context, number, false),
    {
        self.set_interrupt_enable(context, number, false)
    }

    /// The priority register write that gives interrupt source `number` priority `priority`:
    /// the register's index (`number - 1`, as source 0 has no priority register) and value.
    pub fn set_interrupt_priority(&self, number: usize, priority: u8) -> (r: (usize, u32))
        requires
            1 <= number <= NUM_PRIORITY_REGISTERS,
            priority < 8,
        ensures
            r == ((number - 1) as usize, priority as u32),
    {
        (number - 1, priority as u32)
    }

    /// The priority threshold register write for `context`: interrupts whose priority is at or
    /// below `threshold` are masked, so 0 lets every interrupt through and 7 masks all of them.
    pub fn set_priority_threshold(&self, context: Context, threshold: u8) -> (r: (usize, u32))
        requires
            threshold < 8,
        ensures
            r == (context.number(), threshold as u32),
    {
        (context.index(), threshold as u32)
    }

    /// Interprets `claim_complete`, the value read from the claim/complete register of
    /// `context`: 0 means no interrupt is pending; any other value claims that source, which
    /// the returned guard completes.
    pub fn claim(&self, context: Context, claim_complete: u32) -> (r: Option<ClaimedInterrupt>)
        ensures
            claim_complete == 0 ==> r is None,
            claim_complete != 0 ==> r is Some && r->0.context_spec() == context
                && r->0.interrupt_spec() == claim_complete as usize,
    {
        let irq = claim_complete as usize;
        if irq == 0 {
            None
        } else {
            Some(ClaimedInterrupt { context, interrupt: irq })
        }
    }

    /// Interprets `claim_complete`, the value read from the claim/complete register of
    /// `context`: the claimed source, or `None` when the value is 0. A source claimed this way
    /// has to be completed with [`Plic::complete_raw`].
    pub fn claim_raw(&self, context: Context, claim_complete: u32) -> (r: Option<usize>)
        ensures
            claim_complete == 0 ==> r is None,
            claim_complete != 0 ==> r == Some(claim_complete as usize),
    {
        let irq = claim_complete as usize;
        if irq != 0 {
            Some(irq)
        } else {
            None
        }
    }

    /// The claim/complete register write that completes `interrupt` in `context`: the
    /// context's number and the value to write.
    pub fn complete_raw(&self, context: Context, interrupt: usize) -> (r: (usize, u32))
        ensures
            r == (context.number(), interrupt as u32),
    {
        (context.index(), interrupt as u32)
    }

    /// The modification of the enable words of `context` that sets the enable bit of
    /// interrupt source `number` to `enable`: word `number / 32`, bit `number % 32`.
    pub fn set_interrupt_enable(&self, context: Context, number: usize, enable: bool) -> (r:
        EnableBitsModify)
        requires
            number < 1024,
        ensures
            r == enable_modify_spec(context, number, enable),
    {
        let reg_offset = number / 32;
        let bit_offset = (number % 32) as u32;
        EnableBitsModify {
            context_index: context.index(),
            word_index: reg_offset,
            bit_index: bit_offset,
            enable,
        }
    }
}

/// Every context has its own number, and every number indexes the register block's contexts.
pub proof fn law_context_numbers(a: Context, b: Context)
    ensures
        a.number() < NUM_CONTEXTS,
        a.number() == b.number() ==> a == b,
{
}

/// The PLIC contexts of the NOEL-V are numbered by hart, two per hart and four apart: hart
/// `h`'s machine-mode external interrupt context is `4 * h` and its supervisor-mode one
/// `4 * h + 1`. Enabling or disabling a source in a context modifies the enable words of that
/// same context, the one whose threshold and claim/complete registers the context's other
/// accesses use.
pub proof fn law_context_registers(context: Context, number: usize, enable: bool)
    ensures
        Context::Hart0MachineExternal.number() == 0,
        Context::Hart0SupervisorExternal.number() == 1,
        Context::Hart1MachineExternal.number() == 4,
        Context::Hart1SupervisorExternal.number() == 5,
        enable_modify_spec(context, number, enable).context_index == context.number(),
        enable_modify_spec(context, number, enable).word_index == number / 32,
        enable_modify_spec(context, number, enable).bit_index == number % 32,
        enable_modify_spec(context, number, enable).enable == enable,
{
}

/// Setting the enable bit of source `number` in a context's enable words makes that source's
/// state `enable`, and leaves the state of every other source unchanged.
pub proof fn law_set_interrupt_enable(
    words: Seq<u32>,
    context: Context,
    number: usize,
    enable: bool,
    other: usize,
)
    requires
        words.len() == ENABLE_WORDS_PER_CONTEXT,
        number < 1024,
        other < 1024,
        other != number,
    ensures
        enable_modify_spec(context, number, enable).word_index < ENABLE_WORDS_PER_CONTEXT,
        enable_modify_spec(context, number, enable).bit_index < 32,
        source_enabled(enable_modify_spec(context, number, enable).apply_to(words), number)
            == enable,
        source_enabled(enable_modify_spec(context, number, enable).apply_to(words), other)
            == source_enabled(words, other),
{
    let m = enable_modify_spec(context, number, enable);
    let w = words[(number / 32) as int];
    lemma_with_bit(w, (number % 32) as u32, enable);
    if other / 32 == number / 32 {
        assert(other % 32 != number % 32);
    }
}

/// Completing a claimed interrupt writes back to the claiming context's claim/complete
/// register exactly the value that was read from it to claim the interrupt.
pub proof fn law_claim_complete(context: Context, claim_complete: u32, claimed: ClaimedInterrupt)
    requires
        claim_complete != 0,
        claimed.context_spec() == context,
        claimed.interrupt_spec() == claim_complete as usize,
    ensures
        (claimed.context_spec().number(), claimed.interrupt_spec() as u32) == (context.number(),
        claim_complete),
{
}

} // verus!
