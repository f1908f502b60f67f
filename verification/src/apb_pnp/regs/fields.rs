//! Bit layouts of the APB plug&play record registers.
//!
//! The identification word is bit-for-bit identical to the AHB one, so it is reused here
//! directly. Unlike the AHB record, there is only a single bank address register.
use vstd::prelude::*;

pub use crate::ahb_pnp::regs::fields::Id;
use crate::ahb_pnp::regs::fields::BarType;
use vstd::arithmetic::power2::{lemma2_to64, lemma_pow2_strictly_increases, pow2};
use vstd::bits::lemma_u32_shl_is_mul;

use crate::bits::{bit, bit_spec, count_ones, field, field_spec, lemma_popcount_bound, popcount};

verus! {

/// Bank address register of an APB plug&play record.
#[derive(Clone, Copy, Debug, PartialEq, Eq, Structural)]
pub struct ApbBar {
    raw: u32,
}

impl View for ApbBar {
    type V = u32;

    closed spec fn view(&self) -> u32 {
        self.raw
    }
}

impl Default for ApbBar {
    /// The reset value: every bit cleared.
    fn default() -> (r: ApbBar)
        ensures
            r@ == 0,
    {
        ApbBar { raw: 0 }
    }
}

impl ApbBar {
    /// The register value `raw`, bit for bit.
    pub fn new_with_raw_value(raw: u32) -> (r: ApbBar)
        ensures
            r@ == raw,
    {
        ApbBar { raw }
    }

    /// The whole register value.
    pub fn raw_value(&self) -> (r: u32)
        ensures
            r == self@,
    {
        self.raw
    }

    /// Address field (bits 20..=31).
    pub fn addr_upper_bits(&self) -> (r: u16)
        ensures
            r == field_spec(self@, 20, 0xfff),
            r <= 0xfff,
    {
        field(self.raw, 20, 0xfff) as u16
    }

    /// Prefetchable (bit 17).
    pub fn prefetchable(&self) -> (r: bool)
        ensures
            r == bit_spec(self@, 17),
    {
        bit(self.raw, 17)
    }

    /// Cacheable (bit 16).
    pub fn cacheable(&self) -> (r: bool)
        ensures
            r == bit_spec(self@, 16),
    {
        bit(self.raw, 16)
    }

    /// Address mask (bits 4..=15).
    pub fn mask(&self) -> (r: u16)
        ensures
            r == field_spec(self@, 4, 0xfff),
            r <= 0xfff,
    {
        field(self.raw, 4, 0xfff) as u16
    }

    /// Type of the bank (bits 0..=3): the type, or the raw value when it encodes none.
    pub fn bar_type(&self) -> (r: Result<BarType, u8>)
        ensures
            r == BarType::decode(field_spec(self@, 0, 0xf) as u8),
    {
        BarType::new_with_raw_value(field(self.raw, 0, 0xf) as u8)
    }
}

impl ApbBar {
    /// Offset of the bank from the AHB/APB bridge's base address: `PADDR(19:8)` are decoded,
    /// so the address field is shifted to bits 19:8.
    pub fn address(&self) -> (r: u32)
        ensures
            r == field_spec(self@, 20, 0xfff) * 0x100,
    {
        let upper = self.addr_upper_bits() as u32;
        proof {
            lemma2_to64();
            lemma_u32_shl_is_mul(upper, 8);
        }
        upper << 8
    }

    /// Base address of the bank for a bridge mapped at `ahb_base`.
    pub fn total_address(&self, ahb_base: u32) -> (r: u32)
        requires
            ahb_base + field_spec(self@, 20, 0xfff) * 0x100 <= u32::MAX,
        ensures
            r == ahb_base + field_spec(self@, 20, 0xfff) * 0x100,
    {
        ahb_base + self.address()
    }

    /// Size, in bytes, of the address range decoded by this bank.
    ///
    /// As for an AHB bank, but an APB bank decodes `PADDR(19:8)` instead of `HADDR(31:20)`, so
    /// the minimum (fully masked) range is 256 bytes instead of 1 MiB.
    pub fn address_range(&self) -> (r: u32)
        ensures
            r == pow2((20 - popcount(field_spec(self@, 4, 0xfff) as nat)) as nat),
    {
        let mask = self.mask();
        let ones = count_ones(mask);
        proof {
            lemma2_to64();
            lemma_popcount_bound(mask as nat, 12);
        }
        let dont_care_bits = 12 - ones;
        let shift = 8 + dont_care_bits;
        proof {
            if shift < 32 {
                lemma_pow2_strictly_increases(shift as nat, 32);
            }
            lemma_u32_shl_is_mul(1, shift);
        }
        1u32 << shift
    }
}

/// The range decoded by an APB bank is between 256 bytes (every mask bit set) and 1 MiB (no
/// mask bit set), and a fully set mask decodes exactly 256 bytes.
pub proof fn law_apb_address_range(mask: u16)
    requires
        mask <= 0xfff,
    ensures
        pow2(8) <= pow2((20 - popcount(mask as nat)) as nat) <= pow2(20),
        pow2(8) == 0x100,
        mask == 0xfff ==> pow2((20 - popcount(mask as nat)) as nat) == 0x100,
{
    lemma2_to64();
    lemma_popcount_bound(mask as nat, 12);
    let e = (20 - popcount(mask as nat)) as nat;
    if e > 8 {
        lemma_pow2_strictly_increases(8, e);
    }
    if e < 20 {
        lemma_pow2_strictly_increases(e, 20);
    }
    if mask == 0xfff {
        reveal_with_fuel(popcount, 13);
    }
}

} // verus!
