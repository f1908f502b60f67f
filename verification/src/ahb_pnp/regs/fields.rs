//! AMBA Plug&Play configuration record register definitions.
//!
//! Layout taken from the GRLIB IP Core manual (AHBCTRL, "AHB plug&play information record").
use vstd::prelude::*;

use vstd::arithmetic::power2::{lemma2_to64, lemma_pow2_strictly_increases, pow2};
use vstd::bits::{lemma_u32_shl_is_mul, lemma_u64_shl_is_mul};

use crate::bits::{bit, bit_spec, count_ones, field, field_spec, lemma_popcount_bound, popcount};

verus! {

/// Identification register of a plug&play record.
#[derive(Clone, Copy, Debug, PartialEq, Eq, Structural)]
pub struct Id {
    raw: u32,
}

impl View for Id {
    type V = u32;

    closed spec fn view(&self) -> u32 {
        self.raw
    }
}

impl Default for Id {
    /// The reset value: every bit cleared.
    fn default() -> (r: Id)
        ensures
            r@ == 0,
    {
        Id { raw: 0 }
    }
}

impl Id {
    /// The register value `raw`, bit for bit.
    pub fn new_with_raw_value(raw: u32) -> (r: Id)
        ensures
            r@ == raw,
    {
        Id { raw }
    }

    /// The whole register value.
    pub fn raw_value(&self) -> (r: u32)
        ensures
            r == self@,
    {
        self.raw
    }

    /// Vendor identifier (bits 24..=31).
    pub fn vendor_raw(&self) -> (r: u8)
        ensures
            r == field_spec(self@, 24, 0xff),
            r <= 0xff,
    {
        field(self.raw, 24, 0xff) as u8
    }

    /// Device identifier (bits 12..=23).
    pub fn device_raw(&self) -> (r: u16)
        ensures
            r == field_spec(self@, 12, 0xfff),
            r <= 0xfff,
    {
        field(self.raw, 12, 0xfff) as u16
    }

    /// First interrupt field (bits 10..=11).
    pub fn irq_a(&self) -> (r: u8)
        ensures
            r == field_spec(self@, 10, 0x3),
            r <= 0x3,
    {
        field(self.raw, 10, 0x3) as u8
    }

    /// Version (bits 5..=9).
    pub fn version(&self) -> (r: u8)
        ensures
            r == field_spec(self@, 5, 0x1f),
            r <= 0x1f,
    {
        field(self.raw, 5, 0x1f) as u8
    }

    /// Second interrupt field (bits 0..=4).
    pub fn irq_b(&self) -> (r: u8)
        ensures
            r == field_spec(self@, 0, 0x1f),
            r <= 0x1f,
    {
        field(self.raw, 0, 0x1f) as u8
    }

}

/// Type of a bank address register.
#[derive(Clone, Copy, Debug, PartialEq, Eq, Structural)]
pub enum BarType {
    ApbIo,
    AhbMemory,
    AhbIo,
}

impl BarType {
    /// The four-bit encoding of this type.
    pub open spec fn encoding(self) -> u8 {
        match self {
            BarType::ApbIo => 1,
            BarType::AhbMemory => 2,
            BarType::AhbIo => 3,
        }
    }

    /// The type encoded by `value`, or `value` itself when it encodes none.
    pub open spec fn decode(value: u8) -> Result<BarType, u8> {
        if value == 1 {
            Ok(BarType::ApbIo)
        } else if value == 2 {
            Ok(BarType::AhbMemory)
        } else if value == 3 {
            Ok(BarType::AhbIo)
        } else {
            Err(value)
        }
    }

    /// The type encoded by the four-bit value `value`, or `value` itself when it encodes none.
    pub fn new_with_raw_value(value: u8) -> (r: Result<BarType, u8>)
        requires
            value < 16,
        ensures
            r == BarType::decode(value),
    {
        if value == 1 {
            Ok(BarType::ApbIo)
        } else if value == 2 {
            Ok(BarType::AhbMemory)
        } else if value == 3 {
            Ok(BarType::AhbIo)
        } else {
            Err(value)
        }
    }

    /// The four-bit encoding of this type.
    pub fn raw_value(self) -> (r: u8)
        ensures
            r == self.encoding(),
    {
        match self {
            BarType::ApbIo => 1,
            BarType::AhbMemory => 2,
            BarType::AhbIo => 3,
        }
    }
}

/// Decoding the encoding of a type gives the type back.
pub proof fn law_bar_type_round_trip(t: BarType)
    ensures
        BarType::decode(t.encoding()) == Ok::<BarType, u8>(t),
{
}

/// Bank address register of an AHB plug&play record.
#[derive(Clone, Copy, Debug, PartialEq, Eq, Structural)]
pub struct AhbBar {
    raw: u32,
}

impl View for AhbBar {
    type V = u32;

    closed spec fn view(&self) -> u32 {
        self.raw
    }
}

impl Default for AhbBar {
    /// The reset value: every bit cleared.
    fn default() -> (r: AhbBar)
        ensures
            r@ == 0,
    {
        AhbBar { raw: 0 }
    }
}

impl AhbBar {
    /// The register value `raw`, bit for bit.
    pub fn new_with_raw_value(raw: u32) -> (r: AhbBar)
        ensures
            r@ == raw,
    {
        AhbBar { raw }
    }

    /// The whole register value.
    pub fn raw_value(&self) -> (r: u32)
        ensures
            r == self@,
    {
        self.raw
    }

    /// Address field (bits 20..=31).
    pub fn addr_upper_bits(&self) -> (r: u16)
        ensures
            r == field_spec(self@, 20, 0xfff),
            r <= 0xfff,
    {
        field(self.raw, 20, 0xfff) as u16
    }

    /// Prefetchable (bit 17).
    pub fn prefetchable(&self) -> (r: bool)
        ensures
            r == bit_spec(self@, 17),
    {
        bit(self.raw, 17)
    }

    /// Cacheable (bit 16).
    pub fn cacheable(&self) -> (r: bool)
        ensures
            r == bit_spec(self@, 16),
    {
        bit(self.raw, 16)
    }

    /// Address mask (bits 4..=15).
    pub fn mask(&self) -> (r: u16)
        ensures
            r == field_spec(self@, 4, 0xfff),
            r <= 0xfff,
    {
        field(self.raw, 4, 0xfff) as u16
    }

    /// Type of the bank (bits 0..=3): the type, or the raw value when it encodes none.
    pub fn bar_type(&self) -> (r: Result<BarType, u8>)
        ensures
            r == BarType::decode(field_spec(self@, 0, 0xf) as u8),
    {
        BarType::new_with_raw_value(field(self.raw, 0, 0xf) as u8)
    }
}

impl AhbBar {
    /// Base address of the bank: the address field as bits 31:20.
    pub fn address(&self) -> (r: u32)
        ensures
            r == field_spec(self@, 20, 0xfff) * 0x10_0000,
    {
        let upper = self.addr_upper_bits() as u32;
        proof {
            lemma2_to64();
            lemma_u32_shl_is_mul(upper, 20);
        }
        upper << 20
    }

    /// Size, in bytes, of the address range decoded by this bank.
    ///
    /// A slave is selected when `((ADDR xor HADDR(31:20)) and MASK) = 0`. Every `MASK` bit
    /// that is 0 turns the corresponding address bit into a "don't care", doubling the decoded
    /// range. Since only bits 31:20 are compared, the minimum (`MASK` all ones) range is 1 MiB.
    pub fn address_range(&self) -> (r: u64)
        ensures
            r == pow2((32 - popcount(field_spec(self@, 4, 0xfff) as nat)) as nat),
    {
        let mask = self.mask();
        let ones = count_ones(mask);
        proof {
            lemma2_to64();
            lemma_popcount_bound(mask as nat, 12);
        }
        let dont_care_bits = 12 - ones;
        let shift = (20 + dont_care_bits) as u64;
        proof {
            if shift < 32 {
                lemma_pow2_strictly_increases(shift as nat, 32);
            }
            lemma_u64_shl_is_mul(1, shift);
        }
        1u64 << shift
    }
}

/// The range decoded by an AHB bank is between 1 MiB (every mask bit set) and 4 GiB (no mask
/// bit set), and a fully set mask decodes exactly 1 MiB.
pub proof fn law_ahb_address_range(mask: u16)
    requires
        mask <= 0xfff,
    ensures
        pow2(20) <= pow2((32 - popcount(mask as nat)) as nat) <= pow2(32),
        pow2(20) == 0x10_0000,
        mask == 0xfff ==> pow2((32 - popcount(mask as nat)) as nat) == 0x10_0000,
{
    lemma2_to64();
    lemma_popcount_bound(mask as nat, 12);
    let e = (32 - popcount(mask as nat)) as nat;
    if e > 20 {
        lemma_pow2_strictly_increases(20, e);
    }
    if e < 32 {
        lemma_pow2_strictly_increases(e, 32);
    }
    if mask == 0xfff {
        reveal_with_fuel(popcount, 13);
    }
}

} // verus!
