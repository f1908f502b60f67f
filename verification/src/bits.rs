//! Bit and bit-field helpers over 32-bit register words, with their laws.
use vstd::prelude::*;

use vstd::arithmetic::power2::{lemma_pow2_unfold, pow2};

verus! {

/// A mask of `width` low bits (`width < 32`).
pub open spec fn low_mask(width: u32) -> u32 {
    ((1u32 << width) - 1) as u32
}

/// Whether bit `n` of `raw` is set.
pub open spec fn bit_spec(raw: u32, n: u32) -> bool {
    (raw >> n) & 1 == 1
}

/// `raw` with bit `n` set to `value`.
pub open spec fn with_bit_spec(raw: u32, n: u32, value: bool) -> u32 {
    if value {
        raw | (1u32 << n)
    } else {
        raw & !(1u32 << n)
    }
}

/// The field of `raw` selected by `mask` after shifting right by `lo`.
pub open spec fn field_spec(raw: u32, lo: u32, mask: u32) -> u32 {
    (raw >> lo) & mask
}

/// `raw` with the field selected by `mask << lo` replaced by `value`.
pub open spec fn with_field_spec(raw: u32, lo: u32, mask: u32, value: u32) -> u32 {
    (raw & !(mask << lo)) | ((value & mask) << lo)
}

/// Reads bit `n` of `raw`.
pub fn bit(raw: u32, n: u32) -> (r: bool)
    requires
        n < 32,
    ensures
        r == bit_spec(raw, n),
{
    (raw >> n) & 1 == 1
}

/// Returns `raw` with bit `n` set to `value`.
pub fn with_bit(raw: u32, n: u32, value: bool) -> (r: u32)
    requires
        n < 32,
    ensures
        r == with_bit_spec(raw, n, value),
{
    if value {
        raw | (1u32 << n)
    } else {
        raw & !(1u32 << n)
    }
}

/// Reads the field `(raw >> lo) & mask`.
pub fn field(raw: u32, lo: u32, mask: u32) -> (r: u32)
    requires
        lo < 32,
    ensures
        r == field_spec(raw, lo, mask),
        r <= mask,
{
    let r = (raw >> lo) & mask;
    assert(r <= mask) by (bit_vector)
        requires
            r == (raw >> lo) & mask;
    r
}

/// Returns `raw` with the field `mask << lo` replaced by `value & mask`.
pub fn with_field(raw: u32, lo: u32, mask: u32, value: u32) -> (r: u32)
    requires
        lo < 32,
    ensures
        r == with_field_spec(raw, lo, mask, value),
{
    (raw & !(mask << lo)) | ((value & mask) << lo)
}

/// Setting a bit and reading it back gives the value set; every other bit is unchanged.
pub proof fn lemma_with_bit(raw: u32, n: u32, value: bool)
    requires
        n < 32,
    ensures
        bit_spec(with_bit_spec(raw, n, value), n) == value,
        forall|m: u32|
            m < 32 && m != n ==> #[trigger] bit_spec(with_bit_spec(raw, n, value), m)
                == bit_spec(raw, m),
{
    if value {
        assert(((raw | (1u32 << n)) >> n) & 1 == 1) by (bit_vector)
            requires
                n < 32,
        ;
        assert forall|m: u32| m < 32 && m != n implies ((raw | (1u32 << n)) >> m) & 1 == (raw
            >> m) & 1 by {
            assert(((raw | (1u32 << n)) >> m) & 1 == (raw >> m) & 1) by (bit_vector)
                requires
                    n < 32,
                    m < 32,
                    m != n,
            ;
        }
    } else {
        assert(((raw & !(1u32 << n)) >> n) & 1 == 0) by (bit_vector)
            requires
                n < 32,
        ;
        assert forall|m: u32| m < 32 && m != n implies ((raw & !(1u32 << n)) >> m) & 1 == (raw
            >> m) & 1 by {
            assert(((raw & !(1u32 << n)) >> m) & 1 == (raw >> m) & 1) by (bit_vector)
                requires
                    n < 32,
                    m < 32,
                    m != n,
            ;
        }
    }
}

/// Writing a field and reading it back gives the value written, reduced to the field's width;
/// every bit outside the field is unchanged.
pub proof fn lemma_with_field(raw: u32, lo: u32, width: u32, value: u32)
    requires
        1 <= width,
        lo + width <= 32,
        width < 32,
    ensures
        field_spec(with_field_spec(raw, lo, low_mask(width), value), lo, low_mask(width)) == value
            & low_mask(width),
        forall|m: u32|
            m < 32 && !(lo <= m < lo + width) ==> #[trigger] bit_spec(
                with_field_spec(raw, lo, low_mask(width), value),
                m,
            ) == bit_spec(raw, m),
{
    let mask = low_mask(width);
    assert((((raw & !(mask << lo)) | ((value & mask) << lo)) >> lo) & mask == value & mask)
        by (bit_vector)
        requires
            mask == ((1u32 << width) - 1) as u32,
            1 <= width < 32,
            lo + width <= 32,
    ;
    assert forall|m: u32| m < 32 && !(lo <= m < lo + width) implies (((raw & !(mask << lo)) | ((
    value & mask) << lo)) >> m) & 1 == (raw >> m) & 1 by {
        assert((((raw & !(mask << lo)) | ((value & mask) << lo)) >> m) & 1 == (raw >> m) & 1)
            by (bit_vector)
            requires
                mask == ((1u32 << width) - 1) as u32,
                1 <= width < 32,
                lo + width <= 32,
                m < 32,
                !(lo <= m < lo + width),
        ;
    }
}

/// Flipping bit `n` with an exclusive or inverts that bit, keeps bit `m`, and flipping twice
/// restores the value.
pub proof fn lemma_xor_bit(raw: u32, n: u32, m: u32)
    requires
        n < 32,
        m < 32,
        m != n,
    ensures
        bit_spec(raw ^ (1u32 << n), n) == !bit_spec(raw, n),
        bit_spec(raw ^ (1u32 << n), m) == bit_spec(raw, m),
        (raw ^ (1u32 << n)) ^ (1u32 << n) == raw,
{
    assert(((raw ^ (1u32 << n)) >> n) & 1 == 1 <==> !((raw >> n) & 1 == 1)) by (bit_vector)
        requires
            n < 32,
    ;
    assert(((raw ^ (1u32 << n)) >> m) & 1 == (raw >> m) & 1 && (raw ^ (1u32 << n)) ^ (1u32 << n)
        == raw) by (bit_vector)
        requires
            n < 32,
            m < 32,
            m != n,
    ;
}

/// Number of ones in the binary representation of `x`.
pub open spec fn popcount(x: nat) -> nat
    decreases x,
{
    if x == 0 {
        0
    } else {
        x % 2 + popcount(x / 2)
    }
}

/// A value below `2^k` has at most `k` ones.
pub proof fn lemma_popcount_bound(x: nat, k: nat)
    requires
        x < pow2(k),
    ensures
        popcount(x) <= k,
    decreases k,
{
    if k > 0 {
        lemma_pow2_unfold(k);
        lemma_popcount_bound(x / 2, (k - 1) as nat);
    } else {
        assert(pow2(0) == 1) by {
            vstd::arithmetic::power2::lemma2_to64();
        }
    }
}

/// Number of ones in the binary representation of `value` (`u16::count_ones`).
pub fn count_ones(value: u16) -> (r: u32)
    ensures
        r == popcount(value as nat),
        r <= 16,
{
    proof {
        vstd::arithmetic::power2::lemma2_to64();
        lemma_popcount_bound(value as nat, 16);
    }
    let mut x: u16 = value;
    let mut n: u32 = 0;
    while x != 0
        invariant
            n + popcount(x as nat) == popcount(value as nat),
            popcount(value as nat) <= 16,
        decreases x,
    {
        n = n + (x % 2) as u32;
        x = x / 2;
    }
    n
}

} // verus!
