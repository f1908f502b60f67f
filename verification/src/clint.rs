//! Core-local interrupt controller (CLINT) of the NOEL-V.
use vstd::prelude::*;

verus! {

/// Base address of the CLINT register block.
pub const BASE_ADDR: usize = 0xE000_0000;

/// The CLINT register block at its fixed address.
pub fn new_fixed() -> (r: usize)
    ensures
        r == BASE_ADDR,
{
    BASE_ADDR
}

} // verus!
