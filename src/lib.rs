use vstd::prelude::*;

pub mod addr;
pub mod debug;
pub mod dev;
pub mod dune;
pub mod idt;
pub mod result;
pub mod trap;
pub mod tss;
pub mod vmpl;
pub mod wire;

verus! {

/// Adds two 64-bit values; the sum must fit.
pub fn add(left: u64, right: u64) -> (r: u64)
    requires
        left + right <= u64::MAX,
    ensures
        r == left + right,
{
    left + right
}

/// Rounds `addr` up to the next multiple of one gigabyte.
pub fn lg_align(addr: u64) -> (r: u64)
    requires
        addr <= u64::MAX - 0x3fff_ffff,
    ensures
        r % 0x4000_0000 == 0,
        addr <= r,
        r - addr < 0x4000_0000,
{
    let sum: u64 = addr + 0x3fff_ffff;
    let r = sum & !0x3fff_ffffu64;
    assert(r % 0x4000_0000 == 0 && addr <= r && r - addr < 0x4000_0000) by (bit_vector)
        requires
            addr <= u64::MAX - 0x3fff_ffff,
            sum == addr + 0x3fff_ffff,
            r == sum & !0x3fff_ffffu64,
    ;
    r
}

} // verus!
