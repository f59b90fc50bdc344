//! Validity of x86-64 physical and virtual addresses, as the `x86_64` crate
//! decides it.
use vstd::prelude::*;
use x86_64::PhysAddr;
use x86_64::VirtAddr;

verus! {

/// A physical address is valid when bits 52 to 63 are clear.
pub open spec fn phys_addr_valid(addr: u64) -> bool {
    addr < 0x10_0000_0000_0000
}

/// A virtual address is canonical when bits 48 to 63 repeat bit 47.
pub open spec fn virt_addr_canonical(addr: u64) -> bool {
    addr < 0x8000_0000_0000 || addr >= 0xffff_8000_0000_0000
}

/// Relies on `x86_64::PhysAddr::try_new`, which accepts an address exactly when
/// it has no bit set from 52 up, and on `PhysAddr::as_u64`, which gives it back.
#[verifier::external_body]
pub(crate) fn checked_phys_addr(addr: u64) -> (r: Option<u64>)
    ensures
        r == (if phys_addr_valid(addr) {
            Some(addr)
        } else {
            None
        }),
{
    match PhysAddr::try_new(addr) {
        Ok(p) => Some(p.as_u64()),
        Err(_) => None,
    }
}

/// Relies on `x86_64::VirtAddr::try_new`, which accepts an address exactly when
/// bits 48 to 63 are a sign extension of bit 47, and on `VirtAddr::as_u64`,
/// which gives it back.
#[verifier::external_body]
pub(crate) fn checked_virt_addr(addr: u64) -> (r: Option<u64>)
    ensures
        r == (if virt_addr_canonical(addr) {
            Some(addr)
        } else {
            None
        }),
{
    match VirtAddr::try_new(addr) {
        Ok(v) => Some(v.as_u64()),
        Err(_) => None,
    }
}

} // verus!
