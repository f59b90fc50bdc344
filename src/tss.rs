//! The task-state segment and the pointer that loads a descriptor table.
use vstd::prelude::*;

verus! {

/// A descriptor-table pointer: the table's limit and base address.
#[derive(Debug, Clone, Copy, PartialEq, Eq, Structural)]
pub struct Tptr {
    pub limit: u16,
    pub base: u64,
}

impl Tptr {
    /// A pointer with zero limit and base.
    pub fn new() -> (r: Tptr)
        ensures
            r.limit == 0 && r.base == 0,
    {
        Tptr { limit: 0, base: 0 }
    }
}

/// A 64-bit task-state segment: the stack pointers for privilege levels 0 to
/// 2, the seven interrupt stacks (entry 0 is unused by the processor) and the
/// offset of the I/O permission map.
#[derive(Debug, Clone, Copy)]
pub struct Tss {
    pub reserved0: u32,
    pub tss_rsp: [u64; 3],
    pub reserved1: u64,
    pub tss_ist: [u64; 7],
    pub reserved2: u64,
    pub reserved3: u16,
    pub tss_iomb: u16,
}

/// Byte offset at which the I/O permission map follows the segment.
pub const TSS_IOPB: usize = 104;

impl Tss {
    /// A segment with every field zero.
    pub fn new() -> (r: Tss)
        ensures
            r.reserved0 == 0 && r.reserved1 == 0 && r.reserved2 == 0 && r.reserved3 == 0
                && r.tss_iomb == 0,
            forall|i: int| 0 <= i < 3 ==> r.tss_rsp[i] == 0,
            forall|i: int| 0 <= i < 7 ==> r.tss_ist[i] == 0,
    {
        Tss {
            reserved0: 0,
            tss_rsp: [0, 0, 0],
            reserved1: 0,
            tss_ist: [0, 0, 0, 0, 0, 0, 0],
            reserved2: 0,
            reserved3: 0,
            tss_iomb: 0,
        }
    }

    /// The stack pointer for privilege level `idx`.
    pub fn tss_rsp(&self, idx: usize) -> (r: u64)
        requires
            idx < 3,
        ensures
            r == self.tss_rsp[idx as int],
    {
        self.tss_rsp[idx]
    }

    /// Sets the stack pointer for privilege level `idx`.
    pub fn set_tss_rsp(&mut self, idx: usize, val: u64) -> (r: &mut Self)
        requires
            idx < 3,
        ensures
            r.tss_rsp@ == old(self).tss_rsp@.update(idx as int, val),
            r.tss_ist == old(self).tss_ist,
            r.tss_iomb == old(self).tss_iomb,
            r.reserved0 == old(self).reserved0 && r.reserved1 == old(self).reserved1
                && r.reserved2 == old(self).reserved2 && r.reserved3 == old(self).reserved3,
            *final(self) == *final(r),
    {
        self.tss_rsp[idx] = val;
        self
    }

    /// The interrupt stack pointer `idx`.
    pub fn tss_ist(&self, idx: usize) -> (r: u64)
        requires
            idx < 7,
        ensures
            r == self.tss_ist[idx as int],
    {
        self.tss_ist[idx]
    }

    /// Sets the interrupt stack pointer `idx`.
    pub fn set_tss_ist(&mut self, idx: usize, val: u64) -> (r: &mut Self)
        requires
            idx < 7,
        ensures
            r.tss_ist@ == old(self).tss_ist@.update(idx as int, val),
            r.tss_rsp == old(self).tss_rsp,
            r.tss_iomb == old(self).tss_iomb,
            r.reserved0 == old(self).reserved0 && r.reserved1 == old(self).reserved1
                && r.reserved2 == old(self).reserved2 && r.reserved3 == old(self).reserved3,
            *final(self) == *final(r),
    {
        self.tss_ist[idx] = val;
        self
    }
}

impl Tptr {
    pub fn limit(&self) -> (r: u16)
        ensures
            r == self.limit,
    {
        self.limit
    }

    pub fn set_limit(&mut self, value: u16) -> (r: &mut Self)
        ensures
            *r == (Tptr { limit: value, ..*old(self) }),
            *final(self) == *final(r),
    {
        self.limit = value;
        self
    }

    pub fn base(&self) -> (r: u64)
        ensures
            r == self.base,
    {
        self.base
    }

    pub fn set_base(&mut self, value: u64) -> (r: &mut Self)
        ensures
            *r == (Tptr { base: value, ..*old(self) }),
            *final(self) == *final(r),
    {
        self.base = value;
        self
    }
}

impl Tss {
    pub fn tss_iomb(&self) -> (r: u16)
        ensures
            r == self.tss_iomb,
    {
        self.tss_iomb
    }

    pub fn set_tss_iomb(&mut self, value: u16) -> (r: &mut Self)
        ensures
            *r == (Tss { tss_iomb: value, ..*old(self) }),
            *final(self) == *final(r),
    {
        self.tss_iomb = value;
        self
    }
}

impl Default for Tptr {
    fn default() -> (r: Self)
        ensures
            r.limit == 0 && r.base == 0,
    {
        Tptr::new()
    }
}

} // verus!
