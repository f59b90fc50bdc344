//! The frame that the isolated context's own trap entry saves.
use vstd::prelude::*;

verus! {

/// A trap frame: the argument registers, the callee-saved registers, `rax`,
/// then the exception frame with its error code, `rip`, `cs`, `rflags`, `rsp`
/// and `ss`, each padded to eight bytes.
#[derive(Debug, Clone, Copy)]
pub struct DuneTf {
    pub rdi: u64,
    pub rsi: u64,
    pub rdx: u64,
    pub rcx: u64,
    pub r8: u64,
    pub r9: u64,
    pub r10: u64,
    pub r11: u64,
    pub rbx: u64,
    pub rbp: u64,
    pub r12: u64,
    pub r13: u64,
    pub r14: u64,
    pub r15: u64,
    pub rax: u64,
    pub err: u32,
    pub pad1: u32,
    pub rip: u64,
    pub cs: u16,
    pub pad2: [u16; 3],
    pub rflags: u64,
    pub rsp: u64,
    pub ss: u16,
    pub pad3: [u16; 3],
}

impl DuneTf {
    /// A frame with every field zero.
    pub fn new() -> (r: DuneTf)
        ensures
            r.rdi == 0 && r.rsi == 0 && r.rdx == 0 && r.rcx == 0 && r.r8 == 0 && r.r9 == 0
                && r.r10 == 0 && r.r11 == 0 && r.rbx == 0 && r.rbp == 0 && r.r12 == 0 && r.r13
                == 0 && r.r14 == 0 && r.r15 == 0 && r.rax == 0 && r.err == 0 && r.pad1 == 0
                && r.rip == 0 && r.cs == 0 && r.rflags == 0 && r.rsp == 0 && r.ss == 0,
            r.pad2@ == seq![0u16, 0u16, 0u16],
            r.pad3@ == seq![0u16, 0u16, 0u16],
    {
        DuneTf {
            rdi: 0,
            rsi: 0,
            rdx: 0,
            rcx: 0,
            r8: 0,
            r9: 0,
            r10: 0,
            r11: 0,
            rbx: 0,
            rbp: 0,
            r12: 0,
            r13: 0,
            r14: 0,
            r15: 0,
            rax: 0,
            err: 0,
            pad1: 0,
            rip: 0,
            cs: 0,
            pad2: [0, 0, 0],
            rflags: 0,
            rsp: 0,
            ss: 0,
            pad3: [0, 0, 0],
        }
    }
}

impl DuneTf {
    pub fn rdi(&self) -> (r: u64)
        ensures
            r == self.rdi,
    {
        self.rdi
    }

    pub fn set_rdi(&mut self, value: u64) -> (r: &mut Self)
        ensures
            *r == (DuneTf { rdi: value, ..*old(self) }),
            *final(self) == *final(r),
    {
        self.rdi = value;
        self
    }

    pub fn rsi(&self) -> (r: u64)
        ensures
            r == self.rsi,
    {
        self.rsi
    }

    pub fn set_rsi(&mut self, value: u64) -> (r: &mut Self)
        ensures
            *r == (DuneTf { rsi: value, ..*old(self) }),
            *final(self) == *final(r),
    {
        self.rsi = value;
        self
    }

    pub fn rdx(&self) -> (r: u64)
        ensures
            r == self.rdx,
    {
        self.rdx
    }

    pub fn set_rdx(&mut self, value: u64) -> (r: &mut Self)
        ensures
            *r == (DuneTf { rdx: value, ..*old(self) }),
            *final(self) == *final(r),
    {
        self.rdx = value;
        self
    }

    pub fn rcx(&self) -> (r: u64)
        ensures
            r == self.rcx,
    {
        self.rcx
    }

    pub fn set_rcx(&mut self, value: u64) -> (r: &mut Self)
        ensures
            *r == (DuneTf { rcx: value, ..*old(self) }),
            *final(self) == *final(r),
    {
        self.rcx = value;
        self
    }

    pub fn r8(&self) -> (r: u64)
        ensures
            r == self.r8,
    {
        self.r8
    }

    pub fn set_r8(&mut self, value: u64) -> (r: &mut Self)
        ensures
            *r == (DuneTf { r8: value, ..*old(self) }),
            *final(self) == *final(r),
    {
        self.r8 = value;
        self
    }

    pub fn r9(&self) -> (r: u64)
        ensures
            r == self.r9,
    {
        self.r9
    }

    pub fn set_r9(&mut self, value: u64) -> (r: &mut Self)
        ensures
            *r == (DuneTf { r9: value, ..*old(self) }),
            *final(self) == *final(r),
    {
        self.r9 = value;
        self
    }

    pub fn r10(&self) -> (r: u64)
        ensures
            r == self.r10,
    {
        self.r10
    }

    pub fn set_r10(&mut self, value: u64) -> (r: &mut Self)
        ensures
            *r == (DuneTf { r10: value, ..*old(self) }),
            *final(self) == *final(r),
    {
        self.r10 = value;
        self
    }

    pub fn r11(&self) -> (r: u64)
        ensures
            r == self.r11,
    {
        self.r11
    }

    pub fn set_r11(&mut self, value: u64) -> (r: &mut Self)
        ensures
            *r == (DuneTf { r11: value, ..*old(self) }),
            *final(self) == *final(r),
    {
        self.r11 = value;
        self
    }

    pub fn rbx(&self) -> (r: u64)
        ensures
            r == self.rbx,
    {
        self.rbx
    }

    pub fn set_rbx(&mut self, value: u64) -> (r: &mut Self)
        ensures
            *r == (DuneTf { rbx: value, ..*old(self) }),
            *final(self) == *final(r),
    {
        self.rbx = value;
        self
    }

    pub fn rbp(&self) -> (r: u64)
        ensures
            r == self.rbp,
    {
        self.rbp
    }

    pub fn set_rbp(&mut self, value: u64) -> (r: &mut Self)
        ensures
            *r == (DuneTf { rbp: value, ..*old(self) }),
            *final(self) == *final(r),
    {
        self.rbp = value;
        self
    }

    pub fn r12(&self) -> (r: u64)
        ensures
            r == self.r12,
    {
        self.r12
    }

    pub fn set_r12(&mut self, value: u64) -> (r: &mut Self)
        ensures
            *r == (DuneTf { r12: value, ..*old(self) }),
            *final(self) == *final(r),
    {
        self.r12 = value;
        self
    }

    pub fn r13(&self) -> (r: u64)
        ensures
            r == self.r13,
    {
        self.r13
    }

    pub fn set_r13(&mut self, value: u64) -> (r: &mut Self)
        ensures
            *r == (DuneTf { r13: value, ..*old(self) }),
            *final(self) == *final(r),
    {
        self.r13 = value;
        self
    }

    pub fn r14(&self) -> (r: u64)
        ensures
            r == self.r14,
    {
        self.r14
    }

    pub fn set_r14(&mut self, value: u64) -> (r: &mut Self)
        ensures
            *r == (DuneTf { r14: value, ..*old(self) }),
            *final(self) == *final(r),
    {
        self.r14 = value;
        self
    }

    pub fn r15(&self) -> (r: u64)
        ensures
            r == self.r15,
    {
        self.r15
    }

    pub fn set_r15(&mut self, value: u64) -> (r: &mut Self)
        ensures
            *r == (DuneTf { r15: value, ..*old(self) }),
            *final(self) == *final(r),
    {
        self.r15 = value;
        self
    }

    pub fn rax(&self) -> (r: u64)
        ensures
            r == self.rax,
    {
        self.rax
    }

    pub fn set_rax(&mut self, value: u64) -> (r: &mut Self)
        ensures
            *r == (DuneTf { rax: value, ..*old(self) }),
            *final(self) == *final(r),
    {
        self.rax = value;
        self
    }

    pub fn err(&self) -> (r: u32)
        ensures
            r == self.err,
    {
        self.err
    }

    pub fn set_err(&mut self, value: u32) -> (r: &mut Self)
        ensures
            *r == (DuneTf { err: value, ..*old(self) }),
            *final(self) == *final(r),
    {
        self.err = value;
        self
    }

    pub fn rip(&self) -> (r: u64)
        ensures
            r == self.rip,
    {
        self.rip
    }

    pub fn set_rip(&mut self, value: u64) -> (r: &mut Self)
        ensures
            *r == (DuneTf { rip: value, ..*old(self) }),
            *final(self) == *final(r),
    {
        self.rip = value;
        self
    }

    pub fn cs(&self) -> (r: u16)
        ensures
            r == self.cs,
    {
        self.cs
    }

    pub fn set_cs(&mut self, value: u16) -> (r: &mut Self)
        ensures
            *r == (DuneTf { cs: value, ..*old(self) }),
            *final(self) == *final(r),
    {
        self.cs = value;
        self
    }

    pub fn rflags(&self) -> (r: u64)
        ensures
            r == self.rflags,
    {
        self.rflags
    }

    pub fn set_rflags(&mut self, value: u64) -> (r: &mut Self)
        ensures
            *r == (DuneTf { rflags: value, ..*old(self) }),
            *final(self) == *final(r),
    {
        self.rflags = value;
        self
    }

    pub fn rsp(&self) -> (r: u64)
        ensures
            r == self.rsp,
    {
        self.rsp
    }

    pub fn set_rsp(&mut self, value: u64) -> (r: &mut Self)
        ensures
            *r == (DuneTf { rsp: value, ..*old(self) }),
            *final(self) == *final(r),
    {
        self.rsp = value;
        self
    }

    pub fn ss(&self) -> (r: u16)
        ensures
            r == self.ss,
    {
        self.ss
    }

    pub fn set_ss(&mut self, value: u16) -> (r: &mut Self)
        ensures
            *r == (DuneTf { ss: value, ..*old(self) }),
            *final(self) == *final(r),
    {
        self.ss = value;
        self
    }
}

} // verus!
