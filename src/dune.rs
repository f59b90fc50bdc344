//! The entry/exit register block, the classification of exit codes, and the
//! memory layout that the driver reports.
use vstd::prelude::*;
use crate::addr::checked_phys_addr;
use crate::addr::checked_virt_addr;
use crate::addr::phys_addr_valid;
use crate::addr::virt_addr_canonical;
use crate::wire::bytes_to_words;
use crate::wire::decode_words;
use crate::wire::encode_words;
use crate::wire::le_bytes;
use crate::wire::lemma_words_round_trip;
use crate::wire::lemma_words_slot;
use crate::wire::read_word;
use crate::wire::word_at;
use crate::wire::words_to_bytes;

verus! {

/// The register block handed to the driver on entry and filled in on exit.
///
/// It travels as 22 little-endian words; the `DUNE_CFG_*` constants give the
/// byte offset of each field.
#[derive(Debug, Clone, Copy, PartialEq, Eq, Structural)]
pub struct DuneConfig {
    pub ret: i64,
    pub rax: i64,
    pub rbx: u64,
    pub rcx: u64,
    pub rdx: u64,
    pub rsi: u64,
    pub rdi: u64,
    pub rsp: u64,
    pub rbp: u64,
    pub r8: u64,
    pub r9: u64,
    pub r10: u64,
    pub r11: u64,
    pub r12: u64,
    pub r13: u64,
    pub r14: u64,
    pub r15: u64,
    pub rip: u64,
    pub rflags: u64,
    pub cr3: u64,
    pub status: i64,
    pub vcpu: u64,
}

pub const DUNE_CFG_RET: usize = 0;
pub const DUNE_CFG_RAX: usize = 8;
pub const DUNE_CFG_RBX: usize = 16;
pub const DUNE_CFG_RCX: usize = 24;
pub const DUNE_CFG_RDX: usize = 32;
pub const DUNE_CFG_RSI: usize = 40;
pub const DUNE_CFG_RDI: usize = 48;
pub const DUNE_CFG_RSP: usize = 56;
pub const DUNE_CFG_RBP: usize = 64;
pub const DUNE_CFG_R8: usize = 72;
pub const DUNE_CFG_R9: usize = 80;
pub const DUNE_CFG_R10: usize = 88;
pub const DUNE_CFG_R11: usize = 96;
pub const DUNE_CFG_R12: usize = 104;
pub const DUNE_CFG_R13: usize = 112;
pub const DUNE_CFG_R14: usize = 120;
pub const DUNE_CFG_R15: usize = 128;
pub const DUNE_CFG_RIP: usize = 136;
pub const DUNE_CFG_RFLAGS: usize = 144;
pub const DUNE_CFG_CR3: usize = 152;
pub const DUNE_CFG_STATUS: usize = 160;
pub const DUNE_CFG_VCPU: usize = 168;

/// Size in bytes of the entry/exit block.
pub const DUNE_CONFIG_SIZE: usize = 176;

/// Number of words in the entry/exit block.
pub const DUNE_CONFIG_WORDS: usize = 22;

proof fn lemma_i64_as_u64(x: i64)
    by (bit_vector)
    ensures
        (x as u64) as i64 == x,
{
}

impl DuneConfig {
    /// The block with every field zero.
    pub open spec fn zeroed() -> DuneConfig {
        DuneConfig {
            ret: 0,
            rax: 0,
            rbx: 0,
            rcx: 0,
            rdx: 0,
            rsi: 0,
            rdi: 0,
            rsp: 0,
            rbp: 0,
            r8: 0,
            r9: 0,
            r10: 0,
            r11: 0,
            r12: 0,
            r13: 0,
            r14: 0,
            r15: 0,
            rip: 0,
            rflags: 0,
            cr3: 0,
            status: 0,
            vcpu: 0,
        }
    }

    /// The fields in layout order, signed ones by their two's complement bits.
    pub open spec fn words(self) -> Seq<u64> {
        seq![
            self.ret as u64,
            self.rax as u64,
            self.rbx,
            self.rcx,
            self.rdx,
            self.rsi,
            self.rdi,
            self.rsp,
            self.rbp,
            self.r8,
            self.r9,
            self.r10,
            self.r11,
            self.r12,
            self.r13,
            self.r14,
            self.r15,
            self.rip,
            self.rflags,
            self.cr3,
            self.status as u64,
            self.vcpu,
        ]
    }

    /// The block whose words, in layout order, are `ws`.
    pub open spec fn from_words(ws: Seq<u64>) -> DuneConfig {
        DuneConfig {
            ret: ws[0] as i64,
            rax: ws[1] as i64,
            rbx: ws[2],
            rcx: ws[3],
            rdx: ws[4],
            rsi: ws[5],
            rdi: ws[6],
            rsp: ws[7],
            rbp: ws[8],
            r8: ws[9],
            r9: ws[10],
            r10: ws[11],
            r11: ws[12],
            r12: ws[13],
            r13: ws[14],
            r14: ws[15],
            r15: ws[16],
            rip: ws[17],
            rflags: ws[18],
            cr3: ws[19],
            status: ws[20] as i64,
            vcpu: ws[21],
        }
    }

    /// The bytes of the block as the driver reads them.
    pub open spec fn layout(self) -> Seq<u8> {
        words_to_bytes(self.words())
    }

    /// The block that the driver's bytes `b` describe.
    pub open spec fn parse(b: Seq<u8>) -> DuneConfig {
        DuneConfig::from_words(bytes_to_words(b))
    }

    /// The block with every field zero: a fresh start.
    pub fn new() -> (r: DuneConfig)
        ensures
            r == DuneConfig::zeroed(),
    {
        DuneConfig {
            ret: 0,
            rax: 0,
            rbx: 0,
            rcx: 0,
            rdx: 0,
            rsi: 0,
            rdi: 0,
            rsp: 0,
            rbp: 0,
            r8: 0,
            r9: 0,
            r10: 0,
            r11: 0,
            r12: 0,
            r13: 0,
            r14: 0,
            r15: 0,
            rip: 0,
            rflags: 0,
            cr3: 0,
            status: 0,
            vcpu: 0,
        }
    }

    fn to_words(&self) -> (r: Vec<u64>)
        ensures
            r@ == self.words(),
    {
        let mut v: Vec<u64> = Vec::new();
        v.push(self.ret as u64);
        v.push(self.rax as u64);
        v.push(self.rbx);
        v.push(self.rcx);
        v.push(self.rdx);
        v.push(self.rsi);
        v.push(self.rdi);
        v.push(self.rsp);
        v.push(self.rbp);
        v.push(self.r8);
        v.push(self.r9);
        v.push(self.r10);
        v.push(self.r11);
        v.push(self.r12);
        v.push(self.r13);
        v.push(self.r14);
        v.push(self.r15);
        v.push(self.rip);
        v.push(self.rflags);
        v.push(self.cr3);
        v.push(self.status as u64);
        v.push(self.vcpu);
        assert(v@ =~= self.words());
        v
    }

    /// Serialises the block into the bytes that the driver reads.
    pub fn to_bytes(&self) -> (r: Vec<u8>)
        ensures
            r@ == self.layout(),
            r@.len() == DUNE_CONFIG_SIZE,
    {
        let ws = self.to_words();
        encode_words(ws.as_slice())
    }

    /// Reads a block from the driver's bytes; `None` unless there are exactly
    /// `DUNE_CONFIG_SIZE` of them.
    pub fn from_bytes(b: &[u8]) -> (r: Option<DuneConfig>)
        ensures
            r == (if b@.len() == DUNE_CONFIG_SIZE {
                Some(DuneConfig::parse(b@))
            } else {
                None
            }),
    {
        if b.len() != DUNE_CONFIG_SIZE {
            return None;
        }
        let ws = decode_words(b);
        assert(ws@.len() == DUNE_CONFIG_WORDS);
        Some(
            DuneConfig {
                ret: ws[0] as i64,
                rax: ws[1] as i64,
                rbx: ws[2],
                rcx: ws[3],
                rdx: ws[4],
                rsi: ws[5],
                rdi: ws[6],
                rsp: ws[7],
                rbp: ws[8],
                r8: ws[9],
                r9: ws[10],
                r10: ws[11],
                r11: ws[12],
                r12: ws[13],
                r13: ws[14],
                r14: ws[15],
                r15: ws[16],
                rip: ws[17],
                rflags: ws[18],
                cr3: ws[19],
                status: ws[20] as i64,
                vcpu: ws[21],
            },
        )
    }

    /// The classification of the exit that the driver recorded in `ret`.
    pub fn exit_reason(&self) -> (r: DuneRetCode)
        ensures
            r == ret_code_of(self.ret),
    {
        DuneRetCode::from(self.ret)
    }
}

/// Parsing the bytes of a block gives the same block back.
pub proof fn lemma_config_round_trip(c: DuneConfig)
    ensures
        DuneConfig::parse(c.layout()) == c,
        c.layout().len() == DUNE_CONFIG_SIZE,
{
    lemma_words_round_trip(c.words());
    lemma_i64_as_u64(c.ret);
    lemma_i64_as_u64(c.rax);
    lemma_i64_as_u64(c.status);
}

/// Each field of the block occupies the eight bytes at its documented offset.
pub proof fn lemma_config_field_offsets(c: DuneConfig)
    ensures
        c.layout().subrange(DUNE_CFG_RET as int, DUNE_CFG_RET + 8) == le_bytes(c.ret as u64),
        c.layout().subrange(DUNE_CFG_RAX as int, DUNE_CFG_RAX + 8) == le_bytes(c.rax as u64),
        c.layout().subrange(DUNE_CFG_RBX as int, DUNE_CFG_RBX + 8) == le_bytes(c.rbx),
        c.layout().subrange(DUNE_CFG_RCX as int, DUNE_CFG_RCX + 8) == le_bytes(c.rcx),
        c.layout().subrange(DUNE_CFG_RDX as int, DUNE_CFG_RDX + 8) == le_bytes(c.rdx),
        c.layout().subrange(DUNE_CFG_RSI as int, DUNE_CFG_RSI + 8) == le_bytes(c.rsi),
        c.layout().subrange(DUNE_CFG_RDI as int, DUNE_CFG_RDI + 8) == le_bytes(c.rdi),
        c.layout().subrange(DUNE_CFG_RSP as int, DUNE_CFG_RSP + 8) == le_bytes(c.rsp),
        c.layout().subrange(DUNE_CFG_RBP as int, DUNE_CFG_RBP + 8) == le_bytes(c.rbp),
        c.layout().subrange(DUNE_CFG_R8 as int, DUNE_CFG_R8 + 8) == le_bytes(c.r8),
        c.layout().subrange(DUNE_CFG_R9 as int, DUNE_CFG_R9 + 8) == le_bytes(c.r9),
        c.layout().subrange(DUNE_CFG_R10 as int, DUNE_CFG_R10 + 8) == le_bytes(c.r10),
        c.layout().subrange(DUNE_CFG_R11 as int, DUNE_CFG_R11 + 8) == le_bytes(c.r11),
        c.layout().subrange(DUNE_CFG_R12 as int, DUNE_CFG_R12 + 8) == le_bytes(c.r12),
        c.layout().subrange(DUNE_CFG_R13 as int, DUNE_CFG_R13 + 8) == le_bytes(c.r13),
        c.layout().subrange(DUNE_CFG_R14 as int, DUNE_CFG_R14 + 8) == le_bytes(c.r14),
        c.layout().subrange(DUNE_CFG_R15 as int, DUNE_CFG_R15 + 8) == le_bytes(c.r15),
        c.layout().subrange(DUNE_CFG_RIP as int, DUNE_CFG_RIP + 8) == le_bytes(c.rip),
        c.layout().subrange(DUNE_CFG_RFLAGS as int, DUNE_CFG_RFLAGS + 8) == le_bytes(c.rflags),
        c.layout().subrange(DUNE_CFG_CR3 as int, DUNE_CFG_CR3 + 8) == le_bytes(c.cr3),
        c.layout().subrange(DUNE_CFG_STATUS as int, DUNE_CFG_STATUS + 8) == le_bytes(c.status as u64),
        c.layout().subrange(DUNE_CFG_VCPU as int, DUNE_CFG_VCPU + 8) == le_bytes(c.vcpu),
{
    lemma_words_slot(c.words(), 0);
    lemma_words_slot(c.words(), 1);
    lemma_words_slot(c.words(), 2);
    lemma_words_slot(c.words(), 3);
    lemma_words_slot(c.words(), 4);
    lemma_words_slot(c.words(), 5);
    lemma_words_slot(c.words(), 6);
    lemma_words_slot(c.words(), 7);
    lemma_words_slot(c.words(), 8);
    lemma_words_slot(c.words(), 9);
    lemma_words_slot(c.words(), 10);
    lemma_words_slot(c.words(), 11);
    lemma_words_slot(c.words(), 12);
    lemma_words_slot(c.words(), 13);
    lemma_words_slot(c.words(), 14);
    lemma_words_slot(c.words(), 15);
    lemma_words_slot(c.words(), 16);
    lemma_words_slot(c.words(), 17);
    lemma_words_slot(c.words(), 18);
    lemma_words_slot(c.words(), 19);
    lemma_words_slot(c.words(), 20);
    lemma_words_slot(c.words(), 21);
}

pub const DUNE_RET_NONE: i64 = 0;
pub const DUNE_RET_EXIT: i64 = 1;
pub const DUNE_RET_SYSCALL: i64 = 2;
pub const DUNE_RET_INTERRUPT: i64 = 3;
pub const DUNE_RET_SIGNAL: i64 = 4;
pub const DUNE_RET_EPT_VIOLATION: i64 = 5;
pub const DUNE_RET_NOENTER: i64 = 6;
pub const DUNE_RET_UNHANDLED_VMEXIT: i64 = 7;

/// Why control came back from the isolated context.
#[derive(Debug, Clone, Copy, PartialEq, Eq, Structural)]
pub enum DuneRetCode {
    NoReason,
    Exit,
    Syscall,
    Interrupt,
    Signal,
    EptViolation,
    NoEnter,
    UnhandledVmexit,
    Unknown,
}

/// The classification of a raw exit code; codes outside `0..=7` are `Unknown`.
pub open spec fn ret_code_of(code: i64) -> DuneRetCode {
    if code == DUNE_RET_NONE {
        DuneRetCode::NoReason
    } else if code == DUNE_RET_EXIT {
        DuneRetCode::Exit
    } else if code == DUNE_RET_SYSCALL {
        DuneRetCode::Syscall
    } else if code == DUNE_RET_INTERRUPT {
        DuneRetCode::Interrupt
    } else if code == DUNE_RET_SIGNAL {
        DuneRetCode::Signal
    } else if code == DUNE_RET_EPT_VIOLATION {
        DuneRetCode::EptViolation
    } else if code == DUNE_RET_NOENTER {
        DuneRetCode::NoEnter
    } else if code == DUNE_RET_UNHANDLED_VMEXIT {
        DuneRetCode::UnhandledVmexit
    } else {
        DuneRetCode::Unknown
    }
}

impl From<i64> for DuneRetCode {
    fn from(code: i64) -> Self {
        if code == DUNE_RET_NONE {
            DuneRetCode::NoReason
        } else if code == DUNE_RET_EXIT {
            DuneRetCode::Exit
        } else if code == DUNE_RET_SYSCALL {
            DuneRetCode::Syscall
        } else if code == DUNE_RET_INTERRUPT {
            DuneRetCode::Interrupt
        } else if code == DUNE_RET_SIGNAL {
            DuneRetCode::Signal
        } else if code == DUNE_RET_EPT_VIOLATION {
            DuneRetCode::EptViolation
        } else if code == DUNE_RET_NOENTER {
            DuneRetCode::NoEnter
        } else if code == DUNE_RET_UNHANDLED_VMEXIT {
            DuneRetCode::UnhandledVmexit
        } else {
            DuneRetCode::Unknown
        }
    }
}

impl vstd::std_specs::convert::FromSpecImpl<i64> for DuneRetCode {
    open spec fn obeys_from_spec() -> bool {
        true
    }

    open spec fn from_spec(code: i64) -> Self {
        ret_code_of(code)
    }
}

/// The raw code of a known classification; `Unknown` has none.
pub open spec fn code_of(r: DuneRetCode) -> Option<i64> {
    match r {
        DuneRetCode::NoReason => Some(DUNE_RET_NONE),
        DuneRetCode::Exit => Some(DUNE_RET_EXIT),
        DuneRetCode::Syscall => Some(DUNE_RET_SYSCALL),
        DuneRetCode::Interrupt => Some(DUNE_RET_INTERRUPT),
        DuneRetCode::Signal => Some(DUNE_RET_SIGNAL),
        DuneRetCode::EptViolation => Some(DUNE_RET_EPT_VIOLATION),
        DuneRetCode::NoEnter => Some(DUNE_RET_NOENTER),
        DuneRetCode::UnhandledVmexit => Some(DUNE_RET_UNHANDLED_VMEXIT),
        DuneRetCode::Unknown => None,
    }
}

impl DuneRetCode {
    /// The raw code that the driver uses for this classification; `None` for
    /// `Unknown`, which stands for every code outside `0..=7`.
    pub fn code(&self) -> (r: Option<i64>)
        ensures
            r == code_of(*self),
    {
        match self {
            DuneRetCode::NoReason => Some(DUNE_RET_NONE),
            DuneRetCode::Exit => Some(DUNE_RET_EXIT),
            DuneRetCode::Syscall => Some(DUNE_RET_SYSCALL),
            DuneRetCode::Interrupt => Some(DUNE_RET_INTERRUPT),
            DuneRetCode::Signal => Some(DUNE_RET_SIGNAL),
            DuneRetCode::EptViolation => Some(DUNE_RET_EPT_VIOLATION),
            DuneRetCode::NoEnter => Some(DUNE_RET_NOENTER),
            DuneRetCode::UnhandledVmexit => Some(DUNE_RET_UNHANDLED_VMEXIT),
            DuneRetCode::Unknown => None,
        }
    }

    /// Whether the guest asked to leave; every other classification is an
    /// ejection.
    pub fn is_voluntary_exit(&self) -> (r: bool)
        ensures
            r <==> *self == DuneRetCode::Exit,
    {
        match self {
            DuneRetCode::Exit => true,
            _ => false,
        }
    }

    /// Whether the isolated context must be torn down rather than resumed.
    pub fn is_fatal(&self) -> (r: bool)
        ensures
            r <==> (*self == DuneRetCode::EptViolation || *self == DuneRetCode::UnhandledVmexit
                || *self == DuneRetCode::Unknown),
    {
        match self {
            DuneRetCode::EptViolation => true,
            DuneRetCode::UnhandledVmexit => true,
            DuneRetCode::Unknown => true,
            _ => false,
        }
    }
}

/// Classification is a bijection between the codes `0..=7` and the known
/// classifications, and sends every other code to `Unknown`.
pub proof fn lemma_ret_code_bijection(code: i64, r: DuneRetCode)
    ensures
        0 <= code <= 7 ==> code_of(ret_code_of(code)) == Some(code),
        !(0 <= code <= 7) ==> ret_code_of(code) == DuneRetCode::Unknown,
        r != DuneRetCode::Unknown ==> ret_code_of(code_of(r).unwrap()) == r,
{
}

/// The stack region reserved for the isolated context: one gigabyte.
pub const GPA_STACK_SIZE: u64 = 0x4000_0000;

/// The linear-mapped region: the rest of a 64-gigabyte window.
pub const GPA_MAP_SIZE: u64 = 0x10_0000_0000 - GPA_STACK_SIZE;

/// The memory layout that the driver reports: the physical address ceiling
/// and the bases of the linear-mapped and stack regions.
#[derive(Debug, Clone, Copy, PartialEq, Eq, Structural)]
pub struct DuneLayout {
    phys_limit: u64,
    base_map: u64,
    base_stack: u64,
}

/// Size in bytes of the layout block.
pub const DUNE_LAYOUT_SIZE: usize = 24;

impl DuneLayout {
    /// The physical address ceiling.
    pub closed spec fn spec_phys_limit(self) -> u64 {
        self.phys_limit
    }

    /// The base of the linear-mapped region.
    pub closed spec fn spec_base_map(self) -> u64 {
        self.base_map
    }

    /// The base of the stack region.
    pub closed spec fn spec_base_stack(self) -> u64 {
        self.base_stack
    }

    /// A layout holds a valid physical address and two canonical virtual ones.
    pub open spec fn wf(self) -> bool {
        &&& phys_addr_valid(self.spec_phys_limit())
        &&& virt_addr_canonical(self.spec_base_map())
        &&& virt_addr_canonical(self.spec_base_stack())
    }

    /// A layout from its three addresses; `None` unless the physical address
    /// is valid and both virtual ones are canonical.
    pub fn new(phys_limit: u64, base_map: u64, base_stack: u64) -> (r: Option<DuneLayout>)
        ensures
            r is Some <==> (phys_addr_valid(phys_limit) && virt_addr_canonical(base_map)
                && virt_addr_canonical(base_stack)),
            r matches Some(l) ==> l.wf() && l.spec_phys_limit() == phys_limit
                && l.spec_base_map() == base_map && l.spec_base_stack() == base_stack,
    {
        let p = checked_phys_addr(phys_limit);
        let m = checked_virt_addr(base_map);
        let st = checked_virt_addr(base_stack);
        match (p, m, st) {
            (Some(p), Some(m), Some(st)) => Some(DuneLayout { phys_limit: p, base_map: m, base_stack: st }),
            _ => None,
        }
    }

    /// The layout with every address zero.
    pub fn zero() -> (r: DuneLayout)
        ensures
            r.wf(),
            r.spec_phys_limit() == 0,
            r.spec_base_map() == 0,
            r.spec_base_stack() == 0,
    {
        DuneLayout { phys_limit: 0, base_map: 0, base_stack: 0 }
    }

    /// Reads the layout that the driver wrote: three little-endian words.
    /// `None` unless there are exactly `DUNE_LAYOUT_SIZE` bytes holding valid
    /// addresses.
    pub fn from_bytes(b: &[u8]) -> (r: Option<DuneLayout>)
        ensures
            b@.len() != DUNE_LAYOUT_SIZE ==> r is None,
            b@.len() == DUNE_LAYOUT_SIZE ==> {
                let p = word_at(b@, 0);
                let m = word_at(b@, 8);
                let st = word_at(b@, 16);
                &&& r is Some <==> (phys_addr_valid(p) && virt_addr_canonical(m)
                    && virt_addr_canonical(st))
                &&& r matches Some(l) ==> l.wf() && l.spec_phys_limit() == p
                    && l.spec_base_map() == m && l.spec_base_stack() == st
            },
    {
        if b.len() != DUNE_LAYOUT_SIZE {
            return None;
        }
        let p = read_word(b, 0);
        let m = read_word(b, 8);
        let st = read_word(b, 16);
        DuneLayout::new(p, m, st)
    }

    /// The physical address ceiling.
    pub fn phys_limit(&self) -> (r: u64)
        ensures
            r == self.spec_phys_limit(),
    {
        self.phys_limit
    }

    /// The base of the linear-mapped region.
    pub fn base_map(&self) -> (r: u64)
        ensures
            r == self.spec_base_map(),
    {
        self.base_map
    }

    /// The base of the stack region.
    pub fn base_stack(&self) -> (r: u64)
        ensures
            r == self.spec_base_stack(),
    {
        self.base_stack
    }
}

impl DuneConfig {
    pub fn rax(&self) -> (r: i64)
        ensures
            r == self.rax,
    {
        self.rax
    }

    pub fn set_rax(&mut self, value: i64) -> (r: &mut Self)
        ensures
            *r == (DuneConfig { rax: value, ..*old(self) }),
            *final(self) == *final(r),
    {
        self.rax = value;
        self
    }

    pub fn rdi(&self) -> (r: u64)
        ensures
            r == self.rdi,
    {
        self.rdi
    }

    pub fn set_rdi(&mut self, value: u64) -> (r: &mut Self)
        ensures
            *r == (DuneConfig { rdi: value, ..*old(self) }),
            *final(self) == *final(r),
    {
        self.rdi = value;
        self
    }

    pub fn rsi(&self) -> (r: u64)
        ensures
            r == self.rsi,
    {
        self.rsi
    }

    pub fn set_rsi(&mut self, value: u64) -> (r: &mut Self)
        ensures
            *r == (DuneConfig { rsi: value, ..*old(self) }),
            *final(self) == *final(r),
    {
        self.rsi = value;
        self
    }

    pub fn rdx(&self) -> (r: u64)
        ensures
            r == self.rdx,
    {
        self.rdx
    }

    pub fn set_rdx(&mut self, value: u64) -> (r: &mut Self)
        ensures
            *r == (DuneConfig { rdx: value, ..*old(self) }),
            *final(self) == *final(r),
    {
        self.rdx = value;
        self
    }

    pub fn rcx(&self) -> (r: u64)
        ensures
            r == self.rcx,
    {
        self.rcx
    }

    pub fn set_rcx(&mut self, value: u64) -> (r: &mut Self)
        ensures
            *r == (DuneConfig { rcx: value, ..*old(self) }),
            *final(self) == *final(r),
    {
        self.rcx = value;
        self
    }

    pub fn r8(&self) -> (r: u64)
        ensures
            r == self.r8,
    {
        self.r8
    }

    pub fn set_r8(&mut self, value: u64) -> (r: &mut Self)
        ensures
            *r == (DuneConfig { r8: value, ..*old(self) }),
            *final(self) == *final(r),
    {
        self.r8 = value;
        self
    }

    pub fn r9(&self) -> (r: u64)
        ensures
            r == self.r9,
    {
        self.r9
    }

    pub fn set_r9(&mut self, value: u64) -> (r: &mut Self)
        ensures
            *r == (DuneConfig { r9: value, ..*old(self) }),
            *final(self) == *final(r),
    {
        self.r9 = value;
        self
    }

    pub fn r10(&self) -> (r: u64)
        ensures
            r == self.r10,
    {
        self.r10
    }

    pub fn set_r10(&mut self, value: u64) -> (r: &mut Self)
        ensures
            *r == (DuneConfig { r10: value, ..*old(self) }),
            *final(self) == *final(r),
    {
        self.r10 = value;
        self
    }

    pub fn ret(&self) -> (r: i64)
        ensures
            r == self.ret,
    {
        self.ret
    }

    pub fn set_ret(&mut self, value: i64) -> (r: &mut Self)
        ensures
            *r == (DuneConfig { ret: value, ..*old(self) }),
            *final(self) == *final(r),
    {
        self.ret = value;
        self
    }

    pub fn rip(&self) -> (r: u64)
        ensures
            r == self.rip,
    {
        self.rip
    }

    pub fn set_rip(&mut self, value: u64) -> (r: &mut Self)
        ensures
            *r == (DuneConfig { rip: value, ..*old(self) }),
            *final(self) == *final(r),
    {
        self.rip = value;
        self
    }

    pub fn rsp(&self) -> (r: u64)
        ensures
            r == self.rsp,
    {
        self.rsp
    }

    pub fn set_rsp(&mut self, value: u64) -> (r: &mut Self)
        ensures
            *r == (DuneConfig { rsp: value, ..*old(self) }),
            *final(self) == *final(r),
    {
        self.rsp = value;
        self
    }

    pub fn rflags(&self) -> (r: u64)
        ensures
            r == self.rflags,
    {
        self.rflags
    }

    pub fn set_rflags(&mut self, value: u64) -> (r: &mut Self)
        ensures
            *r == (DuneConfig { rflags: value, ..*old(self) }),
            *final(self) == *final(r),
    {
        self.rflags = value;
        self
    }

    pub fn cr3(&self) -> (r: u64)
        ensures
            r == self.cr3,
    {
        self.cr3
    }

    pub fn set_cr3(&mut self, value: u64) -> (r: &mut Self)
        ensures
            *r == (DuneConfig { cr3: value, ..*old(self) }),
            *final(self) == *final(r),
    {
        self.cr3 = value;
        self
    }

    pub fn status(&self) -> (r: i64)
        ensures
            r == self.status,
    {
        self.status
    }

    pub fn set_status(&mut self, value: i64) -> (r: &mut Self)
        ensures
            *r == (DuneConfig { status: value, ..*old(self) }),
            *final(self) == *final(r),
    {
        self.status = value;
        self
    }

    pub fn vcpu(&self) -> (r: u64)
        ensures
            r == self.vcpu,
    {
        self.vcpu
    }

    pub fn set_vcpu(&mut self, value: u64) -> (r: &mut Self)
        ensures
            *r == (DuneConfig { vcpu: value, ..*old(self) }),
            *final(self) == *final(r),
    {
        self.vcpu = value;
        self
    }
}

impl DuneLayout {
    pub fn set_phys_limit(&mut self, value: u64) -> (r: &mut Self)
        requires
            old(self).wf(),
            phys_addr_valid(value),
        ensures
            r.wf(),
            r.spec_phys_limit() == value,
            r.spec_base_map() == old(self).spec_base_map(),
            r.spec_base_stack() == old(self).spec_base_stack(),
            *final(self) == *final(r),
    {
        self.phys_limit = value;
        self
    }

    pub fn set_base_map(&mut self, value: u64) -> (r: &mut Self)
        requires
            old(self).wf(),
            virt_addr_canonical(value),
        ensures
            r.wf(),
            r.spec_base_map() == value,
            r.spec_phys_limit() == old(self).spec_phys_limit(),
            r.spec_base_stack() == old(self).spec_base_stack(),
            *final(self) == *final(r),
    {
        self.base_map = value;
        self
    }

    pub fn set_base_stack(&mut self, value: u64) -> (r: &mut Self)
        requires
            old(self).wf(),
            virt_addr_canonical(value),
        ensures
            r.wf(),
            r.spec_base_stack() == value,
            r.spec_phys_limit() == old(self).spec_phys_limit(),
            r.spec_base_map() == old(self).spec_base_map(),
            *final(self) == *final(r),
    {
        self.base_stack = value;
        self
    }
}

impl Default for DuneConfig {
    fn default() -> (r: Self)
        ensures
            r == DuneConfig::zeroed(),
    {
        DuneConfig::new()
    }
}

impl Default for DuneLayout {
    fn default() -> (r: Self)
        ensures
            r.wf() && r.spec_phys_limit() == 0 && r.spec_base_map() == 0 && r.spec_base_stack() == 0,
    {
        DuneLayout::zero()
    }
}

} // verus!
