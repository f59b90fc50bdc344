//! Parameter blocks of the page-table backend: segment and vCPU state, page
//! requests, page-table arguments, its memory layout and its SEIMI regions.
use vstd::prelude::*;
use crate::addr::checked_phys_addr;
use crate::addr::checked_virt_addr;
use crate::addr::phys_addr_valid;
use crate::addr::virt_addr_canonical;
use crate::wire::bytes_to_words;
use crate::wire::decode_words;
use crate::wire::encode_words;
use crate::wire::lemma_words_round_trip;
use crate::wire::read_word;
use crate::wire::word_at;
use crate::wire::words_to_bytes;

verus! {

/// A segment register as the backend loads it.
#[derive(Debug, Clone, Copy, PartialEq, Eq, Structural)]
pub struct VmsaSeg {
    pub selector: u16,
    pub attrib: u16,
    pub limit: u32,
    pub base: u64,
}

impl VmsaSeg {
    /// The segment with every field zero.
    pub open spec fn zeroed() -> VmsaSeg {
        VmsaSeg { selector: 0, attrib: 0, limit: 0, base: 0 }
    }

    /// A segment with every field zero.
    pub fn new() -> (r: VmsaSeg)
        ensures
            r == VmsaSeg::zeroed(),
    {
        VmsaSeg { selector: 0, attrib: 0, limit: 0, base: 0 }
    }
}

/// The state of a new vCPU: its `fs`, `gs`, descriptor-table and task
/// registers, and the system-call entry point.
#[derive(Debug, Clone, Copy, PartialEq, Eq, Structural)]
pub struct VcpuConfig {
    pub fs: VmsaSeg,
    pub gs: VmsaSeg,
    pub gdtr: VmsaSeg,
    pub idtr: VmsaSeg,
    pub tr: VmsaSeg,
    pub lstar: u64,
}

impl VcpuConfig {
    /// A configuration with every field zero.
    pub fn new() -> (r: VcpuConfig)
        ensures
            r == (VcpuConfig {
                fs: VmsaSeg::zeroed(),
                gs: VmsaSeg::zeroed(),
                gdtr: VmsaSeg::zeroed(),
                idtr: VmsaSeg::zeroed(),
                tr: VmsaSeg::zeroed(),
                lstar: 0,
            }),
    {
        VcpuConfig {
            fs: VmsaSeg::new(),
            gs: VmsaSeg::new(),
            gdtr: VmsaSeg::new(),
            idtr: VmsaSeg::new(),
            tr: VmsaSeg::new(),
            lstar: 0,
        }
    }
}

/// A request for pages: how many, and where the backend mapped them.
#[derive(Debug, Clone, Copy, PartialEq, Eq, Structural)]
pub struct GetPages {
    pub num_pages: u64,
    pub mapping: u64,
    pub phys: u64,
}

impl GetPages {
    /// An empty request.
    pub fn new() -> (r: GetPages)
        ensures
            r == (GetPages { num_pages: 0, mapping: 0, phys: 0 }),
    {
        GetPages { num_pages: 0, mapping: 0, phys: 0 }
    }
}

/// Arguments of a page-table update: the first guest virtual address, the
/// page size, the attributes and the number of pages.
#[derive(Debug, Clone, Copy, PartialEq, Eq, Structural)]
pub struct VmplArgs {
    pub gva: u64,
    pub page_size: u32,
    pub attrs: u32,
    pub nr_pages: u32,
}

/// The memory layout of the page-table backend: its physical range and the
/// virtual range it maps.
#[derive(Debug, Clone, Copy, PartialEq, Eq, Structural)]
pub struct VmplLayout {
    phys_base: u64,
    phys_end: u64,
    mmap_base: u64,
    mmap_end: u64,
}

/// Size in bytes of the layout block.
pub const VMPL_LAYOUT_SIZE: usize = 32;

impl VmplLayout {
    pub closed spec fn spec_phys_base(self) -> u64 {
        self.phys_base
    }

    pub closed spec fn spec_phys_end(self) -> u64 {
        self.phys_end
    }

    pub closed spec fn spec_mmap_base(self) -> u64 {
        self.mmap_base
    }

    pub closed spec fn spec_mmap_end(self) -> u64 {
        self.mmap_end
    }

    /// Both physical addresses are valid and both virtual ones canonical.
    pub open spec fn wf(self) -> bool {
        &&& phys_addr_valid(self.spec_phys_base())
        &&& phys_addr_valid(self.spec_phys_end())
        &&& virt_addr_canonical(self.spec_mmap_base())
        &&& virt_addr_canonical(self.spec_mmap_end())
    }

    /// The layout with every address zero.
    pub fn new() -> (r: VmplLayout)
        ensures
            r.wf(),
            r.spec_phys_base() == 0 && r.spec_phys_end() == 0 && r.spec_mmap_base() == 0
                && r.spec_mmap_end() == 0,
    {
        VmplLayout { phys_base: 0, phys_end: 0, mmap_base: 0, mmap_end: 0 }
    }

    /// Reads the layout that the backend wrote: four little-endian words.
    /// `None` unless there are exactly `VMPL_LAYOUT_SIZE` bytes holding valid
    /// addresses.
    pub fn from_bytes(b: &[u8]) -> (r: Option<VmplLayout>)
        ensures
            b@.len() != VMPL_LAYOUT_SIZE ==> r is None,
            b@.len() == VMPL_LAYOUT_SIZE ==> {
                let pb = word_at(b@, 0);
                let pe = word_at(b@, 8);
                let mb = word_at(b@, 16);
                let me = word_at(b@, 24);
                &&& r is Some <==> (phys_addr_valid(pb) && phys_addr_valid(pe)
                    && virt_addr_canonical(mb) && virt_addr_canonical(me))
                &&& r matches Some(l) ==> l.wf() && l.spec_phys_base() == pb
                    && l.spec_phys_end() == pe && l.spec_mmap_base() == mb && l.spec_mmap_end()
                    == me
            },
    {
        if b.len() != VMPL_LAYOUT_SIZE {
            return None;
        }
        let pb = checked_phys_addr(read_word(b, 0));
        let pe = checked_phys_addr(read_word(b, 8));
        let mb = checked_virt_addr(read_word(b, 16));
        let me = checked_virt_addr(read_word(b, 24));
        match (pb, pe, mb, me) {
            (Some(pb), Some(pe), Some(mb), Some(me)) => Some(
                VmplLayout { phys_base: pb, phys_end: pe, mmap_base: mb, mmap_end: me },
            ),
            _ => None,
        }
    }

    pub fn phys_base(&self) -> (r: u64)
        ensures
            r == self.spec_phys_base(),
    {
        self.phys_base
    }

    pub fn phys_end(&self) -> (r: u64)
        ensures
            r == self.spec_phys_end(),
    {
        self.phys_end
    }

    pub fn mmap_base(&self) -> (r: u64)
        ensures
            r == self.spec_mmap_base(),
    {
        self.mmap_base
    }

    pub fn mmap_end(&self) -> (r: u64)
        ensures
            r == self.spec_mmap_end(),
    {
        self.mmap_end
    }
}

/// Top-level page-table slot of the user SEIMI region.
pub const SEIMI_PGD_USER: u64 = 253;

/// Top-level page-table slot of the supervisor SEIMI region.
pub const SEIMI_PGD_SUPER: u64 = 252;

/// Base address of the user SEIMI region: its slot times 2^39.
pub const SEIMI_MMAP_BASE_USER: u64 = SEIMI_PGD_USER * 0x80_0000_0000;

/// Base address of the supervisor SEIMI region: its slot times 2^39.
pub const SEIMI_MMAP_BASE_SUPER: u64 = SEIMI_PGD_SUPER * 0x80_0000_0000;

/// Start of the window where page tables are mapped.
pub const PGTABLE_MMAP_BASE: u64 = 0x2_0000_0000;

/// Size of the window where page tables are mapped.
pub const PGTABLE_MMAP_SIZE: u64 = 0x4_8000_0000;

/// End of the window where page tables are mapped.
pub const PGTABLE_MMAP_END: u64 = PGTABLE_MMAP_BASE + PGTABLE_MMAP_SIZE;

/// The top-level page-table slots of the user and supervisor SEIMI regions.
#[derive(Debug, Clone, Copy, PartialEq, Eq, Structural)]
pub struct VmplSeimi {
    pub pgd_user: u64,
    pub pgd_super: u64,
}

impl VmplSeimi {
    /// The regions at the given slots.
    pub fn new(pgd_user: u64, pgd_super: u64) -> (r: VmplSeimi)
        ensures
            r == (VmplSeimi { pgd_user, pgd_super }),
    {
        VmplSeimi { pgd_user, pgd_super }
    }
}

impl VmsaSeg {
    pub fn selector(&self) -> (r: u16)
        ensures
            r == self.selector,
    {
        self.selector
    }

    pub fn set_selector(&mut self, value: u16) -> (r: &mut Self)
        ensures
            *r == (VmsaSeg { selector: value, ..*old(self) }),
            *final(self) == *final(r),
    {
        self.selector = value;
        self
    }

    pub fn attrib(&self) -> (r: u16)
        ensures
            r == self.attrib,
    {
        self.attrib
    }

    pub fn set_attrib(&mut self, value: u16) -> (r: &mut Self)
        ensures
            *r == (VmsaSeg { attrib: value, ..*old(self) }),
            *final(self) == *final(r),
    {
        self.attrib = value;
        self
    }

    pub fn limit(&self) -> (r: u32)
        ensures
            r == self.limit,
    {
        self.limit
    }

    pub fn set_limit(&mut self, value: u32) -> (r: &mut Self)
        ensures
            *r == (VmsaSeg { limit: value, ..*old(self) }),
            *final(self) == *final(r),
    {
        self.limit = value;
        self
    }

    pub fn base(&self) -> (r: u64)
        ensures
            r == self.base,
    {
        self.base
    }

    pub fn set_base(&mut self, value: u64) -> (r: &mut Self)
        ensures
            *r == (VmsaSeg { base: value, ..*old(self) }),
            *final(self) == *final(r),
    {
        self.base = value;
        self
    }
}

impl VcpuConfig {
    pub fn fs(&self) -> (r: VmsaSeg)
        ensures
            r == self.fs,
    {
        self.fs
    }

    pub fn set_fs(&mut self, value: VmsaSeg) -> (r: &mut Self)
        ensures
            *r == (VcpuConfig { fs: value, ..*old(self) }),
            *final(self) == *final(r),
    {
        self.fs = value;
        self
    }

    pub fn gs(&self) -> (r: VmsaSeg)
        ensures
            r == self.gs,
    {
        self.gs
    }

    pub fn set_gs(&mut self, value: VmsaSeg) -> (r: &mut Self)
        ensures
            *r == (VcpuConfig { gs: value, ..*old(self) }),
            *final(self) == *final(r),
    {
        self.gs = value;
        self
    }

    pub fn gdtr(&self) -> (r: VmsaSeg)
        ensures
            r == self.gdtr,
    {
        self.gdtr
    }

    pub fn set_gdtr(&mut self, value: VmsaSeg) -> (r: &mut Self)
        ensures
            *r == (VcpuConfig { gdtr: value, ..*old(self) }),
            *final(self) == *final(r),
    {
        self.gdtr = value;
        self
    }

    pub fn idtr(&self) -> (r: VmsaSeg)
        ensures
            r == self.idtr,
    {
        self.idtr
    }

    pub fn set_idtr(&mut self, value: VmsaSeg) -> (r: &mut Self)
        ensures
            *r == (VcpuConfig { idtr: value, ..*old(self) }),
            *final(self) == *final(r),
    {
        self.idtr = value;
        self
    }

    pub fn tr(&self) -> (r: VmsaSeg)
        ensures
            r == self.tr,
    {
        self.tr
    }

    pub fn set_tr(&mut self, value: VmsaSeg) -> (r: &mut Self)
        ensures
            *r == (VcpuConfig { tr: value, ..*old(self) }),
            *final(self) == *final(r),
    {
        self.tr = value;
        self
    }

    pub fn lstar(&self) -> (r: u64)
        ensures
            r == self.lstar,
    {
        self.lstar
    }

    pub fn set_lstar(&mut self, value: u64) -> (r: &mut Self)
        ensures
            *r == (VcpuConfig { lstar: value, ..*old(self) }),
            *final(self) == *final(r),
    {
        self.lstar = value;
        self
    }
}

impl GetPages {
    pub fn num_pages(&self) -> (r: u64)
        ensures
            r == self.num_pages,
    {
        self.num_pages
    }

    pub fn set_num_pages(&mut self, value: u64) -> (r: &mut Self)
        ensures
            *r == (GetPages { num_pages: value, ..*old(self) }),
            *final(self) == *final(r),
    {
        self.num_pages = value;
        self
    }

    pub fn mapping(&self) -> (r: u64)
        ensures
            r == self.mapping,
    {
        self.mapping
    }

    pub fn set_mapping(&mut self, value: u64) -> (r: &mut Self)
        ensures
            *r == (GetPages { mapping: value, ..*old(self) }),
            *final(self) == *final(r),
    {
        self.mapping = value;
        self
    }

    pub fn phys(&self) -> (r: u64)
        ensures
            r == self.phys,
    {
        self.phys
    }

    pub fn set_phys(&mut self, value: u64) -> (r: &mut Self)
        ensures
            *r == (GetPages { phys: value, ..*old(self) }),
            *final(self) == *final(r),
    {
        self.phys = value;
        self
    }
}

impl VmplSeimi {
    pub fn pgd_user(&self) -> (r: u64)
        ensures
            r == self.pgd_user,
    {
        self.pgd_user
    }

    pub fn set_pgd_user(&mut self, value: u64) -> (r: &mut Self)
        ensures
            *r == (VmplSeimi { pgd_user: value, ..*old(self) }),
            *final(self) == *final(r),
    {
        self.pgd_user = value;
        self
    }

    pub fn pgd_super(&self) -> (r: u64)
        ensures
            r == self.pgd_super,
    {
        self.pgd_super
    }

    pub fn set_pgd_super(&mut self, value: u64) -> (r: &mut Self)
        ensures
            *r == (VmplSeimi { pgd_super: value, ..*old(self) }),
            *final(self) == *final(r),
    {
        self.pgd_super = value;
        self
    }
}

impl VmplLayout {
    pub fn set_phys_base(&mut self, value: u64) -> (r: &mut Self)
        requires
            old(self).wf(),
            phys_addr_valid(value),
        ensures
            r.wf(),
            r.spec_phys_base() == value,
            r.spec_phys_end() == old(self).spec_phys_end(),
            r.spec_mmap_base() == old(self).spec_mmap_base(),
            r.spec_mmap_end() == old(self).spec_mmap_end(),
            *final(self) == *final(r),
    {
        self.phys_base = value;
        self
    }

    pub fn set_phys_end(&mut self, value: u64) -> (r: &mut Self)
        requires
            old(self).wf(),
            phys_addr_valid(value),
        ensures
            r.wf(),
            r.spec_phys_end() == value,
            r.spec_phys_base() == old(self).spec_phys_base(),
            r.spec_mmap_base() == old(self).spec_mmap_base(),
            r.spec_mmap_end() == old(self).spec_mmap_end(),
            *final(self) == *final(r),
    {
        self.phys_end = value;
        self
    }

    pub fn set_mmap_base(&mut self, value: u64) -> (r: &mut Self)
        requires
            old(self).wf(),
            virt_addr_canonical(value),
        ensures
            r.wf(),
            r.spec_mmap_base() == value,
            r.spec_phys_base() == old(self).spec_phys_base(),
            r.spec_phys_end() == old(self).spec_phys_end(),
            r.spec_mmap_end() == old(self).spec_mmap_end(),
            *final(self) == *final(r),
    {
        self.mmap_base = value;
        self
    }

    pub fn set_mmap_end(&mut self, value: u64) -> (r: &mut Self)
        requires
            old(self).wf(),
            virt_addr_canonical(value),
        ensures
            r.wf(),
            r.spec_mmap_end() == value,
            r.spec_phys_base() == old(self).spec_phys_base(),
            r.spec_phys_end() == old(self).spec_phys_end(),
            r.spec_mmap_base() == old(self).spec_mmap_base(),
            *final(self) == *final(r),
    {
        self.mmap_end = value;
        self
    }
}

impl Default for VmsaSeg {
    fn default() -> (r: Self)
        ensures
            r == VmsaSeg::zeroed(),
    {
        VmsaSeg::new()
    }
}

impl Default for GetPages {
    fn default() -> (r: Self)
        ensures
            r == (GetPages { num_pages: 0, mapping: 0, phys: 0 }),
    {
        GetPages::new()
    }
}

impl Default for VmplSeimi {
    fn default() -> (r: Self)
        ensures
            r == (VmplSeimi { pgd_user: 0, pgd_super: 0 }),
    {
        VmplSeimi::new(0, 0)
    }
}

/// Size in bytes of a segment block.
pub const VMSA_SEG_SIZE: usize = 16;

/// Size in bytes of a vCPU configuration block.
pub const VCPU_CONFIG_SIZE: usize = 88;

/// Size in bytes of a page request block.
pub const GET_PAGES_SIZE: usize = 24;

/// Size in bytes of a SEIMI block.
pub const VMPL_SEIMI_SIZE: usize = 16;

/// Size in bytes of a page-table argument block.
pub const VMPL_ARGS_SIZE: usize = 20;

/// The first word of a packed segment: `selector`, `attrib` and `limit` side
/// by side from the low end.
pub open spec fn seg_head(selector: u16, attrib: u16, limit: u32) -> u64 {
    (selector as u64) | ((attrib as u64) << 16u64) | ((limit as u64) << 32u64)
}

proof fn lemma_seg_head(selector: u16, attrib: u16, limit: u32)
    by (bit_vector)
    ensures
        seg_head(selector, attrib, limit) as u16 == selector,
        (seg_head(selector, attrib, limit) >> 16u64) as u16 == attrib,
        (seg_head(selector, attrib, limit) >> 32u64) as u32 == limit,
{
}

impl VmsaSeg {
    /// The segment as two words: the packed head, then the base.
    pub open spec fn words(self) -> Seq<u64> {
        seq![seg_head(self.selector, self.attrib, self.limit), self.base]
    }

    /// The segment whose two words are `head` and `base`.
    pub open spec fn from_words(head: u64, base: u64) -> VmsaSeg {
        VmsaSeg {
            selector: head as u16,
            attrib: (head >> 16u64) as u16,
            limit: (head >> 32u64) as u32,
            base,
        }
    }

    fn head(&self) -> (r: u64)
        ensures
            r == seg_head(self.selector, self.attrib, self.limit),
    {
        (self.selector as u64) | ((self.attrib as u64) << 16) | ((self.limit as u64) << 32)
    }

    fn from_head(head: u64, base: u64) -> (r: VmsaSeg)
        ensures
            r == VmsaSeg::from_words(head, base),
    {
        VmsaSeg { selector: head as u16, attrib: (head >> 16) as u16, limit: (head >> 32) as u32, base }
    }
}

/// A segment read back from its two words is the segment.
pub proof fn lemma_seg_words(s: VmsaSeg)
    ensures
        VmsaSeg::from_words(s.words()[0], s.words()[1]) == s,
{
    lemma_seg_head(s.selector, s.attrib, s.limit);
}

impl VcpuConfig {
    /// The configuration in layout order: each segment's two words, then
    /// `lstar`.
    pub open spec fn words(self) -> Seq<u64> {
        self.fs.words() + self.gs.words() + self.gdtr.words() + self.idtr.words() + self.tr.words()
            + seq![self.lstar]
    }

    /// The configuration whose words, in layout order, are `ws`.
    pub open spec fn from_words(ws: Seq<u64>) -> VcpuConfig {
        VcpuConfig {
            fs: VmsaSeg::from_words(ws[0], ws[1]),
            gs: VmsaSeg::from_words(ws[2], ws[3]),
            gdtr: VmsaSeg::from_words(ws[4], ws[5]),
            idtr: VmsaSeg::from_words(ws[6], ws[7]),
            tr: VmsaSeg::from_words(ws[8], ws[9]),
            lstar: ws[10],
        }
    }

    /// The packed bytes of the configuration.
    pub open spec fn layout(self) -> Seq<u8> {
        words_to_bytes(self.words())
    }

    /// The configuration that the bytes `b` describe.
    pub open spec fn parse(b: Seq<u8>) -> VcpuConfig {
        VcpuConfig::from_words(bytes_to_words(b))
    }

    /// Serialises the configuration into its packed bytes.
    pub fn to_bytes(&self) -> (r: Vec<u8>)
        ensures
            r@ == self.layout(),
            r@.len() == VCPU_CONFIG_SIZE,
    {
        let mut v: Vec<u64> = Vec::new();
        v.push(self.fs.head());
        v.push(self.fs.base);
        v.push(self.gs.head());
        v.push(self.gs.base);
        v.push(self.gdtr.head());
        v.push(self.gdtr.base);
        v.push(self.idtr.head());
        v.push(self.idtr.base);
        v.push(self.tr.head());
        v.push(self.tr.base);
        v.push(self.lstar);
        assert(v@ =~= self.words());
        encode_words(v.as_slice())
    }

    /// Reads a configuration from its packed bytes; `None` unless there are
    /// exactly `VCPU_CONFIG_SIZE` of them.
    pub fn from_bytes(b: &[u8]) -> (r: Option<VcpuConfig>)
        ensures
            r == (if b@.len() == VCPU_CONFIG_SIZE {
                Some(VcpuConfig::parse(b@))
            } else {
                None
            }),
    {
        if b.len() != VCPU_CONFIG_SIZE {
            return None;
        }
        let ws = decode_words(b);
        Some(
            VcpuConfig {
                fs: VmsaSeg::from_head(ws[0], ws[1]),
                gs: VmsaSeg::from_head(ws[2], ws[3]),
                gdtr: VmsaSeg::from_head(ws[4], ws[5]),
                idtr: VmsaSeg::from_head(ws[6], ws[7]),
                tr: VmsaSeg::from_head(ws[8], ws[9]),
                lstar: ws[10],
            },
        )
    }
}

/// Parsing the bytes of a vCPU configuration gives the same configuration
/// back.
pub proof fn lemma_vcpu_config_round_trip(c: VcpuConfig)
    ensures
        VcpuConfig::parse(c.layout()) == c,
        c.layout().len() == VCPU_CONFIG_SIZE,
{
    lemma_words_round_trip(c.words());
    lemma_seg_words(c.fs);
    lemma_seg_words(c.gs);
    lemma_seg_words(c.gdtr);
    lemma_seg_words(c.idtr);
    lemma_seg_words(c.tr);
}

impl GetPages {
    /// The request in layout order.
    pub open spec fn words(self) -> Seq<u64> {
        seq![self.num_pages, self.mapping, self.phys]
    }

    /// The packed bytes of the request.
    pub open spec fn layout(self) -> Seq<u8> {
        words_to_bytes(self.words())
    }

    /// The request that the bytes `b` describe.
    pub open spec fn parse(b: Seq<u8>) -> GetPages {
        let ws = bytes_to_words(b);
        GetPages { num_pages: ws[0], mapping: ws[1], phys: ws[2] }
    }

    /// Serialises the request into its packed bytes.
    pub fn to_bytes(&self) -> (r: Vec<u8>)
        ensures
            r@ == self.layout(),
            r@.len() == GET_PAGES_SIZE,
    {
        let mut v: Vec<u64> = Vec::new();
        v.push(self.num_pages);
        v.push(self.mapping);
        v.push(self.phys);
        assert(v@ =~= self.words());
        encode_words(v.as_slice())
    }

    /// Reads a request, as the backend filled it in; `None` unless there are
    /// exactly `GET_PAGES_SIZE` bytes.
    pub fn from_bytes(b: &[u8]) -> (r: Option<GetPages>)
        ensures
            r == (if b@.len() == GET_PAGES_SIZE {
                Some(GetPages::parse(b@))
            } else {
                None
            }),
    {
        if b.len() != GET_PAGES_SIZE {
            return None;
        }
        let ws = decode_words(b);
        Some(GetPages { num_pages: ws[0], mapping: ws[1], phys: ws[2] })
    }
}

/// Parsing the bytes of a page request gives the same request back.
pub proof fn lemma_get_pages_round_trip(g: GetPages)
    ensures
        GetPages::parse(g.layout()) == g,
{
    lemma_words_round_trip(g.words());
}

impl VmplSeimi {
    /// The block in layout order.
    pub open spec fn words(self) -> Seq<u64> {
        seq![self.pgd_user, self.pgd_super]
    }

    /// The packed bytes of the block.
    pub open spec fn layout(self) -> Seq<u8> {
        words_to_bytes(self.words())
    }

    /// The block that the bytes `b` describe.
    pub open spec fn parse(b: Seq<u8>) -> VmplSeimi {
        let ws = bytes_to_words(b);
        VmplSeimi { pgd_user: ws[0], pgd_super: ws[1] }
    }

    /// Serialises the block into its packed bytes.
    pub fn to_bytes(&self) -> (r: Vec<u8>)
        ensures
            r@ == self.layout(),
            r@.len() == VMPL_SEIMI_SIZE,
    {
        let mut v: Vec<u64> = Vec::new();
        v.push(self.pgd_user);
        v.push(self.pgd_super);
        assert(v@ =~= self.words());
        encode_words(v.as_slice())
    }

    /// Reads the block back; `None` unless there are exactly
    /// `VMPL_SEIMI_SIZE` bytes.
    pub fn from_bytes(b: &[u8]) -> (r: Option<VmplSeimi>)
        ensures
            r == (if b@.len() == VMPL_SEIMI_SIZE {
                Some(VmplSeimi::parse(b@))
            } else {
                None
            }),
    {
        if b.len() != VMPL_SEIMI_SIZE {
            return None;
        }
        let ws = decode_words(b);
        Some(VmplSeimi { pgd_user: ws[0], pgd_super: ws[1] })
    }
}

/// Parsing the bytes of a SEIMI block gives the same block back.
pub proof fn lemma_seimi_round_trip(s: VmplSeimi)
    ensures
        VmplSeimi::parse(s.layout()) == s,
{
    lemma_words_round_trip(s.words());
}

impl VmplArgs {
    /// The block as three words: `gva`, then `page_size` and `attrs` side by
    /// side, then `nr_pages`; only the first four bytes of the last word are
    /// sent.
    pub open spec fn words(self) -> Seq<u64> {
        seq![self.gva, (self.page_size as u64) | ((self.attrs as u64) << 32u64), self.nr_pages as u64]
    }

    /// The twenty packed bytes of the block.
    pub open spec fn layout(self) -> Seq<u8> {
        words_to_bytes(self.words()).take(VMPL_ARGS_SIZE as int)
    }

    /// Serialises the block into its twenty packed bytes.
    pub fn to_bytes(&self) -> (r: Vec<u8>)
        ensures
            r@ == self.layout(),
            r@.len() == VMPL_ARGS_SIZE,
    {
        let mut v: Vec<u64> = Vec::new();
        v.push(self.gva);
        v.push((self.page_size as u64) | ((self.attrs as u64) << 32));
        v.push(self.nr_pages as u64);
        assert(v@ =~= self.words());
        let mut b = encode_words(v.as_slice());
        b.truncate(VMPL_ARGS_SIZE);
        b
    }
}

} // verus!
