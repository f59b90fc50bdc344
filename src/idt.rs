//! One entry of the interrupt descriptor table.
use vstd::prelude::*;

verus! {

/// An interrupt gate: the handler address split over `low`, `middle` and
/// `high`, the code selector, the interrupt stack index and the type and
/// privilege byte. Sixteen packed bytes.
#[derive(Debug, Clone, Copy, PartialEq, Eq, Structural)]
pub struct IdtDescriptor {
    pub low: u16,
    pub selector: u16,
    pub ist: u8,
    pub type_attr: u8,
    pub middle: u16,
    pub high: u32,
    pub zero: u32,
}

/// Number of entries in an interrupt descriptor table.
pub const IDT_ENTRIES: usize = 256;

/// Size in bytes of one descriptor.
pub const IDT_DESCRIPTOR_SIZE: usize = 16;

impl IdtDescriptor {
    /// The descriptor with every field zero.
    pub open spec fn zeroed() -> IdtDescriptor {
        IdtDescriptor { low: 0, selector: 0, ist: 0, type_attr: 0, middle: 0, high: 0, zero: 0 }
    }

    /// The handler address that the descriptor points at.
    pub open spec fn handler(self) -> u64 {
        (self.low as u64) | ((self.middle as u64) << 16u64) | ((self.high as u64) << 32u64)
    }

    /// The sixteen bytes of the descriptor, each field little-endian.
    pub open spec fn layout(self) -> Seq<u8> {
        seq![
            self.low as u8,
            (self.low >> 8u16) as u8,
            self.selector as u8,
            (self.selector >> 8u16) as u8,
            self.ist,
            self.type_attr,
            self.middle as u8,
            (self.middle >> 8u16) as u8,
            self.high as u8,
            (self.high >> 8u32) as u8,
            (self.high >> 16u32) as u8,
            (self.high >> 24u32) as u8,
            self.zero as u8,
            (self.zero >> 8u32) as u8,
            (self.zero >> 16u32) as u8,
            (self.zero >> 24u32) as u8,
        ]
    }

    /// An empty descriptor.
    pub fn new() -> (r: IdtDescriptor)
        ensures
            r == IdtDescriptor::zeroed(),
    {
        IdtDescriptor { low: 0, selector: 0, ist: 0, type_attr: 0, middle: 0, high: 0, zero: 0 }
    }

    /// Empties the descriptor.
    pub fn clear(&mut self) -> (r: &mut Self)
        ensures
            *r == IdtDescriptor::zeroed(),
            *final(self) == *final(r),
    {
        self.low = 0;
        self.selector = 0;
        self.ist = 0;
        self.type_attr = 0;
        self.middle = 0;
        self.high = 0;
        self.zero = 0;
        self
    }

    /// Points the descriptor at the handler at `addr`, leaving the other
    /// fields as they are.
    pub fn set_idt_addr(&mut self, addr: usize) -> (r: &mut Self)
        ensures
            r.handler() == addr as u64,
            r.low == (addr as u64 & 0xffff) as u16,
            r.middle == ((addr as u64 >> 16u64) & 0xffff) as u16,
            r.high == ((addr as u64 >> 32u64) & 0xffff_ffff) as u32,
            r.selector == old(self).selector,
            r.ist == old(self).ist,
            r.type_attr == old(self).type_attr,
            r.zero == old(self).zero,
            *final(self) == *final(r),
    {
        let a = addr as u64;
        self.low = (a & 0xFFFF) as u16;
        self.middle = ((a >> 16) & 0xFFFF) as u16;
        self.high = ((a >> 32) & 0xFFFF_FFFF) as u32;
        assert(((a & 0xFFFF) as u16 as u64) | ((((a >> 16u64) & 0xFFFF) as u16 as u64) << 16u64)
            | ((((a >> 32u64) & 0xFFFF_FFFF) as u32 as u64) << 32u64) == a) by (bit_vector);
        self
    }

    /// The sixteen bytes of the descriptor as the processor reads them.
    pub fn to_bytes(&self) -> (r: Vec<u8>)
        ensures
            r@ == self.layout(),
            r@.len() == IDT_DESCRIPTOR_SIZE,
    {
        let mut v: Vec<u8> = Vec::new();
        v.push(self.low as u8);
        v.push((self.low >> 8) as u8);
        v.push(self.selector as u8);
        v.push((self.selector >> 8) as u8);
        v.push(self.ist);
        v.push(self.type_attr);
        v.push(self.middle as u8);
        v.push((self.middle >> 8) as u8);
        v.push(self.high as u8);
        v.push((self.high >> 8) as u8);
        v.push((self.high >> 16) as u8);
        v.push((self.high >> 24) as u8);
        v.push(self.zero as u8);
        v.push((self.zero >> 8) as u8);
        v.push((self.zero >> 16) as u8);
        v.push((self.zero >> 24) as u8);
        assert(v@ =~= self.layout());
        v
    }
}

impl IdtDescriptor {
    pub fn low(&self) -> (r: u16)
        ensures
            r == self.low,
    {
        self.low
    }

    pub fn set_low(&mut self, value: u16) -> (r: &mut Self)
        ensures
            *r == (IdtDescriptor { low: value, ..*old(self) }),
            *final(self) == *final(r),
    {
        self.low = value;
        self
    }

    pub fn selector(&self) -> (r: u16)
        ensures
            r == self.selector,
    {
        self.selector
    }

    pub fn set_selector(&mut self, value: u16) -> (r: &mut Self)
        ensures
            *r == (IdtDescriptor { selector: value, ..*old(self) }),
            *final(self) == *final(r),
    {
        self.selector = value;
        self
    }

    pub fn ist(&self) -> (r: u8)
        ensures
            r == self.ist,
    {
        self.ist
    }

    pub fn set_ist(&mut self, value: u8) -> (r: &mut Self)
        ensures
            *r == (IdtDescriptor { ist: value, ..*old(self) }),
            *final(self) == *final(r),
    {
        self.ist = value;
        self
    }

    pub fn type_attr(&self) -> (r: u8)
        ensures
            r == self.type_attr,
    {
        self.type_attr
    }

    pub fn set_type_attr(&mut self, value: u8) -> (r: &mut Self)
        ensures
            *r == (IdtDescriptor { type_attr: value, ..*old(self) }),
            *final(self) == *final(r),
    {
        self.type_attr = value;
        self
    }

    pub fn middle(&self) -> (r: u16)
        ensures
            r == self.middle,
    {
        self.middle
    }

    pub fn set_middle(&mut self, value: u16) -> (r: &mut Self)
        ensures
            *r == (IdtDescriptor { middle: value, ..*old(self) }),
            *final(self) == *final(r),
    {
        self.middle = value;
        self
    }

    pub fn high(&self) -> (r: u32)
        ensures
            r == self.high,
    {
        self.high
    }

    pub fn set_high(&mut self, value: u32) -> (r: &mut Self)
        ensures
            *r == (IdtDescriptor { high: value, ..*old(self) }),
            *final(self) == *final(r),
    {
        self.high = value;
        self
    }

    pub fn zero(&self) -> (r: u32)
        ensures
            r == self.zero,
    {
        self.zero
    }

    pub fn set_zero(&mut self, value: u32) -> (r: &mut Self)
        ensures
            *r == (IdtDescriptor { zero: value, ..*old(self) }),
            *final(self) == *final(r),
    {
        self.zero = value;
        self
    }
}

impl Default for IdtDescriptor {
    fn default() -> (r: Self)
        ensures
            r == IdtDescriptor::zeroed(),
    {
        IdtDescriptor::new()
    }
}

} // verus!
