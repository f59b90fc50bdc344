//! The trap-time register snapshot, the trap configuration handed to the
//! driver, and the bookkeeping of an armed trap.
use vstd::prelude::*;
use crate::addr::checked_virt_addr;
use crate::addr::virt_addr_canonical;
use crate::result::Error;
use crate::wire::bytes_to_words;
use crate::wire::decode_words;
use crate::wire::encode_words;
use crate::wire::lemma_words_round_trip;
use crate::wire::words_to_bytes;

verus! {

/// The registers saved when a trap fires: the sixteen general registers,
/// `rip` and `rflags`, packed as 18 little-endian words.
#[derive(Debug, Clone, Copy, PartialEq, Eq, Structural)]
pub struct DuneTrapRegs {
    pub rax: u64,
    pub rbx: u64,
    pub rcx: u64,
    pub rdx: u64,
    pub rsi: u64,
    pub rdi: u64,
    pub rsp: u64,
    pub rbp: u64,
    pub r8: u64,
    pub r9: u64,
    pub r10: u64,
    pub r11: u64,
    pub r12: u64,
    pub r13: u64,
    pub r14: u64,
    pub r15: u64,
    pub rip: u64,
    pub rflags: u64,
}

/// Size in bytes of a trap-time snapshot.
pub const DUNE_TRAP_REGS_SIZE: usize = 144;

impl DuneTrapRegs {
    /// The registers in layout order.
    pub open spec fn words(self) -> Seq<u64> {
        seq![
            self.rax,
            self.rbx,
            self.rcx,
            self.rdx,
            self.rsi,
            self.rdi,
            self.rsp,
            self.rbp,
            self.r8,
            self.r9,
            self.r10,
            self.r11,
            self.r12,
            self.r13,
            self.r14,
            self.r15,
            self.rip,
            self.rflags,
        ]
    }

    /// The snapshot whose words, in layout order, are `ws`.
    pub open spec fn from_words(ws: Seq<u64>) -> DuneTrapRegs {
        DuneTrapRegs {
            rax: ws[0],
            rbx: ws[1],
            rcx: ws[2],
            rdx: ws[3],
            rsi: ws[4],
            rdi: ws[5],
            rsp: ws[6],
            rbp: ws[7],
            r8: ws[8],
            r9: ws[9],
            r10: ws[10],
            r11: ws[11],
            r12: ws[12],
            r13: ws[13],
            r14: ws[14],
            r15: ws[15],
            rip: ws[16],
            rflags: ws[17],
        }
    }

    /// The bytes of the snapshot as the driver writes them.
    pub open spec fn layout(self) -> Seq<u8> {
        words_to_bytes(self.words())
    }

    /// The snapshot that the driver's bytes `b` describe.
    pub open spec fn parse(b: Seq<u8>) -> DuneTrapRegs {
        DuneTrapRegs::from_words(bytes_to_words(b))
    }

    /// The snapshot with every register zero.
    pub open spec fn zeroed() -> DuneTrapRegs {
        DuneTrapRegs::from_words(Seq::new(18, |i: int| 0u64))
    }

    /// The snapshot with every register zero.
    pub fn new() -> (r: DuneTrapRegs)
        ensures
            r == DuneTrapRegs::zeroed(),
    {
        DuneTrapRegs {
            rax: 0,
            rbx: 0,
            rcx: 0,
            rdx: 0,
            rsi: 0,
            rdi: 0,
            rsp: 0,
            rbp: 0,
            r8: 0,
            r9: 0,
            r10: 0,
            r11: 0,
            r12: 0,
            r13: 0,
            r14: 0,
            r15: 0,
            rip: 0,
            rflags: 0,
        }
    }

    /// Serialises the snapshot into its packed bytes.
    pub fn to_bytes(&self) -> (r: Vec<u8>)
        ensures
            r@ == self.layout(),
            r@.len() == DUNE_TRAP_REGS_SIZE,
    {
        let mut v: Vec<u64> = Vec::new();
        v.push(self.rax);
        v.push(self.rbx);
        v.push(self.rcx);
        v.push(self.rdx);
        v.push(self.rsi);
        v.push(self.rdi);
        v.push(self.rsp);
        v.push(self.rbp);
        v.push(self.r8);
        v.push(self.r9);
        v.push(self.r10);
        v.push(self.r11);
        v.push(self.r12);
        v.push(self.r13);
        v.push(self.r14);
        v.push(self.r15);
        v.push(self.rip);
        v.push(self.rflags);
        assert(v@ =~= self.words());
        encode_words(v.as_slice())
    }

    /// Reads a snapshot from the bytes of a register buffer; `None` unless
    /// there are exactly `DUNE_TRAP_REGS_SIZE` of them.
    pub fn from_bytes(b: &[u8]) -> (r: Option<DuneTrapRegs>)
        ensures
            r == (if b@.len() == DUNE_TRAP_REGS_SIZE {
                Some(DuneTrapRegs::parse(b@))
            } else {
                None
            }),
    {
        if b.len() != DUNE_TRAP_REGS_SIZE {
            return None;
        }
        let ws = decode_words(b);
        Some(
            DuneTrapRegs {
                rax: ws[0],
                rbx: ws[1],
                rcx: ws[2],
                rdx: ws[3],
                rsi: ws[4],
                rdi: ws[5],
                rsp: ws[6],
                rbp: ws[7],
                r8: ws[8],
                r9: ws[9],
                r10: ws[10],
                r11: ws[11],
                r12: ws[12],
                r13: ws[13],
                r14: ws[14],
                r15: ws[15],
                rip: ws[16],
                rflags: ws[17],
            },
        )
    }
}

/// Parsing the bytes of a trap-time snapshot gives the same snapshot back.
pub proof fn lemma_trap_regs_round_trip(r: DuneTrapRegs)
    ensures
        DuneTrapRegs::parse(r.layout()) == r,
        r.layout().len() == DUNE_TRAP_REGS_SIZE,
{
    lemma_words_round_trip(r.words());
}

/// A trap to arm: the instruction address that triggers it, the address of
/// the handler that the driver calls, the register buffer it fills and that
/// buffer's size, an opaque value passed to the handler, and how many more
/// times the trap re-arms itself after firing.
///
/// It travels as six little-endian words; `delay` fills the low byte of the
/// last one.
#[derive(Debug, Clone, Copy, PartialEq, Eq, Structural)]
pub struct DuneTrapConfig {
    pub trigger_rip: u64,
    pub notify_func: u64,
    pub regs: u64,
    pub regs_size: u64,
    pub priv_data: u64,
    pub delay: u8,
}

/// Size in bytes of a trap configuration block.
pub const DUNE_TRAP_CONFIG_SIZE: usize = 48;

impl DuneTrapConfig {
    /// The configuration with every field zero: nothing to arm.
    pub open spec fn zeroed() -> DuneTrapConfig {
        DuneTrapConfig { trigger_rip: 0, notify_func: 0, regs: 0, regs_size: 0, priv_data: 0, delay: 0 }
    }

    /// A configuration can be armed when it names a handler and a register
    /// buffer large enough for a trap-time snapshot, and its trigger is a
    /// canonical code address.
    pub open spec fn valid(self) -> bool {
        &&& self.notify_func != 0
        &&& self.regs != 0
        &&& self.regs_size >= DUNE_TRAP_REGS_SIZE
        &&& virt_addr_canonical(self.trigger_rip)
    }

    /// The fields in layout order.
    pub open spec fn words(self) -> Seq<u64> {
        seq![
            self.trigger_rip,
            self.notify_func,
            self.regs,
            self.regs_size,
            self.priv_data,
            self.delay as u64,
        ]
    }

    /// The configuration whose words, in layout order, are `ws`.
    pub open spec fn from_words(ws: Seq<u64>) -> DuneTrapConfig {
        DuneTrapConfig {
            trigger_rip: ws[0],
            notify_func: ws[1],
            regs: ws[2],
            regs_size: ws[3],
            priv_data: ws[4],
            delay: ws[5] as u8,
        }
    }

    /// The bytes of the configuration as the driver reads them.
    pub open spec fn layout(self) -> Seq<u8> {
        words_to_bytes(self.words())
    }

    /// The configuration that the bytes `b` describe.
    pub open spec fn parse(b: Seq<u8>) -> DuneTrapConfig {
        DuneTrapConfig::from_words(bytes_to_words(b))
    }

    /// The configuration with every field zero.
    pub fn new() -> (r: DuneTrapConfig)
        ensures
            r == DuneTrapConfig::zeroed(),
    {
        DuneTrapConfig { trigger_rip: 0, notify_func: 0, regs: 0, regs_size: 0, priv_data: 0, delay: 0 }
    }

    /// Whether the configuration can be armed.
    pub fn is_valid(&self) -> (r: bool)
        ensures
            r == self.valid(),
    {
        self.notify_func != 0 && self.regs != 0 && self.regs_size >= DUNE_TRAP_REGS_SIZE as u64
            && checked_virt_addr(self.trigger_rip).is_some()
    }

    /// Serialises the configuration into the bytes that the driver reads.
    pub fn to_bytes(&self) -> (r: Vec<u8>)
        ensures
            r@ == self.layout(),
            r@.len() == DUNE_TRAP_CONFIG_SIZE,
    {
        let mut v: Vec<u64> = Vec::new();
        v.push(self.trigger_rip);
        v.push(self.notify_func);
        v.push(self.regs);
        v.push(self.regs_size);
        v.push(self.priv_data);
        v.push(self.delay as u64);
        assert(v@ =~= self.words());
        encode_words(v.as_slice())
    }

    /// Reads a configuration from its bytes; `None` unless there are exactly
    /// `DUNE_TRAP_CONFIG_SIZE` of them.
    pub fn from_bytes(b: &[u8]) -> (r: Option<DuneTrapConfig>)
        ensures
            r == (if b@.len() == DUNE_TRAP_CONFIG_SIZE {
                Some(DuneTrapConfig::parse(b@))
            } else {
                None
            }),
    {
        if b.len() != DUNE_TRAP_CONFIG_SIZE {
            return None;
        }
        let ws = decode_words(b);
        Some(
            DuneTrapConfig {
                trigger_rip: ws[0],
                notify_func: ws[1],
                regs: ws[2],
                regs_size: ws[3],
                priv_data: ws[4],
                delay: ws[5] as u8,
            },
        )
    }
}

/// Parsing the bytes of a trap configuration gives the same configuration back.
pub proof fn lemma_trap_config_round_trip(c: DuneTrapConfig)
    ensures
        DuneTrapConfig::parse(c.layout()) == c,
        c.layout().len() == DUNE_TRAP_CONFIG_SIZE,
{
    lemma_words_round_trip(c.words());
}

/// Whether a trap is armed, whether it has fired since it was armed, and how
/// many times.
#[derive(Debug, Clone, Copy, PartialEq, Eq, Structural)]
pub struct TrapState {
    pub enabled: bool,
    pub triggered: bool,
    pub count: u8,
}

impl TrapState {
    /// The state of a trap that is not armed and has not fired.
    pub open spec fn disarmed() -> TrapState {
        TrapState { enabled: false, triggered: false, count: 0 }
    }

    /// The state of a trap that was just armed.
    pub open spec fn armed() -> TrapState {
        TrapState { enabled: true, triggered: false, count: 0 }
    }

    /// The state of a trap that is not armed and has not fired.
    pub fn new() -> (r: TrapState)
        ensures
            r == TrapState::disarmed(),
    {
        TrapState { enabled: false, triggered: false, count: 0 }
    }

    pub fn enabled(&self) -> (r: bool)
        ensures
            r == self.enabled,
    {
        self.enabled
    }

    pub fn triggered(&self) -> (r: bool)
        ensures
            r == self.triggered,
    {
        self.triggered
    }

    pub fn count(&self) -> (r: u8)
        ensures
            r == self.count,
    {
        self.count
    }
}

/// The fire counter after one more fire; it stops at 255.
pub open spec fn next_count(count: u8) -> u8 {
    if count < 255 {
        (count + 1) as u8
    } else {
        255
    }
}

/// The trap of one device handle: at most one is armed at a time.
#[derive(Debug, Clone, Copy)]
pub struct Trap {
    config: DuneTrapConfig,
    remaining: u8,
    state: TrapState,
}

impl Trap {
    /// Whether the trap is armed, has fired, and how often.
    pub closed spec fn spec_state(self) -> TrapState {
        self.state
    }

    /// The configuration the trap was armed with.
    pub closed spec fn spec_config(self) -> DuneTrapConfig {
        self.config
    }

    /// How many more fires re-arm the trap.
    pub closed spec fn spec_remaining(self) -> u8 {
        self.remaining
    }

    /// An armed trap holds a valid configuration; a trap that is not armed
    /// has no fires left, and one that has not fired has a zero count.
    pub open spec fn wf(self) -> bool {
        &&& self.spec_state().enabled ==> self.spec_config().valid()
        &&& !self.spec_state().enabled ==> self.spec_remaining() == 0
        &&& !self.spec_state().triggered ==> self.spec_state().count == 0
    }

    /// Whether the trap is in its initial, disarmed state.
    pub open spec fn is_reset(self) -> bool {
        &&& self.spec_state() == TrapState::disarmed()
        &&& self.spec_remaining() == 0
        &&& self.spec_config() == DuneTrapConfig::zeroed()
    }

    /// A trap that is not armed.
    pub fn new() -> (r: Trap)
        ensures
            r.wf(),
            r.is_reset(),
    {
        Trap { config: DuneTrapConfig::new(), remaining: 0, state: TrapState::new() }
    }

    /// Whether the trap is armed, has fired, and how often.
    pub fn state(&self) -> (r: TrapState)
        ensures
            r == self.spec_state(),
    {
        self.state
    }

    /// The configuration the trap was armed with.
    pub fn config(&self) -> (r: DuneTrapConfig)
        ensures
            r == self.spec_config(),
    {
        self.config
    }

    /// How many more fires re-arm the trap.
    pub fn remaining(&self) -> (r: u8)
        ensures
            r == self.spec_remaining(),
    {
        self.remaining
    }

    /// Whether the trap is armed.
    pub fn is_armed(&self) -> (r: bool)
        ensures
            r == self.spec_state().enabled,
    {
        self.state.enabled
    }

    /// Arms the trap with `config`. A trap that is already armed is left as
    /// it is and the call fails with `AlreadyArmed`; a configuration that
    /// cannot be armed fails with `InvalidArgument`.
    pub fn arm(&mut self, config: DuneTrapConfig) -> (r: Result<(), Error>)
        requires
            old(self).wf(),
        ensures
            final(self).wf(),
            old(self).spec_state().enabled ==> r == Err::<(), Error>(Error::AlreadyArmed)
                && *final(self) == *old(self),
            !old(self).spec_state().enabled && !config.valid() ==> r == Err::<(), Error>(
                Error::InvalidArgument,
            ) && *final(self) == *old(self),
            !old(self).spec_state().enabled && config.valid() ==> r == Ok::<(), Error>(())
                && final(self).spec_state() == TrapState::armed() && final(self).spec_config()
                == config && final(self).spec_remaining() == config.delay,
    {
        if self.state.enabled {
            return Err(Error::AlreadyArmed);
        }
        if !config.is_valid() {
            return Err(Error::InvalidArgument);
        }
        self.config = config;
        self.remaining = config.delay;
        self.state = TrapState { enabled: true, triggered: false, count: 0 };
        Ok(())
    }

    /// Records that the trap fired. It stays armed while re-arms remain, using
    /// one up; otherwise it is no longer armed. Fails with `NotArmed`, leaving
    /// the trap as it is, when it is not armed.
    pub fn fire(&mut self) -> (r: Result<(), Error>)
        requires
            old(self).wf(),
        ensures
            final(self).wf(),
            !old(self).spec_state().enabled ==> r == Err::<(), Error>(Error::NotArmed)
                && *final(self) == *old(self),
            old(self).spec_state().enabled ==> {
                &&& r == Ok::<(), Error>(())
                &&& final(self).spec_state().triggered
                &&& final(self).spec_state().count == next_count(old(self).spec_state().count)
                &&& final(self).spec_config() == old(self).spec_config()
                &&& old(self).spec_remaining() > 0 ==> final(self).spec_state().enabled
                    && final(self).spec_remaining() == old(self).spec_remaining() - 1
                &&& old(self).spec_remaining() == 0 ==> !final(self).spec_state().enabled
                    && final(self).spec_remaining() == 0
            },
    {
        if !self.state.enabled {
            return Err(Error::NotArmed);
        }
        let count = if self.state.count < 255 {
            self.state.count + 1
        } else {
            255
        };
        if self.remaining > 0 {
            self.remaining = self.remaining - 1;
            self.state = TrapState { enabled: true, triggered: true, count };
        } else {
            self.state = TrapState { enabled: false, triggered: true, count };
        }
        Ok(())
    }

    /// Disarms the trap, whatever its state, and forgets its configuration
    /// and fires.
    pub fn disarm(&mut self)
        ensures
            final(self).wf(),
            final(self).is_reset(),
    {
        self.config = DuneTrapConfig::new();
        self.remaining = 0;
        self.state = TrapState::new();
    }
}

/// Disarming twice is disarming once: the second call changes nothing.
pub proof fn lemma_disarm_idempotent(once: Trap, twice: Trap)
    requires
        once.is_reset(),
        twice.is_reset(),
    ensures
        twice == once,
{
}

impl DuneTrapRegs {
    pub fn rax(&self) -> (r: u64)
        ensures
            r == self.rax,
    {
        self.rax
    }

    pub fn set_rax(&mut self, value: u64) -> (r: &mut Self)
        ensures
            *r == (DuneTrapRegs { rax: value, ..*old(self) }),
            *final(self) == *final(r),
    {
        self.rax = value;
        self
    }

    pub fn rbx(&self) -> (r: u64)
        ensures
            r == self.rbx,
    {
        self.rbx
    }

    pub fn set_rbx(&mut self, value: u64) -> (r: &mut Self)
        ensures
            *r == (DuneTrapRegs { rbx: value, ..*old(self) }),
            *final(self) == *final(r),
    {
        self.rbx = value;
        self
    }

    pub fn rcx(&self) -> (r: u64)
        ensures
            r == self.rcx,
    {
        self.rcx
    }

    pub fn set_rcx(&mut self, value: u64) -> (r: &mut Self)
        ensures
            *r == (DuneTrapRegs { rcx: value, ..*old(self) }),
            *final(self) == *final(r),
    {
        self.rcx = value;
        self
    }

    pub fn rdx(&self) -> (r: u64)
        ensures
            r == self.rdx,
    {
        self.rdx
    }

    pub fn set_rdx(&mut self, value: u64) -> (r: &mut Self)
        ensures
            *r == (DuneTrapRegs { rdx: value, ..*old(self) }),
            *final(self) == *final(r),
    {
        self.rdx = value;
        self
    }

    pub fn rsi(&self) -> (r: u64)
        ensures
            r == self.rsi,
    {
        self.rsi
    }

    pub fn set_rsi(&mut self, value: u64) -> (r: &mut Self)
        ensures
            *r == (DuneTrapRegs { rsi: value, ..*old(self) }),
            *final(self) == *final(r),
    {
        self.rsi = value;
        self
    }

    pub fn rdi(&self) -> (r: u64)
        ensures
            r == self.rdi,
    {
        self.rdi
    }

    pub fn set_rdi(&mut self, value: u64) -> (r: &mut Self)
        ensures
            *r == (DuneTrapRegs { rdi: value, ..*old(self) }),
            *final(self) == *final(r),
    {
        self.rdi = value;
        self
    }

    pub fn rsp(&self) -> (r: u64)
        ensures
            r == self.rsp,
    {
        self.rsp
    }

    pub fn set_rsp(&mut self, value: u64) -> (r: &mut Self)
        ensures
            *r == (DuneTrapRegs { rsp: value, ..*old(self) }),
            *final(self) == *final(r),
    {
        self.rsp = value;
        self
    }

    pub fn rbp(&self) -> (r: u64)
        ensures
            r == self.rbp,
    {
        self.rbp
    }

    pub fn set_rbp(&mut self, value: u64) -> (r: &mut Self)
        ensures
            *r == (DuneTrapRegs { rbp: value, ..*old(self) }),
            *final(self) == *final(r),
    {
        self.rbp = value;
        self
    }

    pub fn r8(&self) -> (r: u64)
        ensures
            r == self.r8,
    {
        self.r8
    }

    pub fn set_r8(&mut self, value: u64) -> (r: &mut Self)
        ensures
            *r == (DuneTrapRegs { r8: value, ..*old(self) }),
            *final(self) == *final(r),
    {
        self.r8 = value;
        self
    }

    pub fn r9(&self) -> (r: u64)
        ensures
            r == self.r9,
    {
        self.r9
    }

    pub fn set_r9(&mut self, value: u64) -> (r: &mut Self)
        ensures
            *r == (DuneTrapRegs { r9: value, ..*old(self) }),
            *final(self) == *final(r),
    {
        self.r9 = value;
        self
    }

    pub fn r10(&self) -> (r: u64)
        ensures
            r == self.r10,
    {
        self.r10
    }

    pub fn set_r10(&mut self, value: u64) -> (r: &mut Self)
        ensures
            *r == (DuneTrapRegs { r10: value, ..*old(self) }),
            *final(self) == *final(r),
    {
        self.r10 = value;
        self
    }

    pub fn r11(&self) -> (r: u64)
        ensures
            r == self.r11,
    {
        self.r11
    }

    pub fn set_r11(&mut self, value: u64) -> (r: &mut Self)
        ensures
            *r == (DuneTrapRegs { r11: value, ..*old(self) }),
            *final(self) == *final(r),
    {
        self.r11 = value;
        self
    }

    pub fn r12(&self) -> (r: u64)
        ensures
            r == self.r12,
    {
        self.r12
    }

    pub fn set_r12(&mut self, value: u64) -> (r: &mut Self)
        ensures
            *r == (DuneTrapRegs { r12: value, ..*old(self) }),
            *final(self) == *final(r),
    {
        self.r12 = value;
        self
    }

    pub fn r13(&self) -> (r: u64)
        ensures
            r == self.r13,
    {
        self.r13
    }

    pub fn set_r13(&mut self, value: u64) -> (r: &mut Self)
        ensures
            *r == (DuneTrapRegs { r13: value, ..*old(self) }),
            *final(self) == *final(r),
    {
        self.r13 = value;
        self
    }

    pub fn r14(&self) -> (r: u64)
        ensures
            r == self.r14,
    {
        self.r14
    }

    pub fn set_r14(&mut self, value: u64) -> (r: &mut Self)
        ensures
            *r == (DuneTrapRegs { r14: value, ..*old(self) }),
            *final(self) == *final(r),
    {
        self.r14 = value;
        self
    }

    pub fn r15(&self) -> (r: u64)
        ensures
            r == self.r15,
    {
        self.r15
    }

    pub fn set_r15(&mut self, value: u64) -> (r: &mut Self)
        ensures
            *r == (DuneTrapRegs { r15: value, ..*old(self) }),
            *final(self) == *final(r),
    {
        self.r15 = value;
        self
    }

    pub fn rip(&self) -> (r: u64)
        ensures
            r == self.rip,
    {
        self.rip
    }

    pub fn set_rip(&mut self, value: u64) -> (r: &mut Self)
        ensures
            *r == (DuneTrapRegs { rip: value, ..*old(self) }),
            *final(self) == *final(r),
    {
        self.rip = value;
        self
    }

    pub fn rflags(&self) -> (r: u64)
        ensures
            r == self.rflags,
    {
        self.rflags
    }

    pub fn set_rflags(&mut self, value: u64) -> (r: &mut Self)
        ensures
            *r == (DuneTrapRegs { rflags: value, ..*old(self) }),
            *final(self) == *final(r),
    {
        self.rflags = value;
        self
    }
}

impl DuneTrapConfig {
    pub fn trigger_rip(&self) -> (r: u64)
        ensures
            r == self.trigger_rip,
    {
        self.trigger_rip
    }

    pub fn set_trigger_rip(&mut self, value: u64) -> (r: &mut Self)
        ensures
            *r == (DuneTrapConfig { trigger_rip: value, ..*old(self) }),
            *final(self) == *final(r),
    {
        self.trigger_rip = value;
        self
    }

    pub fn notify_func(&self) -> (r: u64)
        ensures
            r == self.notify_func,
    {
        self.notify_func
    }

    pub fn set_notify_func(&mut self, value: u64) -> (r: &mut Self)
        ensures
            *r == (DuneTrapConfig { notify_func: value, ..*old(self) }),
            *final(self) == *final(r),
    {
        self.notify_func = value;
        self
    }

    pub fn regs(&self) -> (r: u64)
        ensures
            r == self.regs,
    {
        self.regs
    }

    pub fn set_regs(&mut self, value: u64) -> (r: &mut Self)
        ensures
            *r == (DuneTrapConfig { regs: value, ..*old(self) }),
            *final(self) == *final(r),
    {
        self.regs = value;
        self
    }

    pub fn regs_size(&self) -> (r: u64)
        ensures
            r == self.regs_size,
    {
        self.regs_size
    }

    pub fn set_regs_size(&mut self, value: u64) -> (r: &mut Self)
        ensures
            *r == (DuneTrapConfig { regs_size: value, ..*old(self) }),
            *final(self) == *final(r),
    {
        self.regs_size = value;
        self
    }

    pub fn priv_data(&self) -> (r: u64)
        ensures
            r == self.priv_data,
    {
        self.priv_data
    }

    pub fn set_priv_data(&mut self, value: u64) -> (r: &mut Self)
        ensures
            *r == (DuneTrapConfig { priv_data: value, ..*old(self) }),
            *final(self) == *final(r),
    {
        self.priv_data = value;
        self
    }

    pub fn delay(&self) -> (r: u8)
        ensures
            r == self.delay,
    {
        self.delay
    }

    pub fn set_delay(&mut self, value: u8) -> (r: &mut Self)
        ensures
            *r == (DuneTrapConfig { delay: value, ..*old(self) }),
            *final(self) == *final(r),
    {
        self.delay = value;
        self
    }
}

impl Default for DuneTrapRegs {
    fn default() -> (r: Self)
        ensures
            r == DuneTrapRegs::zeroed(),
    {
        DuneTrapRegs::new()
    }
}

impl Default for DuneTrapConfig {
    fn default() -> (r: Self)
        ensures
            r == DuneTrapConfig::zeroed(),
    {
        DuneTrapConfig::new()
    }
}

impl Default for TrapState {
    fn default() -> (r: Self)
        ensures
            r == TrapState::disarmed(),
    {
        TrapState::new()
    }
}

} // verus!
