//! A handle on the driver: its file descriptor, the interrupt table and
//! trap-time registers that it owns, and the decision that completes an
//! enter request.
use vstd::prelude::*;
use crate::debug::DuneTrapRegs;
use crate::dune::ret_code_of;
use crate::dune::DuneConfig;
use crate::dune::DuneRetCode;
use crate::dune::DUNE_CONFIG_SIZE;
use crate::idt::IdtDescriptor;
use crate::idt::IDT_ENTRIES;
use crate::result::Error;

verus! {

/// Minor number of the driver's device node.
pub const DUNE_MINOR: u32 = 233;

/// Request number of the enter call.
pub const IOCTL_DUNE_ENTER: u64 = 0xc0b0e901;

/// Added to a signal number that reaches the isolated context, so that it is
/// told apart from a signal of the process itself.
pub const DUNE_SIGNAL_INTR_BASE: u64 = 200;

/// The number under which a signal that reached the isolated context is
/// replayed.
pub fn dune_signal_number(signo: u64) -> (r: u64)
    requires
        signo + DUNE_SIGNAL_INTR_BASE <= u64::MAX,
    ensures
        r == signo + DUNE_SIGNAL_INTR_BASE,
{
    signo + DUNE_SIGNAL_INTR_BASE
}

/// Completes an enter request from the driver's answer: the error number of
/// a refused call, or the bytes of the block it handed back.
///
/// A refused call fails with that error, and a block of the wrong size with
/// `InvalidArgument`; the snapshot is then left as it was. Otherwise the
/// block's return code is classified. When the context was never entered
/// (`NoEnter`) the snapshot is not updated; for every other classification
/// it takes the registers observed at exit.
pub fn complete_enter(snapshot: &mut DuneConfig, reply: Result<&[u8], i32>) -> (r: Result<
    DuneRetCode,
    Error,
>)
    ensures
        reply matches Err(e) ==> r == Err::<DuneRetCode, Error>(Error::LibcError(e))
            && *final(snapshot) == *old(snapshot),
        reply matches Ok(b) ==> b@.len() != DUNE_CONFIG_SIZE ==> r == Err::<DuneRetCode, Error>(
            Error::InvalidArgument,
        ) && *final(snapshot) == *old(snapshot),
        reply matches Ok(b) ==> b@.len() == DUNE_CONFIG_SIZE ==> {
            let c = DuneConfig::parse(b@);
            let k = ret_code_of(c.ret);
            &&& r == Ok::<DuneRetCode, Error>(k)
            &&& k == DuneRetCode::NoEnter ==> *final(snapshot) == *old(snapshot)
            &&& k != DuneRetCode::NoEnter ==> *final(snapshot) == c
        },
{
    match reply {
        Err(e) => Err(Error::LibcError(e)),
        Ok(b) => match DuneConfig::from_bytes(b) {
            None => Err(Error::InvalidArgument),
            Some(c) => {
                let k = c.exit_reason();
                if k != DuneRetCode::NoEnter {
                    *snapshot = c;
                }
                Ok(k)
            },
        },
    }
}

/// The file descriptor of an opened device; `-1` until it is opened.
#[derive(Debug, Clone, Copy, PartialEq, Eq, Structural)]
pub struct BaseDevice {
    fd: i32,
}

impl BaseDevice {
    /// The descriptor held.
    pub closed spec fn spec_fd(self) -> i32 {
        self.fd
    }

    /// A device that is not open.
    pub fn new() -> (r: BaseDevice)
        ensures
            r.spec_fd() == -1,
    {
        BaseDevice { fd: -1 }
    }

    /// The descriptor held.
    pub fn fd(&self) -> (r: i32)
        ensures
            r == self.spec_fd(),
    {
        self.fd
    }

    /// Records the descriptor of the opened device.
    pub fn set_fd(&mut self, value: i32) -> (r: &mut Self)
        ensures
            r.spec_fd() == value,
            *final(self) == *final(r),
    {
        self.fd = value;
        self
    }
}

/// What a handle owns for the isolated context's own interrupts: its
/// interrupt table and the snapshot that its trap handler fills.
pub trait WithInterrupt {
    /// The interrupt table.
    spec fn spec_idt(&self) -> [IdtDescriptor; IDT_ENTRIES];

    /// The trap-time snapshot.
    spec fn spec_trap_regs(&self) -> DuneTrapRegs;

    fn get_idt(&self) -> (r: &[IdtDescriptor; IDT_ENTRIES])
        ensures
            *r == self.spec_idt(),
    ;

    fn get_idt_mut(&mut self) -> (r: &mut [IdtDescriptor; IDT_ENTRIES])
        ensures
            *r == old(self).spec_idt(),
            final(self).spec_idt() == *final(r),
            final(self).spec_trap_regs() == old(self).spec_trap_regs(),
    ;

    fn get_trap_regs_mut(&mut self) -> (r: &mut DuneTrapRegs)
        ensures
            *r == old(self).spec_trap_regs(),
            final(self).spec_trap_regs() == *final(r),
            final(self).spec_idt() == old(self).spec_idt(),
    ;
}

/// A device handle with the interrupt table and trap-time snapshot that it
/// owns for the lifetime of its isolated context.
#[derive(Debug, Clone, Copy)]
pub struct BaseSystem {
    device: BaseDevice,
    idt: [IdtDescriptor; IDT_ENTRIES],
    trap_regs: DuneTrapRegs,
}

impl BaseSystem {
    /// The device handle.
    pub closed spec fn spec_device(self) -> BaseDevice {
        self.device
    }

    /// A handle that is not open, with an empty interrupt table and a zero
    /// snapshot.
    pub fn new() -> (r: BaseSystem)
        ensures
            r.spec_device().spec_fd() == -1,
            forall|i: int| 0 <= i < IDT_ENTRIES ==> r.spec_idt()[i] == IdtDescriptor::zeroed(),
            r.spec_trap_regs() == DuneTrapRegs::zeroed(),
    {
        BaseSystem {
            device: BaseDevice::new(),
            idt: [IdtDescriptor::new(); IDT_ENTRIES],
            trap_regs: DuneTrapRegs::new(),
        }
    }

    /// The device handle.
    pub fn device(&self) -> (r: &BaseDevice)
        ensures
            *r == self.spec_device(),
    {
        &self.device
    }

    /// The device handle, to record the descriptor once it is opened.
    pub fn device_mut(&mut self) -> (r: &mut BaseDevice)
        ensures
            *r == old(self).spec_device(),
            final(self).spec_device() == *final(r),
            final(self).spec_idt() == old(self).spec_idt(),
            final(self).spec_trap_regs() == old(self).spec_trap_regs(),
    {
        &mut self.device
    }
}

impl WithInterrupt for BaseSystem {
    closed spec fn spec_idt(&self) -> [IdtDescriptor; IDT_ENTRIES] {
        self.idt
    }

    closed spec fn spec_trap_regs(&self) -> DuneTrapRegs {
        self.trap_regs
    }

    fn get_idt(&self) -> (r: &[IdtDescriptor; IDT_ENTRIES]) {
        &self.idt
    }

    fn get_idt_mut(&mut self) -> (r: &mut [IdtDescriptor; IDT_ENTRIES]) {
        &mut self.idt
    }

    fn get_trap_regs_mut(&mut self) -> (r: &mut DuneTrapRegs) {
        &mut self.trap_regs
    }
}

} // verus!
