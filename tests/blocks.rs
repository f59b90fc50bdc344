use dune_sys::dev::BaseDevice;
use dune_sys::dev::BaseSystem;
use dune_sys::dev::WithInterrupt;
use dune_sys::idt::IdtDescriptor;
use dune_sys::idt::IDT_ENTRIES;
use dune_sys::trap::DuneTf;
use dune_sys::tss::Tptr;
use dune_sys::tss::Tss;
use dune_sys::tss::TSS_IOPB;
use dune_sys::vmpl::GetPages;
use dune_sys::vmpl::VcpuConfig;
use dune_sys::vmpl::VmplLayout;
use dune_sys::vmpl::VmplSeimi;
use dune_sys::vmpl::VmsaSeg;
use dune_sys::vmpl::PGTABLE_MMAP_END;
use dune_sys::vmpl::SEIMI_MMAP_BASE_SUPER;
use dune_sys::vmpl::SEIMI_MMAP_BASE_USER;

#[test]
fn idt_descriptor_points_at_handler() {
    let mut d = IdtDescriptor::new();
    d.set_selector(0x8).set_type_attr(0x8e);
    d.set_idt_addr(0x1234_5678_9abc_def0);
    assert_eq!(d.low(), 0xdef0);
    assert_eq!(d.middle(), 0x9abc);
    assert_eq!(d.high(), 0x1234_5678);
    assert_eq!(d.selector(), 0x8);
    assert_eq!(d.type_attr(), 0x8e);
    let b = d.to_bytes();
    assert_eq!(b, vec![0xf0, 0xde, 0x08, 0x00, 0x00, 0x8e, 0xbc, 0x9a, 0x78, 0x56, 0x34, 0x12, 0, 0, 0, 0]);
    d.clear();
    assert_eq!(d, IdtDescriptor::new());
    assert_eq!(d.to_bytes(), vec![0u8; 16]);
}

#[test]
fn base_system_owns_its_tables() {
    let mut s = BaseSystem::new();
    assert_eq!(s.device().fd(), -1);
    assert_eq!(s.get_idt().len(), IDT_ENTRIES);
    s.get_idt_mut()[3].set_idt_addr(0x40_0000);
    assert_eq!(s.get_idt()[3].low(), 0);
    assert_eq!(s.get_idt()[3].middle(), 0x40);
    assert_eq!(s.get_idt()[4], IdtDescriptor::new());
    s.get_trap_regs_mut().set_rip(0x99);
    assert_eq!(s.get_trap_regs_mut().rip(), 0x99);
    s.device_mut().set_fd(5);
    assert_eq!(s.device().fd(), 5);
    let mut d = BaseDevice::new();
    d.set_fd(3);
    assert_eq!(d.fd(), 3);
}

#[test]
fn trap_frame_accessors() {
    let mut tf = DuneTf::new();
    tf.set_rip(0x40_1000).set_cs(0x33).set_err(0xe).set_rsp(0x7000);
    assert_eq!((tf.rip(), tf.cs(), tf.err(), tf.rsp(), tf.rax()), (0x40_1000, 0x33, 0xe, 0x7000, 0));
}

#[test]
fn task_state_segment_stacks() {
    let mut tss = Tss::new();
    tss.set_tss_rsp(0, 0x8000).set_tss_ist(1, 0x9000).set_tss_iomb(TSS_IOPB as u16);
    assert_eq!(tss.tss_rsp(0), 0x8000);
    assert_eq!(tss.tss_rsp(1), 0);
    assert_eq!(tss.tss_ist(1), 0x9000);
    assert_eq!(tss.tss_iomb(), 104);
    let mut p = Tptr::new();
    p.set_limit(0xfff).set_base(0x1000);
    assert_eq!((p.limit(), p.base()), (0xfff, 0x1000));
}

#[test]
fn vmpl_blocks() {
    assert_eq!(VmsaSeg::new(), VmsaSeg { selector: 0, attrib: 0, limit: 0, base: 0 });
    let mut seg = VmsaSeg::new();
    seg.set_selector(0x10).set_limit(0xffff).set_base(0x1000);
    let mut v = VcpuConfig::new();
    v.set_gs(seg).set_lstar(0xffff_8000_0000_0000);
    assert_eq!(v.gs().base(), 0x1000);
    assert_eq!(v.fs(), VmsaSeg::new());
    assert_eq!(GetPages::new(), GetPages { num_pages: 0, mapping: 0, phys: 0 });
    let s = VmplSeimi::new(253, 252);
    assert_eq!((s.pgd_user(), s.pgd_super()), (253, 252));
    assert_eq!(SEIMI_MMAP_BASE_USER, 253 << 39);
    assert_eq!(SEIMI_MMAP_BASE_SUPER, 252 << 39);
    assert_eq!(PGTABLE_MMAP_END, 0x6_8000_0000);
}

#[test]
fn vmpl_layout_from_bytes() {
    let mut b = Vec::new();
    for w in [0x10_0000u64, 0x20_0000, 0x7f00_0000_0000, 0x7f10_0000_0000] {
        b.extend_from_slice(&w.to_le_bytes());
    }
    let l = VmplLayout::from_bytes(&b).unwrap();
    assert_eq!((l.phys_base(), l.phys_end(), l.mmap_base(), l.mmap_end()), (0x10_0000, 0x20_0000, 0x7f00_0000_0000, 0x7f10_0000_0000));
    b[15] = 0xff;
    assert_eq!(VmplLayout::from_bytes(&b), None);
    assert_eq!(VmplLayout::new().phys_base(), 0);
}
