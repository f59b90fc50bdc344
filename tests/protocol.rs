use dune_sys::dev::complete_enter;
use dune_sys::dev::dune_signal_number;
use dune_sys::dune::DuneConfig;
use dune_sys::dune::DuneLayout;
use dune_sys::dune::DuneRetCode;
use dune_sys::dune::DUNE_CFG_CR3;
use dune_sys::dune::DUNE_CFG_R10;
use dune_sys::dune::DUNE_CFG_RAX;
use dune_sys::dune::DUNE_CFG_RET;
use dune_sys::dune::DUNE_CFG_RIP;
use dune_sys::dune::DUNE_CFG_RSP;
use dune_sys::dune::DUNE_CFG_STATUS;
use dune_sys::dune::DUNE_CFG_VCPU;
use dune_sys::dune::DUNE_CONFIG_SIZE;
use dune_sys::dune::GPA_MAP_SIZE;
use dune_sys::dune::GPA_STACK_SIZE;
use dune_sys::result::Error;

fn sample_config() -> DuneConfig {
    let mut c = DuneConfig::new();
    c.set_ret(-3)
        .set_rax(-1)
        .set_rdi(0x1111)
        .set_rsi(0x2222)
        .set_rdx(0x3333)
        .set_rcx(0x4444)
        .set_r8(0x5555)
        .set_r9(0x6666)
        .set_r10(0x7777)
        .set_rip(0x40_1000)
        .set_rsp(0x7fff_ffff_e000)
        .set_rflags(0x202)
        .set_cr3(0x1234_5000)
        .set_status(i64::MIN)
        .set_vcpu(7);
    c.rbx = 0xb;
    c.rbp = 0xbb;
    c.r11 = 0x11;
    c.r12 = 0x12;
    c.r13 = 0x13;
    c.r14 = 0x14;
    c.r15 = 0xffff_ffff_ffff_ffff;
    c
}

#[test]
fn classify_known_codes() {
    assert_eq!(DuneRetCode::from(0), DuneRetCode::NoReason);
    assert_eq!(DuneRetCode::from(1), DuneRetCode::Exit);
    assert_eq!(DuneRetCode::from(2), DuneRetCode::Syscall);
    assert_eq!(DuneRetCode::from(3), DuneRetCode::Interrupt);
    assert_eq!(DuneRetCode::from(4), DuneRetCode::Signal);
    assert_eq!(DuneRetCode::from(5), DuneRetCode::EptViolation);
    assert_eq!(DuneRetCode::from(6), DuneRetCode::NoEnter);
    assert_eq!(DuneRetCode::from(7), DuneRetCode::UnhandledVmexit);
}

#[test]
fn classify_unknown_codes() {
    for code in [-1i64, 8, 255, i64::MIN, i64::MAX] {
        assert_eq!(DuneRetCode::from(code), DuneRetCode::Unknown);
    }
}

#[test]
fn classification_codes_round_trip() {
    for code in 0i64..=7 {
        assert_eq!(DuneRetCode::from(code).code(), Some(code));
    }
    assert_eq!(DuneRetCode::Unknown.code(), None);
}

#[test]
fn voluntary_and_fatal_exits() {
    assert!(DuneRetCode::Exit.is_voluntary_exit());
    assert!(!DuneRetCode::Syscall.is_voluntary_exit());
    assert!(DuneRetCode::EptViolation.is_fatal());
    assert!(DuneRetCode::UnhandledVmexit.is_fatal());
    assert!(DuneRetCode::Unknown.is_fatal());
    assert!(!DuneRetCode::Signal.is_fatal());
    assert!(!DuneRetCode::Exit.is_fatal());
}

#[test]
fn config_bytes_round_trip() {
    let c = sample_config();
    let bytes = c.to_bytes();
    assert_eq!(bytes.len(), DUNE_CONFIG_SIZE);
    assert_eq!(DuneConfig::from_bytes(&bytes), Some(c));
}

#[test]
fn config_fields_sit_at_their_offsets() {
    let c = sample_config();
    let b = c.to_bytes();
    let at = |off: usize| b[off..off + 8].to_vec();
    assert_eq!(at(DUNE_CFG_RET), (-3i64).to_le_bytes().to_vec());
    assert_eq!(at(DUNE_CFG_RAX), (-1i64).to_le_bytes().to_vec());
    assert_eq!(at(DUNE_CFG_R10), 0x7777u64.to_le_bytes().to_vec());
    assert_eq!(at(DUNE_CFG_RIP), 0x40_1000u64.to_le_bytes().to_vec());
    assert_eq!(at(DUNE_CFG_RSP), 0x7fff_ffff_e000u64.to_le_bytes().to_vec());
    assert_eq!(at(DUNE_CFG_CR3), 0x1234_5000u64.to_le_bytes().to_vec());
    assert_eq!(at(DUNE_CFG_STATUS), i64::MIN.to_le_bytes().to_vec());
    assert_eq!(at(DUNE_CFG_VCPU), 7u64.to_le_bytes().to_vec());
    assert_eq!(DUNE_CFG_RIP, 136);
    assert_eq!(DUNE_CFG_VCPU, 168);
}

#[test]
fn config_from_bytes_rejects_wrong_sizes() {
    assert_eq!(DuneConfig::from_bytes(&[0u8; 175]), None);
    assert_eq!(DuneConfig::from_bytes(&[0u8; 177]), None);
    assert_eq!(DuneConfig::from_bytes(&[]), None);
}

#[test]
fn enter_with_zeroed_snapshot_and_voluntary_exit() {
    let mut snapshot = DuneConfig::new();
    let original = snapshot;
    let mut reply = snapshot.to_bytes();
    reply[DUNE_CFG_RET] = 1;
    let r = complete_enter(&mut snapshot, Ok(&reply));
    assert_eq!(r, Ok(DuneRetCode::Exit));
    assert_eq!(snapshot.ret(), 1);
    assert_eq!(snapshot.rip(), original.rip());
    assert_eq!(snapshot.rsp(), original.rsp());
    assert_eq!(snapshot.rax(), original.rax());
    assert_eq!(snapshot.vcpu(), original.vcpu());
}

#[test]
fn enter_takes_the_registers_observed_at_exit() {
    let mut snapshot = DuneConfig::new();
    let mut observed = sample_config();
    observed.set_ret(2);
    let r = complete_enter(&mut snapshot, Ok(&observed.to_bytes()));
    assert_eq!(r, Ok(DuneRetCode::Syscall));
    assert_eq!(snapshot, observed);
}

#[test]
fn enter_refused_leaves_snapshot_alone() {
    let mut snapshot = sample_config();
    let before = snapshot;
    let mut returned = DuneConfig::new();
    returned.set_ret(6).set_rip(0xdead);
    let r = complete_enter(&mut snapshot, Ok(&returned.to_bytes()));
    assert_eq!(r, Ok(DuneRetCode::NoEnter));
    assert_eq!(snapshot, before);
}

#[test]
fn enter_with_unknown_code() {
    let mut snapshot = DuneConfig::new();
    let mut returned = DuneConfig::new();
    returned.set_ret(42);
    let r = complete_enter(&mut snapshot, Ok(&returned.to_bytes()));
    assert_eq!(r, Ok(DuneRetCode::Unknown));
    assert_eq!(snapshot.ret(), 42);
}

#[test]
fn enter_system_error() {
    let mut snapshot = sample_config();
    let before = snapshot;
    let r = complete_enter(&mut snapshot, Err(9));
    assert_eq!(r, Err(Error::LibcError(9)));
    assert_eq!(snapshot, before);
}

#[test]
fn enter_malformed_reply() {
    let mut snapshot = sample_config();
    let before = snapshot;
    let r = complete_enter(&mut snapshot, Ok(&[1u8; 100]));
    assert_eq!(r, Err(Error::InvalidArgument));
    assert_eq!(snapshot, before);
}

#[test]
fn signal_numbers_are_offset() {
    assert_eq!(dune_signal_number(0), 200);
    assert_eq!(dune_signal_number(11), 211);
}

#[test]
fn region_sizes() {
    assert_eq!(GPA_STACK_SIZE, 1 << 30);
    assert_eq!(GPA_MAP_SIZE, (1 << 36) - (1 << 30));
}

#[test]
fn layout_checks_addresses() {
    let l = DuneLayout::new(0x1_0000_0000, 0x7fff_0000_0000, 0xffff_8000_0000_0000).unwrap();
    assert_eq!(l.phys_limit(), 0x1_0000_0000);
    assert_eq!(l.base_map(), 0x7fff_0000_0000);
    assert_eq!(l.base_stack(), 0xffff_8000_0000_0000);
    assert_eq!(DuneLayout::new(1 << 52, 0, 0), None);
    assert_eq!(DuneLayout::new((1 << 52) - 1, 0, 0).is_some(), true);
    assert_eq!(DuneLayout::new(0, 0x8000_0000_0000, 0), None);
    assert_eq!(DuneLayout::new(0, 0, 0xffff_7fff_ffff_ffff), None);
}

#[test]
fn layout_from_driver_bytes() {
    let mut b = Vec::new();
    b.extend_from_slice(&0x8000_0000u64.to_le_bytes());
    b.extend_from_slice(&0x10_0000_0000u64.to_le_bytes());
    b.extend_from_slice(&0x20_0000_0000u64.to_le_bytes());
    let l = DuneLayout::from_bytes(&b).unwrap();
    assert_eq!(l.phys_limit(), 0x8000_0000);
    assert_eq!(l.base_map(), 0x10_0000_0000);
    assert_eq!(l.base_stack(), 0x20_0000_0000);
    assert_eq!(DuneLayout::from_bytes(&b[..16]), None);
    b[23] = 0x80;
    assert_eq!(DuneLayout::from_bytes(&b), None);
}

#[test]
fn layout_setters() {
    let mut l = DuneLayout::zero();
    l.set_phys_limit(0x1000).set_base_map(0x2000).set_base_stack(0x3000);
    assert_eq!((l.phys_limit(), l.base_map(), l.base_stack()), (0x1000, 0x2000, 0x3000));
}
