use dune_sys::debug::DuneTrapConfig;
use dune_sys::debug::DuneTrapRegs;
use dune_sys::debug::Trap;
use dune_sys::debug::TrapState;
use dune_sys::debug::DUNE_TRAP_CONFIG_SIZE;
use dune_sys::debug::DUNE_TRAP_REGS_SIZE;
use dune_sys::result::Error;

fn config(rip: u64, delay: u8) -> DuneTrapConfig {
    let mut c = DuneTrapConfig::new();
    c.set_trigger_rip(rip)
        .set_notify_func(0x40_2000)
        .set_regs(0x60_0000)
        .set_regs_size(DUNE_TRAP_REGS_SIZE as u64)
        .set_priv_data(0x1234)
        .set_delay(delay);
    c
}

fn state(enabled: bool, triggered: bool, count: u8) -> TrapState {
    TrapState { enabled, triggered, count }
}

#[test]
fn arming_a_disarmed_trap() {
    let mut t = Trap::new();
    assert_eq!(t.state(), state(false, false, 0));
    assert_eq!(t.arm(config(0x40_1000, 0)), Ok(()));
    assert_eq!(t.state(), state(true, false, 0));
    assert!(t.is_armed());
    assert_eq!(t.config(), config(0x40_1000, 0));
}

#[test]
fn arming_an_armed_trap_fails() {
    let mut t = Trap::new();
    t.arm(config(0x40_1000, 3)).unwrap();
    t.fire().unwrap();
    let before = (t.state(), t.config(), t.remaining());
    assert_eq!(t.arm(config(0x40_1000, 0)), Err(Error::AlreadyArmed));
    assert_eq!((t.state(), t.config(), t.remaining()), before);
    assert_eq!(t.arm(config(0x50_0000, 0)), Err(Error::AlreadyArmed));
    assert_eq!((t.state(), t.config(), t.remaining()), before);
}

#[test]
fn arming_rejects_bad_configurations() {
    let mut t = Trap::new();
    let mut c = config(0x40_1000, 0);
    c.set_notify_func(0);
    assert_eq!(t.arm(c), Err(Error::InvalidArgument));
    let mut c = config(0x40_1000, 0);
    c.set_regs(0);
    assert_eq!(t.arm(c), Err(Error::InvalidArgument));
    let mut c = config(0x40_1000, 0);
    c.set_regs_size(DUNE_TRAP_REGS_SIZE as u64 - 1);
    assert_eq!(t.arm(c), Err(Error::InvalidArgument));
    assert_eq!(t.arm(config(0x8000_0000_0000, 0)), Err(Error::InvalidArgument));
    assert_eq!(t.state(), state(false, false, 0));
    assert!(t.arm(config(0xffff_8000_0000_1000, 0)).is_ok());
}

#[test]
fn firing_counts_and_sets_triggered() {
    let mut t = Trap::new();
    t.arm(config(0x40_1000, 1)).unwrap();
    assert_eq!(t.fire(), Ok(()));
    assert_eq!(t.state(), state(true, true, 1));
    assert_eq!(t.fire(), Ok(()));
    assert_eq!(t.state(), state(false, true, 2));
}

#[test]
fn firing_a_disarmed_trap_fails() {
    let mut t = Trap::new();
    assert_eq!(t.fire(), Err(Error::NotArmed));
    assert_eq!(t.state(), state(false, false, 0));
}

#[test]
fn disarming_resets() {
    let mut t = Trap::new();
    t.arm(config(0x40_1000, 5)).unwrap();
    t.fire().unwrap();
    t.disarm();
    assert_eq!(t.state(), state(false, false, 0));
    assert_eq!(t.remaining(), 0);
    assert_eq!(t.arm(config(0x40_1000, 0)), Ok(()));
}

#[test]
fn disarming_twice_is_disarming_once() {
    let mut t = Trap::new();
    t.arm(config(0x40_1000, 2)).unwrap();
    t.disarm();
    let once = (t.state(), t.config(), t.remaining());
    t.disarm();
    assert_eq!((t.state(), t.config(), t.remaining()), once);
    let mut fresh = Trap::new();
    fresh.disarm();
    assert_eq!(fresh.state(), state(false, false, 0));
}

#[test]
fn delayed_trap_fires_three_times() {
    let mut t = Trap::new();
    t.arm(config(0x40_1000, 2)).unwrap();
    t.fire().unwrap();
    assert_eq!(t.state(), state(true, true, 1));
    t.fire().unwrap();
    assert_eq!(t.state(), state(true, true, 2));
    t.fire().unwrap();
    assert!(!t.state().enabled());
    assert_eq!(t.state().count(), 3);
    assert_eq!(t.fire(), Err(Error::NotArmed));
}

#[test]
fn fire_count_stops_at_its_maximum() {
    let mut t = Trap::new();
    t.arm(config(0x40_1000, 255)).unwrap();
    for _ in 0..255 {
        t.fire().unwrap();
    }
    assert_eq!(t.state(), state(true, true, 255));
    t.fire().unwrap();
    assert_eq!(t.state(), state(false, true, 255));
}

#[test]
fn trap_config_bytes() {
    let c = config(0x40_1000, 2);
    let b = c.to_bytes();
    assert_eq!(b.len(), DUNE_TRAP_CONFIG_SIZE);
    assert_eq!(&b[0..8], &0x40_1000u64.to_le_bytes());
    assert_eq!(&b[24..32], &144u64.to_le_bytes());
    assert_eq!(b[40], 2);
    assert_eq!(DuneTrapConfig::from_bytes(&b), Some(c));
    assert_eq!(DuneTrapConfig::from_bytes(&b[1..]), None);
}

#[test]
fn trap_regs_bytes() {
    let mut r = DuneTrapRegs::new();
    r.set_rax(1).set_r15(0xf0f0).set_rip(0x40_1000).set_rflags(0x246);
    let b = r.to_bytes();
    assert_eq!(b.len(), DUNE_TRAP_REGS_SIZE);
    assert_eq!(&b[0..8], &1u64.to_le_bytes());
    assert_eq!(&b[120..128], &0xf0f0u64.to_le_bytes());
    assert_eq!(&b[128..136], &0x40_1000u64.to_le_bytes());
    assert_eq!(&b[136..144], &0x246u64.to_le_bytes());
    assert_eq!(DuneTrapRegs::from_bytes(&b), Some(r));
    assert_eq!(DuneTrapRegs::from_bytes(&b[..143]), None);
}
