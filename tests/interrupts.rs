use kernel_sync::interrupts::{InterruptFlags, FLAGS_IF, FLAGS_KNOWN};

#[test]
fn disabling_clears_only_the_interrupt_bit() {
    let f = InterruptFlags::from_bits(0x0847 | FLAGS_IF);
    let d = f.disabled();
    assert_eq!(d.bits, 0x0847);
    assert!(!d.interrupts_enabled());
    assert!(f.interrupts_enabled());
}

#[test]
fn restoring_ors_in_the_saved_interrupt_bit() {
    let now = InterruptFlags::from_bits(0x0046);
    let enabled = InterruptFlags::from_bits(0x0202);
    let disabled = InterruptFlags::from_bits(0x0002);
    assert_eq!(now.restored(&enabled).bits, 0x0246);
    assert_eq!(now.restored(&disabled).bits, 0x0046);
    let on = InterruptFlags::from_bits(0x0246);
    assert_eq!(on.restored(&disabled).bits, 0x0246);
}

#[test]
fn hardware_flags_hold_known_bits_only() {
    let f = InterruptFlags::read_state();
    assert_eq!(f.bits & !FLAGS_KNOWN, 0);
    assert_ne!(f.bits & 0x2, 0);
    assert!(f.interrupts_enabled());
}

#[test]
fn restoring_hardware_state_keeps_it() {
    let before = InterruptFlags::read_state();
    let (read, wrote) = InterruptFlags::restore_state(&before);
    assert!(wrote.interrupts_enabled());
    assert_ne!(wrote.bits & 0x2, 0);
    assert_eq!(wrote.bits & !0x200, read.bits & !0x200);
    assert_eq!(wrote, read.restored(&before));
    let after = InterruptFlags::read_state();
    assert_eq!(after.interrupts_enabled(), before.interrupts_enabled());
}
