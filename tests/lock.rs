use kernel_sync::interrupts::InterruptFlags;
use kernel_sync::lock::{CapturedBacktrace, DeadLock, SpinLock};

const ENABLED: u64 = 0x202;
const DISABLED: u64 = 0x002;

#[test]
fn counter_survives_release_and_reacquire() {
    let mut cpu = InterruptFlags::from_bits(ENABLED);
    let mut lock = SpinLock::new(0u32);
    let guard = lock.lock(&mut cpu, None).unwrap();
    *lock.get_mut(&guard) += 1;
    guard.release(&mut lock, &mut cpu);
    let guard = lock.lock(&mut cpu, None).unwrap();
    assert_eq!(*lock.get(&guard), 1);
    guard.release(&mut lock, &mut cpu);
    assert_eq!(cpu.bits, ENABLED);
}

#[test]
fn nested_locks_restore_outer_state() {
    for start in [ENABLED, DISABLED, 0x246, 0x046] {
        let mut cpu = InterruptFlags::from_bits(start);
        let mut a = SpinLock::new(10i32);
        let mut b = SpinLock::new(20i32);
        let ga = a.lock(&mut cpu, None).unwrap();
        assert!(!cpu.interrupts_enabled());
        let gb = b.lock(&mut cpu, None).unwrap();
        assert_eq!(*a.get(&ga), 10);
        assert_eq!(*b.get(&gb), 20);
        gb.release(&mut b, &mut cpu);
        assert!(!cpu.interrupts_enabled());
        ga.release(&mut a, &mut cpu);
        assert_eq!(cpu.bits, start);
    }
}

#[test]
fn release_restores_state_seen_before_lock() {
    let mut cpu = InterruptFlags::from_bits(ENABLED);
    let mut lock = SpinLock::new(());
    let guard = lock.lock(&mut cpu, None).unwrap();
    assert_eq!(guard.saved_flags().bits, ENABLED);
    assert_eq!(cpu.bits, DISABLED);
    guard.release(&mut lock, &mut cpu);
    assert_eq!(cpu.bits, ENABLED);
}

#[test]
fn is_locked_only_while_guard_lives() {
    let mut cpu = InterruptFlags::from_bits(ENABLED);
    let mut lock = SpinLock::new(5u8);
    assert!(!lock.is_locked());
    let guard = lock.lock(&mut cpu, None).unwrap();
    assert!(lock.is_locked());
    guard.release(&mut lock, &mut cpu);
    assert!(!lock.is_locked());
}

#[test]
fn second_acquisition_reports_dead_lock() {
    let mut cpu = InterruptFlags::from_bits(ENABLED);
    let mut lock = SpinLock::new(vec![1u8, 2, 3]);
    let site = CapturedBacktrace { frame: 0x4000 };
    let guard = lock.lock(&mut cpu, Some(site)).unwrap();
    assert_eq!(lock.locked_by(), Some(site));
    let again = lock.lock(&mut cpu, Some(CapturedBacktrace { frame: 0x5000 }));
    assert_eq!(again.err(), Some(DeadLock { holder: Some(site) }));
    assert_eq!(cpu.bits, DISABLED);
    assert!(lock.is_locked());
    assert_eq!(*lock.get(&guard), vec![1u8, 2, 3]);
    guard.release(&mut lock, &mut cpu);
    assert_eq!(lock.locked_by(), None);
    assert_eq!(cpu.bits, ENABLED);
}

#[test]
fn lock_without_snapshot_still_excludes() {
    let mut cpu = InterruptFlags::from_bits(ENABLED);
    let mut lock = SpinLock::new(7u64);
    let guard = lock.lock(&mut cpu, None).unwrap();
    assert!(lock.is_locked());
    assert_eq!(lock.locked_by(), None);
    let again = lock.lock(&mut cpu, None);
    assert_eq!(again.err(), Some(DeadLock { holder: None }));
    assert_eq!(*lock.get(&guard), 7);
    guard.release(&mut lock, &mut cpu);
    assert!(!lock.is_locked());
}

#[test]
fn three_nested_locks_keep_interrupts_off_until_outermost_release() {
    let mut cpu = InterruptFlags::from_bits(0x0846 | 0x200);
    let start = cpu.bits;
    let mut a = SpinLock::new(1u8);
    let mut b = SpinLock::new(2u8);
    let mut c = SpinLock::new(3u8);
    let ga = a.lock(&mut cpu, None).unwrap();
    let gb = b.lock(&mut cpu, None).unwrap();
    let gc = c.lock(&mut cpu, None).unwrap();
    assert_eq!(cpu.bits, 0x0846);
    gc.release(&mut c, &mut cpu);
    assert!(!cpu.interrupts_enabled());
    gb.release(&mut b, &mut cpu);
    assert!(!cpu.interrupts_enabled());
    ga.release(&mut a, &mut cpu);
    assert_eq!(cpu.bits, start);
}
