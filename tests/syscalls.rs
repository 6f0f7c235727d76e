use kernel_sync::interrupts::InterruptFlags;
use kernel_sync::syscalls::{Errno, Fd, SyscallDispatcher, SyscallHandler, UserVAddr, WhenceValues};

fn dispatcher(cwd: &str, mem_len: usize) -> SyscallDispatcher {
    SyscallDispatcher::new(cwd.as_bytes().to_vec(), vec![0xaau8; mem_len], InterruptFlags::from_bits(0x202))
}

#[test]
fn getcwd_writes_path_and_nul() {
    let mut d = dispatcher("/home", 16);
    let buf = UserVAddr::new(4).unwrap();
    assert_eq!(d.sys_getcwd(buf, 16), Ok(4));
    let mem = d.user_memory();
    assert_eq!(&mem[4..10], b"/home\0");
    assert_eq!(mem[3], 0xaa);
    assert_eq!(mem[10], 0xaa);
    assert_eq!(d.cpu_flags().bits, 0x202);
    assert!(!d.is_root_fs_locked());
}

#[test]
fn getcwd_small_buffer_is_erange() {
    let mut d = dispatcher("/home", 16);
    let buf = UserVAddr::new(0).unwrap();
    assert_eq!(d.sys_getcwd(buf, 4), Err(Errno::ERANGE));
    assert_eq!(d.user_memory(), &vec![0xaau8; 16]);
    assert_eq!(d.sys_getcwd(buf, 5), Ok(0));
}

#[test]
fn getcwd_outside_memory_is_efault() {
    let mut d = dispatcher("/", 4);
    let buf = UserVAddr::new(4).unwrap();
    assert_eq!(d.sys_getcwd(buf, 8), Err(Errno::EFAULT));
    assert_eq!(d.user_memory(), &vec![0xaau8; 4]);
}

#[test]
fn getcwd_nul_outside_memory_is_efault() {
    let mut d = dispatcher("/ab", 4);
    let buf = UserVAddr::new(1).unwrap();
    assert_eq!(d.sys_getcwd(buf, 8), Err(Errno::EFAULT));
    assert_eq!(d.user_memory(), &vec![0xaau8, b'/', b'a', b'b']);
}

#[test]
fn kernel_half_address_is_refused() {
    assert!(UserVAddr::new(usize::MAX).is_none());
    assert_eq!(UserVAddr::new(isize::MAX as usize).unwrap().as_isize(), isize::MAX);
}

#[test]
fn lseek_returns_zero() {
    let mut h: SyscallHandler = dispatcher("/", 4);
    assert_eq!(h.sys_lseek(Fd { raw: 3 }, 10, WhenceValues::SEEK_CUR.as_raw()), Ok(0));
}

#[test]
fn whence_values_match_user_numbers() {
    assert_eq!(WhenceValues::SEEK_SET.as_raw(), 0);
    assert_eq!(WhenceValues::SEEK_HOLE.as_raw(), 4);
    assert_eq!(WhenceValues::from_raw(2), Some(WhenceValues::SEEK_END));
    assert_eq!(WhenceValues::from_raw(5), None);
    assert_eq!(WhenceValues::from_raw(-1), None);
}
