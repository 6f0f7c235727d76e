//! The syscalls that read process state through a spin lock: the working
//! directory query and file seeking.
use vstd::prelude::*;
use crate::interrupts::InterruptFlags;
use crate::lock::SpinLock;

verus! {

/// Errors that a syscall hands back to user space.
#[derive(Clone, Copy, Debug, PartialEq, Eq, Structural)]
pub enum Errno {
    /// The buffer is too small for the result.
    ERANGE,
    /// The buffer lies outside the user's memory.
    EFAULT,
}

/// A file descriptor number.
#[derive(Clone, Copy, Debug, PartialEq, Eq, Structural)]
pub struct Fd {
    pub raw: i32,
}

/// Where `lseek` counts its offset from.
#[allow(non_camel_case_types)]
#[derive(Clone, Copy, Debug, PartialEq, Eq, Structural)]
pub enum WhenceValues {
    /// From the beginning of the file.
    SEEK_SET,
    /// From the current position.
    SEEK_CUR,
    /// From the end of the file.
    SEEK_END,
    /// To the next data.
    SEEK_DATA,
    /// To the next hole.
    SEEK_HOLE,
}

impl WhenceValues {
    /// The value that user space passes for this variant.
    pub open spec fn raw_spec(self) -> i32 {
        match self {
            WhenceValues::SEEK_SET => 0,
            WhenceValues::SEEK_CUR => 1,
            WhenceValues::SEEK_END => 2,
            WhenceValues::SEEK_DATA => 3,
            WhenceValues::SEEK_HOLE => 4,
        }
    }

    pub fn as_raw(&self) -> (r: i32)
        ensures
            r == self.raw_spec(),
    {
        match self {
            WhenceValues::SEEK_SET => 0,
            WhenceValues::SEEK_CUR => 1,
            WhenceValues::SEEK_END => 2,
            WhenceValues::SEEK_DATA => 3,
            WhenceValues::SEEK_HOLE => 4,
        }
    }

    pub fn from_raw(v: i32) -> (r: Option<WhenceValues>)
        ensures
            r matches Some(w) ==> w.raw_spec() == v,
            r is None <==> (v < 0 || v > 4),
    {
        match v {
            0 => Some(WhenceValues::SEEK_SET),
            1 => Some(WhenceValues::SEEK_CUR),
            2 => Some(WhenceValues::SEEK_END),
            3 => Some(WhenceValues::SEEK_DATA),
            4 => Some(WhenceValues::SEEK_HOLE),
            _ => None,
        }
    }
}

/// An address in user space; it fits in an `isize`.
#[derive(Clone, Copy, Debug, PartialEq, Eq)]
pub struct UserVAddr {
    addr: usize,
}

impl UserVAddr {
    #[verifier::type_invariant]
    spec fn fits(self) -> bool {
        self.addr <= isize::MAX
    }

    pub closed spec fn addr(self) -> usize {
        self.addr
    }

    /// `None` for an address past the user half of the address space.
    pub fn new(addr: usize) -> (r: Option<UserVAddr>)
        ensures
            r is Some <==> addr <= isize::MAX,
            r matches Some(u) ==> u.addr() == addr,
    {
        if addr <= isize::MAX as usize {
            Some(UserVAddr { addr })
        } else {
            None
        }
    }

    pub fn value(&self) -> (r: usize)
        ensures
            r == self.addr(),
            r <= isize::MAX,
    {
        proof {
            use_type_invariant(self);
        }
        self.addr
    }

    pub fn as_isize(&self) -> (r: isize)
        ensures
            r as int == self.addr() as int,
    {
        proof {
            use_type_invariant(self);
        }
        self.addr as isize
    }
}

/// A process's view of the file system: its working directory, as an
/// absolute path.
pub struct RootFs {
    cwd: Vec<u8>,
}

impl RootFs {
    pub closed spec fn cwd(self) -> Seq<u8> {
        self.cwd@
    }

    pub fn new(cwd: Vec<u8>) -> (r: RootFs)
        ensures
            r.cwd() == cwd@,
    {
        RootFs { cwd }
    }

    pub fn cwd_path(&self) -> (r: &Vec<u8>)
        ensures
            r@ == self.cwd(),
    {
        &self.cwd
    }
}

/// `mem` with `bytes` written from `at` on, where they fit.
pub open spec fn written(mem: Seq<u8>, at: int, bytes: Seq<u8>) -> Seq<u8> {
    Seq::new(
        mem.len(),
        |j: int|
            if at <= j < at + bytes.len() {
                bytes[j - at]
            } else {
                mem[j]
            },
    )
}

/// Copies `bytes` into user memory at `at`, or fails with `EFAULT`,
/// writing nothing, where they do not fit.
fn copy_to_user(mem: &mut Vec<u8>, at: usize, bytes: &Vec<u8>) -> (r: Result<(), Errno>)
    ensures
        at + bytes@.len() <= old(mem)@.len() ==> r is Ok
            && final(mem)@ == written(old(mem)@, at as int, bytes@),
        at + bytes@.len() > old(mem)@.len() ==> r == Err::<(), Errno>(Errno::EFAULT)
            && final(mem)@ == old(mem)@,
{
    if bytes.len() > mem.len() || at > mem.len() - bytes.len() {
        return Err(Errno::EFAULT);
    }
    let n = bytes.len();
    let ml = mem.len();
    let mut i: usize = 0;
    while i < n
        invariant
            n == bytes@.len(),
            i <= n,
            at + n <= ml,
            ml == old(mem)@.len(),
            mem@.len() == ml,
            mem@ == written(old(mem)@, at as int, bytes@.take(i as int)),
        decreases n - i,
    {
        mem.set(at + i, bytes[i]);
        i = i + 1;
        assert(mem@ =~= written(old(mem)@, at as int, bytes@.take(i as int)));
    }
    assert(bytes@.take(n as int) =~= bytes@);
    Ok(())
}

/// What `getcwd` leaves in user memory: the path and then a NUL byte.
pub open spec fn getcwd_memory(mem: Seq<u8>, at: int, cwd: Seq<u8>) -> Seq<u8> {
    written(mem, at, cwd.push(0u8))
}

/// The state that one process's syscalls work on: its file system view
/// behind a lock, the CPU's flag register, and the user's memory.
pub struct SyscallDispatcher {
    root_fs: SpinLock<RootFs>,
    cpu: InterruptFlags,
    user_memory: Vec<u8>,
}

/// The handler that seeking goes through: the same state.
pub type SyscallHandler = SyscallDispatcher;

impl SyscallDispatcher {
    pub closed spec fn cwd(self) -> Seq<u8> {
        self.root_fs.value().cwd()
    }

    pub closed spec fn cpu(self) -> InterruptFlags {
        self.cpu
    }

    pub closed spec fn memory(self) -> Seq<u8> {
        self.user_memory@
    }

    /// Between syscalls no lock is held.
    pub closed spec fn wf(self) -> bool {
        &&& self.root_fs.wf()
        &&& !self.root_fs.is_held()
    }

    pub fn new(cwd: Vec<u8>, user_memory: Vec<u8>, cpu: InterruptFlags) -> (r: SyscallDispatcher)
        ensures
            r.wf(),
            r.cwd() == cwd@,
            r.memory() == user_memory@,
            r.cpu() == cpu,
    {
        SyscallDispatcher { root_fs: SpinLock::new(RootFs::new(cwd)), cpu, user_memory }
    }

    pub fn user_memory(&self) -> (r: &Vec<u8>)
        ensures
            r@ == self.memory(),
    {
        &self.user_memory
    }

    pub fn cpu_flags(&self) -> (r: InterruptFlags)
        ensures
            r == self.cpu(),
    {
        self.cpu
    }

    pub fn is_root_fs_locked(&self) -> (r: bool)
        requires
            self.wf(),
        ensures
            !r,
    {
        self.root_fs.is_locked()
    }

    /// Writes the working directory and a NUL byte to `buf` and returns
    /// `buf`. `ERANGE` where `size` is below the path's length; `EFAULT`
    /// where the path does not fit in user memory at `buf`, or the NUL after
    /// it does not (the path is then written).
    pub fn sys_getcwd(&mut self, buf: UserVAddr, size: usize) -> (r: Result<isize, Errno>)
        requires
            old(self).wf(),
        ensures
            final(self).wf(),
            final(self).cwd() == old(self).cwd(),
            final(self).cpu() == old(self).cpu(),
            ({
                let cwd = old(self).cwd();
                let mem = old(self).memory();
                let at = buf.addr() as int;
                if size < cwd.len() {
                    r == Err::<isize, Errno>(Errno::ERANGE) && final(self).memory() == mem
                } else if at + cwd.len() > mem.len() {
                    r == Err::<isize, Errno>(Errno::EFAULT) && final(self).memory() == mem
                } else if at + cwd.len() + 1 > mem.len() {
                    r == Err::<isize, Errno>(Errno::EFAULT) && final(self).memory() == written(
                        mem,
                        at,
                        cwd,
                    )
                } else {
                    r == Ok::<isize, Errno>(at as isize) && final(self).memory() == getcwd_memory(
                        mem,
                        at,
                        cwd,
                    )
                }
            }),
    {
        let ghost cpu0 = self.cpu;
        let cwd = match self.root_fs.lock(&mut self.cpu, None) {
            Ok(guard) => {
                let cwd = self.root_fs.get(&guard).cwd_path().clone();
                guard.release(&mut self.root_fs, &mut self.cpu);
                cwd
            },
            // No lock is held between syscalls, so this arm is never taken.
            Err(_) => {
                return Err(Errno::EFAULT);
            },
        };
        proof {
            assert(cwd@ =~= self.root_fs.value().cwd());
            let b = cpu0.bits;
            assert((b & !0x200u64) | (b & 0x200u64) == b) by (bit_vector);
            assert(crate::interrupts::FLAGS_IF == 0x200u64);
        }
        if size < cwd.len() {
            return Err(Errno::ERANGE);
        }
        let at = buf.value();
        match copy_to_user(&mut self.user_memory, at, &cwd) {
            Ok(()) => {},
            Err(e) => {
                return Err(e);
            },
        }
        // The path fit, so the address just past it is within memory.
        let mem_len = self.user_memory.len();
        assert(at + cwd.len() <= mem_len);
        let nul: Vec<u8> = vec![0u8];
        match copy_to_user(&mut self.user_memory, at + cwd.len(), &nul) {
            Ok(()) => {},
            Err(e) => {
                return Err(e);
            },
        }
        proof {
            assert(self.user_memory@ =~= getcwd_memory(old(self).memory(), at as int, cwd@));
        }
        Ok(buf.as_isize())
    }

    /// Moves a file's position. Seeking is not implemented yet: it does
    /// nothing and returns 0.
    pub fn sys_lseek(&mut self, fd: Fd, offset: i64, whence: i32) -> (r: Result<isize, Errno>)
        ensures
            r == Ok::<isize, Errno>(0),
            *final(self) == *old(self),
    {
        Ok(0)
    }
}

} // verus!
