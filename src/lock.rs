//! A spin lock for one logical CPU. Acquiring it saves the interrupt state
//! and disables interrupts; releasing it through its guard gives the lock
//! back, restores the saved interrupt state and clears the record of who
//! held it. A second acquisition while it is held can never succeed on one
//! CPU, so it is reported as a dead lock instead of spinning.
use vstd::prelude::*;
use crate::interrupts::InterruptFlags;

verus! {

/// A cheap capture of the call site that acquired a lock, kept only to
/// tell a human who holds it.
#[derive(Clone, Copy, Debug, PartialEq, Eq, Structural)]
pub struct CapturedBacktrace {
    pub frame: usize,
}

/// What an acquisition of a held lock reports: the holder's call site,
/// where one was captured.
#[derive(Clone, Copy, Debug, PartialEq, Eq, Structural)]
pub struct DeadLock {
    pub holder: Option<CapturedBacktrace>,
}

/// A value and the exclusion state that guards it.
pub struct SpinLock<T> {
    id: Ghost<int>,
    inner: T,
    held: bool,
    locked_by: Option<CapturedBacktrace>,
}

/// Exclusive access to one lock's value, with the interrupt state to put
/// back when it is released. It can be neither copied nor cloned, and it
/// carries the identity of the lock that gave it out: only that lock takes
/// it.
pub struct SpinLockGuard {
    rflags: InterruptFlags,
    lock_id: Ghost<int>,
}

impl SpinLockGuard {
    /// The identity of the lock that handed out this guard.
    pub closed spec fn lock_id(self) -> int {
        self.lock_id@
    }

    /// The interrupt state captured when the lock was taken.
    pub closed spec fn saved(self) -> InterruptFlags {
        self.rflags
    }

    pub fn saved_flags(&self) -> (r: InterruptFlags)
        ensures
            r == self.saved(),
    {
        self.rflags
    }
}

impl<T> SpinLock<T> {
    /// The lock's identity. Nothing tells a caller what it is, so a guard
    /// can be shown to match only the lock whose acquisition returned it.
    pub closed spec fn id(self) -> int {
        self.id@
    }

    /// The protected value.
    pub closed spec fn value(self) -> T {
        self.inner
    }

    /// The exclusion primitive is held.
    pub closed spec fn is_held(self) -> bool {
        self.held
    }

    /// The call site recorded for the current holder.
    pub closed spec fn holder(self) -> Option<CapturedBacktrace> {
        self.locked_by
    }

    /// A call site is recorded only while the lock is held.
    pub open spec fn wf(self) -> bool {
        self.holder() is Some ==> self.is_held()
    }

    /// What `lock` does: on a free lock it hands out a guard that saved
    /// `cpu`, disables interrupts and records `site`; on a held lock it
    /// reports the holder and changes nothing.
    pub open spec fn lock_step(
        self,
        cpu: InterruptFlags,
        site: Option<CapturedBacktrace>,
        next: Self,
        next_cpu: InterruptFlags,
        r: Result<SpinLockGuard, DeadLock>,
    ) -> bool {
        if self.is_held() {
            &&& r == Err::<SpinLockGuard, DeadLock>(DeadLock { holder: self.holder() })
            &&& next == self
            &&& next_cpu == cpu
        } else {
            &&& r is Ok
            &&& r->Ok_0.saved() == cpu
            &&& r->Ok_0.lock_id() == self.id()
            &&& next.id() == self.id()
            &&& next_cpu == cpu.disabled_spec()
            &&& next.is_held()
            &&& next.holder() == site
            &&& next.value() == self.value()
        }
    }

    /// What releasing a guard does: the lock is free, nobody is recorded,
    /// the value stays, and `cpu` gets back the interrupt-enable bit that
    /// the guard saved.
    pub open spec fn release_step(
        self,
        guard: SpinLockGuard,
        cpu: InterruptFlags,
        next: Self,
        next_cpu: InterruptFlags,
    ) -> bool {
        &&& !next.is_held()
        &&& next.id() == self.id()
        &&& next.holder() is None
        &&& next.value() == self.value()
        &&& next_cpu == cpu.restored_spec(guard.saved())
    }

    /// A free lock around `value`.
    pub fn new(value: T) -> (r: SpinLock<T>)
        ensures
            r.value() == value,
            !r.is_held(),
            r.holder() is None,
            r.wf(),
    {
        let ghost id: int = arbitrary();
        SpinLock { id: Ghost(id), inner: value, held: false, locked_by: None }
    }

    /// Takes the lock on the CPU whose flags are `cpu`. `site` is the
    /// caller's call site, or `None` where none may be captured (before the
    /// kernel heap is up): the lock is taken all the same.
    pub fn lock(
        &mut self,
        cpu: &mut InterruptFlags,
        site: Option<CapturedBacktrace>,
    ) -> (r: Result<SpinLockGuard, DeadLock>)
        requires
            old(self).wf(),
        ensures
            final(self).wf(),
            old(self).lock_step(*old(cpu), site, *final(self), *final(cpu), r),
    {
        if self.held {
            return Err(DeadLock { holder: self.locked_by });
        }
        let rflags = *cpu;
        *cpu = rflags.disabled();
        self.held = true;
        self.locked_by = site;
        Ok(SpinLockGuard { rflags, lock_id: Ghost(self.id@) })
    }

    /// Whether the lock is held now; for diagnostics.
    pub fn is_locked(&self) -> (r: bool)
        ensures
            r == self.is_held(),
    {
        self.held
    }

    /// The call site recorded for the current holder; there is none
    /// while the lock is free.
    pub fn locked_by(&self) -> (r: Option<CapturedBacktrace>)
        requires
            self.wf(),
        ensures
            r == self.holder(),
            r is Some ==> self.is_held(),
    {
        self.locked_by
    }

    /// Reads the value through a live guard.
    pub fn get<'a>(&'a self, guard: &'a SpinLockGuard) -> (r: &'a T)
        requires
            self.is_held(),
            guard.lock_id() == self.id(),
        ensures
            *r == self.value(),
    {
        &self.inner
    }

    /// Writes the value through a live guard.
    pub fn get_mut<'a>(&'a mut self, guard: &'a SpinLockGuard) -> (r: &'a mut T)
        requires
            old(self).is_held(),
            guard.lock_id() == old(self).id(),
        ensures
            *r == old(self).value(),
            final(self).value() == *final(r),
            final(self).is_held(),
            final(self).id() == old(self).id(),
            final(self).holder() == old(self).holder(),
    {
        &mut self.inner
    }
}

impl SpinLockGuard {
    /// Ends the guard: gives the lock back, then restores the saved
    /// interrupt state over `cpu`, then clears the holder's record.
    pub fn release<T>(self, lock: &mut SpinLock<T>, cpu: &mut InterruptFlags)
        requires
            old(lock).wf(),
            old(lock).is_held(),
            self.lock_id() == old(lock).id(),
        ensures
            final(lock).wf(),
            old(lock).release_step(self, *old(cpu), *final(lock), *final(cpu)),
    {
        lock.held = false;
        *cpu = cpu.restored(&self.rflags);
        lock.locked_by = None;
    }
}

} // verus!
