//! Properties of locks that span several operations.
use vstd::prelude::*;
use crate::interrupts::{InterruptFlags, FLAGS_IF};
use crate::lock::{CapturedBacktrace, DeadLock, SpinLock, SpinLockGuard};

verus! {

/// The flags after `depth` nested acquisitions that start from `f`.
pub open spec fn acquired_n(f: InterruptFlags, depth: nat) -> InterruptFlags
    decreases depth,
{
    if depth == 0 {
        f
    } else {
        acquired_n(f, (depth - 1) as nat).disabled_spec()
    }
}

proof fn lemma_acquired_is_disabled(f: InterruptFlags, depth: nat)
    requires
        depth >= 1,
    ensures
        acquired_n(f, depth) == f.disabled_spec(),
    decreases depth,
{
    reveal_with_fuel(acquired_n, 2);
    assert(FLAGS_IF == 0x200u64);
    if depth > 1 {
        lemma_acquired_is_disabled(f, (depth - 1) as nat);
        let b = f.bits;
        assert((b & !0x200u64) & !0x200u64 == b & !0x200u64) by (bit_vector);
    }
}

proof fn lemma_disable_then_restore(x: InterruptFlags)
    ensures
        x.disabled_spec().restored_spec(x) == x,
{
    let b = x.bits;
    assert((b & !0x200u64) | (b & 0x200u64) == b) by (bit_vector);
    assert(FLAGS_IF == 0x200u64);
}

/// `n` locks taken in order from flags `cpus[0]`, then released
/// innermost first. `before[i]`, `held[i]` and `after[i]` are lock `i`
/// before its acquisition, while held and after its release; `cpus[i]` are
/// the flags before acquisition `i`, and `cpus[n + j]` the flags once the
/// `j` innermost guards are released.
pub open spec fn nested_run<T>(
    before: Seq<SpinLock<T>>,
    held: Seq<SpinLock<T>>,
    after: Seq<SpinLock<T>>,
    cpus: Seq<InterruptFlags>,
    sites: Seq<Option<CapturedBacktrace>>,
    rs: Seq<Result<SpinLockGuard, DeadLock>>,
    n: nat,
) -> bool {
    &&& before.len() == n && held.len() == n && after.len() == n
    &&& sites.len() == n && rs.len() == n
    &&& cpus.len() == 2 * n + 1
    &&& forall|i: int|
        0 <= i < n ==> !(#[trigger] before[i]).is_held() && before[i].lock_step(
            cpus[i],
            sites[i],
            held[i],
            cpus[i + 1],
            rs[i],
        )
    &&& forall|j: int|
        0 <= j < n ==> (#[trigger] held[n - 1 - j]).release_step(
            rs[n - 1 - j]->Ok_0,
            cpus[n + j],
            after[n - 1 - j],
            cpus[n + j + 1],
        )
}

proof fn lemma_nested_acquire<T>(
    before: Seq<SpinLock<T>>,
    held: Seq<SpinLock<T>>,
    after: Seq<SpinLock<T>>,
    cpus: Seq<InterruptFlags>,
    sites: Seq<Option<CapturedBacktrace>>,
    rs: Seq<Result<SpinLockGuard, DeadLock>>,
    n: nat,
    i: nat,
)
    requires
        nested_run(before, held, after, cpus, sites, rs, n),
        i <= n,
    ensures
        cpus[i as int] == acquired_n(cpus[0], i),
    decreases i,
{
    if i > 0 {
        lemma_nested_acquire(before, held, after, cpus, sites, rs, n, (i - 1) as nat);
        assert(!before[i - 1].is_held());
    }
}

proof fn lemma_nested_release<T>(
    before: Seq<SpinLock<T>>,
    held: Seq<SpinLock<T>>,
    after: Seq<SpinLock<T>>,
    cpus: Seq<InterruptFlags>,
    sites: Seq<Option<CapturedBacktrace>>,
    rs: Seq<Result<SpinLockGuard, DeadLock>>,
    n: nat,
    j: nat,
)
    requires
        nested_run(before, held, after, cpus, sites, rs, n),
        j <= n,
    ensures
        cpus[(n + j) as int] == acquired_n(cpus[0], (n - j) as nat),
    decreases j,
{
    if j == 0 {
        lemma_nested_acquire(before, held, after, cpus, sites, rs, n, n);
    } else {
        let jj = (j - 1) as nat;
        lemma_nested_release(before, held, after, cpus, sites, rs, n, jj);
        let i = n - 1 - jj;
        assert(!before[i].is_held());
        assert(held[n - 1 - jj].release_step(
            rs[n - 1 - jj]->Ok_0,
            cpus[(n + jj) as int],
            after[n - 1 - jj],
            cpus[(n + jj + 1) as int],
        ));
        lemma_nested_acquire(before, held, after, cpus, sites, rs, n, (n - j) as nat);
        let x = acquired_n(cpus[0], (n - j) as nat);
        assert(acquired_n(cpus[0], (n - jj) as nat) == x.disabled_spec());
        lemma_disable_then_restore(x);
    }
}

/// However many locks nest: every acquisition succeeds; after each inner
/// release interrupts are still off, the flags being those the still live
/// guards left; and the outermost release gives back exactly the flags seen
/// before the first lock was taken.
pub proof fn lemma_nested_locks<T>(
    before: Seq<SpinLock<T>>,
    held: Seq<SpinLock<T>>,
    after: Seq<SpinLock<T>>,
    cpus: Seq<InterruptFlags>,
    sites: Seq<Option<CapturedBacktrace>>,
    rs: Seq<Result<SpinLockGuard, DeadLock>>,
    n: nat,
)
    requires
        nested_run(before, held, after, cpus, sites, rs, n),
    ensures
        forall|i: int| 0 <= i < n ==> (#[trigger] rs[i]) is Ok,
        forall|j: int| 0 <= j < n ==> !(#[trigger] cpus[n + j]).enabled(),
        cpus[(2 * n) as int] == cpus[0],
{
    assert forall|i: int| 0 <= i < n implies (#[trigger] rs[i]) is Ok by {
        assert(!before[i].is_held());
    }
    assert forall|j: int| 0 <= j < n implies !(#[trigger] cpus[n + j]).enabled() by {
        lemma_nested_release(before, held, after, cpus, sites, rs, n, j as nat);
        lemma_acquired_is_disabled(cpus[0], (n - j) as nat);
        let b = cpus[0].bits;
        assert((b & !0x200u64) & 0x200u64 == 0) by (bit_vector);
        assert(FLAGS_IF == 0x200u64);
    }
    lemma_nested_release(before, held, after, cpus, sites, rs, n, n);
    assert(2 * n == n + n);
}

/// Locks A and B taken in that order and released in reverse leave the
/// flags as they were before A was taken, and the values unchanged.
pub proof fn lemma_two_nested_locks<T, U>(
    a0: SpinLock<T>,
    b0: SpinLock<U>,
    cpu0: InterruptFlags,
    sa: Option<CapturedBacktrace>,
    sb: Option<CapturedBacktrace>,
    a1: SpinLock<T>,
    cpu1: InterruptFlags,
    ra: Result<SpinLockGuard, DeadLock>,
    b1: SpinLock<U>,
    cpu2: InterruptFlags,
    rb: Result<SpinLockGuard, DeadLock>,
    b2: SpinLock<U>,
    cpu3: InterruptFlags,
    a2: SpinLock<T>,
    cpu4: InterruptFlags,
)
    requires
        !a0.is_held(),
        !b0.is_held(),
        a0.lock_step(cpu0, sa, a1, cpu1, ra),
        b0.lock_step(cpu1, sb, b1, cpu2, rb),
        b1.release_step(rb->Ok_0, cpu2, b2, cpu3),
        a1.release_step(ra->Ok_0, cpu3, a2, cpu4),
    ensures
        ra is Ok,
        rb is Ok,
        cpu4 == cpu0,
        a2.value() == a0.value(),
        b2.value() == b0.value(),
        !a2.is_held(),
        !b2.is_held(),
{
    lemma_disable_then_restore(cpu1);
    lemma_disable_then_restore(cpu0);
}

/// While a guard of a lock is live, every further acquisition of it is
/// refused with the first holder's call site, and changes nothing.
pub proof fn lemma_one_guard_at_a_time<T>(
    l0: SpinLock<T>,
    cpu0: InterruptFlags,
    s1: Option<CapturedBacktrace>,
    l1: SpinLock<T>,
    cpu1: InterruptFlags,
    r1: Result<SpinLockGuard, DeadLock>,
    s2: Option<CapturedBacktrace>,
    l2: SpinLock<T>,
    cpu2: InterruptFlags,
    r2: Result<SpinLockGuard, DeadLock>,
)
    requires
        l0.lock_step(cpu0, s1, l1, cpu1, r1),
        r1 is Ok,
        l1.lock_step(cpu1, s2, l2, cpu2, r2),
    ensures
        r2 == Err::<SpinLockGuard, DeadLock>(DeadLock { holder: s1 }),
        l2 == l1,
        cpu2 == cpu1,
{
}

/// One operation of a run on a lock.
pub enum LockOp {
    /// An acquisition, with the call site it records.
    Acquire(Option<CapturedBacktrace>),
    /// The release of a live guard.
    Release,
}

/// `ls[i + 1]` and `cpus[i + 1]` follow from `ls[i]` and `cpus[i]` by
/// `ops[i]`: an acquisition that returned `rs[i]`, or the release of the
/// guard `gs[i]` while the lock is held.
pub open spec fn valid_run<T>(
    ls: Seq<SpinLock<T>>,
    cpus: Seq<InterruptFlags>,
    ops: Seq<LockOp>,
    rs: Seq<Result<SpinLockGuard, DeadLock>>,
    gs: Seq<SpinLockGuard>,
) -> bool {
    &&& ls.len() == ops.len() + 1
    &&& cpus.len() == ls.len()
    &&& rs.len() == ops.len()
    &&& gs.len() == ops.len()
    &&& forall|i: int|
        0 <= i < ops.len() ==> match #[trigger] ops[i] {
            LockOp::Acquire(s) => ls[i].lock_step(cpus[i], s, ls[i + 1], cpus[i + 1], rs[i]),
            LockOp::Release => ls[i].is_held() && gs[i].lock_id() == ls[i].id()
                && ls[i].release_step(
                gs[i],
                cpus[i],
                ls[i + 1],
                cpus[i + 1],
            ),
        }
}

/// The guards handed out by the first `n` operations and not released by
/// them.
pub open spec fn live_guards(
    ops: Seq<LockOp>,
    rs: Seq<Result<SpinLockGuard, DeadLock>>,
    n: nat,
) -> int
    decreases n,
{
    if n == 0 {
        0
    } else {
        live_guards(ops, rs, (n - 1) as nat) + match ops[n - 1] {
            LockOp::Acquire(_) => if rs[n - 1] is Ok {
                1int
            } else {
                0int
            },
            LockOp::Release => -1int,
        }
    }
}

proof fn lemma_live_guards_prefix<T>(
    ls: Seq<SpinLock<T>>,
    cpus: Seq<InterruptFlags>,
    ops: Seq<LockOp>,
    rs: Seq<Result<SpinLockGuard, DeadLock>>,
    gs: Seq<SpinLockGuard>,
    n: nat,
)
    requires
        valid_run(ls, cpus, ops, rs, gs),
        !ls[0].is_held(),
        n <= ops.len(),
    ensures
        live_guards(ops, rs, n) == if ls[n as int].is_held() {
            1int
        } else {
            0int
        },
    decreases n,
{
    if n > 0 {
        let i = n - 1;
        lemma_live_guards_prefix(ls, cpus, ops, rs, gs, i as nat);
        assert(match ops[i] {
            LockOp::Acquire(s) => ls[i].lock_step(cpus[i], s, ls[i + 1], cpus[i + 1], rs[i]),
            LockOp::Release => ls[i].is_held() && gs[i].lock_id() == ls[i].id()
                && ls[i].release_step(
                gs[i],
                cpus[i],
                ls[i + 1],
                cpus[i + 1],
            ),
        });
    }
}

/// Over any run of acquisitions and releases on one lock that starts free,
/// at every point at most one guard is live, and one is live exactly when
/// the lock is held.
pub proof fn lemma_at_most_one_live_guard<T>(
    ls: Seq<SpinLock<T>>,
    cpus: Seq<InterruptFlags>,
    ops: Seq<LockOp>,
    rs: Seq<Result<SpinLockGuard, DeadLock>>,
    gs: Seq<SpinLockGuard>,
)
    requires
        valid_run(ls, cpus, ops, rs, gs),
        !ls[0].is_held(),
    ensures
        forall|n: nat|
            n <= ops.len() ==> 0 <= #[trigger] live_guards(ops, rs, n) <= 1 && (live_guards(
                ops,
                rs,
                n,
            ) == 1) == ls[n as int].is_held(),
{
    assert forall|n: nat| n <= ops.len() implies 0 <= #[trigger] live_guards(ops, rs, n) <= 1 && (
    live_guards(ops, rs, n) == 1) == ls[n as int].is_held() by {
        lemma_live_guards_prefix(ls, cpus, ops, rs, gs, n);
    }
}

/// Acquiring a lock that is held, as code that holds it would, reports the
/// dead lock with the holder's record, and leaves the lock, its value and
/// the interrupt state untouched.
pub proof fn lemma_reentrant_reported<T>(
    l0: SpinLock<T>,
    cpu0: InterruptFlags,
    s: Option<CapturedBacktrace>,
    l1: SpinLock<T>,
    cpu1: InterruptFlags,
    r: Result<SpinLockGuard, DeadLock>,
)
    requires
        l0.is_held(),
        l0.lock_step(cpu0, s, l1, cpu1, r),
    ensures
        r == Err::<SpinLockGuard, DeadLock>(DeadLock { holder: l0.holder() }),
        l1.value() == l0.value(),
        l1 == l0,
        cpu1 == cpu0,
{
}

/// `is_locked` holds from a successful acquisition until its guard is
/// released, and not after.
pub proof fn lemma_held_between_lock_and_release<T>(
    l0: SpinLock<T>,
    cpu0: InterruptFlags,
    s: Option<CapturedBacktrace>,
    l1: SpinLock<T>,
    cpu1: InterruptFlags,
    r: Result<SpinLockGuard, DeadLock>,
    l2: SpinLock<T>,
    cpu2: InterruptFlags,
)
    requires
        !l0.is_held(),
        l0.lock_step(cpu0, s, l1, cpu1, r),
        l1.release_step(r->Ok_0, cpu1, l2, cpu2),
    ensures
        r is Ok,
        l1.is_held(),
        !l2.is_held(),
{
}

/// Without a call site (the heap is not up), a free lock is still taken:
/// it is held, records nobody, keeps its value and stays well formed.
pub proof fn lemma_lock_without_snapshot<T>(
    l0: SpinLock<T>,
    cpu0: InterruptFlags,
    l1: SpinLock<T>,
    cpu1: InterruptFlags,
    r: Result<SpinLockGuard, DeadLock>,
)
    requires
        l0.wf(),
        !l0.is_held(),
        l0.lock_step(cpu0, None, l1, cpu1, r),
    ensures
        r is Ok,
        l1.is_held(),
        l1.holder() is None,
        l1.wf(),
        l1.value() == l0.value(),
{
}

/// What a guard leaves in the value is what the next guard reads.
pub proof fn lemma_value_survives_release<T>(
    l1: SpinLock<T>,
    g: SpinLockGuard,
    cpu1: InterruptFlags,
    l2: SpinLock<T>,
    cpu2: InterruptFlags,
    s: Option<CapturedBacktrace>,
    l3: SpinLock<T>,
    cpu3: InterruptFlags,
    r: Result<SpinLockGuard, DeadLock>,
)
    requires
        l1.release_step(g, cpu1, l2, cpu2),
        l2.lock_step(cpu2, s, l3, cpu3, r),
    ensures
        r is Ok,
        l3.value() == l1.value(),
{
}

} // verus!
