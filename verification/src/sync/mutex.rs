//! The mutex state machine, and the laws it obeys.

use vstd::prelude::*;
use std::collections::VecDeque;
use crate::thread::ThreadId;

verus! {

/// How a mutex treats an owner that locks it again.
#[derive(Clone, Copy, PartialEq, Eq, Debug, Structural)]
pub enum MutexKind {
    /// The owner blocks forever.
    Normal,
    /// The owner acquires the mutex once more.
    Recursive,
    /// The call fails.
    ErrorCheck,
}

/// What an attempt to acquire a lock came to.
#[derive(Clone, Copy, PartialEq, Eq, Debug, Structural)]
pub enum LockOutcome {
    /// The caller now holds the lock.
    Acquired,
    /// The caller was put on the lock's waiting queue and has to block.
    Blocked,
    /// The lock is held and the caller asked not to block.
    Busy,
    /// The caller owns this error-checking mutex already.
    AlreadyLockedByCaller,
    /// The caller holds the lock as often as can be counted.
    TooManyRecursions,
}

/// What an unlock of a mutex came to.
#[derive(Clone, Copy, PartialEq, Eq, Debug, Structural)]
pub enum MutexUnlock {
    /// The caller does not own the mutex; nothing changed.
    NotOwner,
    /// The caller still holds the mutex, once less than before.
    StillHeld,
    /// The mutex is free and nobody waited for it.
    Released,
    /// The mutex is free, and the given thread, the one that had waited
    /// longest, has left the queue: it has to be woken, and asks for the
    /// mutex again when it runs.
    Woke(ThreadId),
}

/// A mutex.
#[derive(Debug)]
pub struct Mutex {
    pub owner: Option<ThreadId>,
    pub hold_count: u32,
    pub kind: MutexKind,
    /// The threads blocked on the mutex, the longest waiting first.
    pub queue: VecDeque<ThreadId>,
}

pub struct MutexView {
    pub owner: Option<ThreadId>,
    pub hold_count: u32,
    pub kind: MutexKind,
    pub queue: Seq<ThreadId>,
}

impl View for Mutex {
    type V = MutexView;

    open spec fn view(&self) -> MutexView {
        MutexView {
            owner: self.owner,
            hold_count: self.hold_count,
            kind: self.kind,
            queue: self.queue@,
        }
    }
}

impl MutexView {
    /// A free mutex of the given kind on which nobody waits.
    pub open spec fn new(kind: MutexKind) -> MutexView {
        MutexView { owner: None, hold_count: 0, kind, queue: Seq::empty() }
    }

    /// The mutex is held exactly when it has an owner.
    pub open spec fn wf(self) -> bool {
        (self.hold_count > 0) == self.owner.is_some()
    }

    /// Every thread the mutex names has an identity below `n`.
    pub open spec fn ids_below(self, n: nat) -> bool {
        &&& self.owner matches Some(o) ==> o < n
        &&& forall|i: int| 0 <= i < self.queue.len() ==> self.queue[i] < n
    }

    pub open spec fn is_locked(self) -> bool {
        self.owner.is_some()
    }

    /// How often thread `t` holds the mutex.
    pub open spec fn holds(self, t: ThreadId) -> nat {
        if self.owner == Some(t) {
            self.hold_count as nat
        } else {
            0
        }
    }

    /// Thread `t` asks for the mutex and is ready to block.
    pub open spec fn lock(self, t: ThreadId) -> (MutexView, LockOutcome) {
        match self.owner {
            None => (MutexView { owner: Some(t), hold_count: 1, ..self }, LockOutcome::Acquired),
            Some(o) => if o == t && self.kind == MutexKind::Recursive {
                if self.hold_count < u32::MAX {
                    (
                        MutexView { hold_count: (self.hold_count + 1) as u32, ..self },
                        LockOutcome::Acquired,
                    )
                } else {
                    (self, LockOutcome::TooManyRecursions)
                }
            } else if o == t && self.kind == MutexKind::ErrorCheck {
                (self, LockOutcome::AlreadyLockedByCaller)
            } else {
                (MutexView { queue: self.queue.push(t), ..self }, LockOutcome::Blocked)
            },
        }
    }

    /// Thread `t` asks for the mutex and does not want to block.
    pub open spec fn try_lock(self, t: ThreadId) -> (MutexView, LockOutcome) {
        if self.lock(t).1 == LockOutcome::Blocked {
            (self, LockOutcome::Busy)
        } else {
            self.lock(t)
        }
    }

    /// Thread `t` gives the mutex up once. With its last hold the owner is
    /// cleared, and the first thread of the queue, if there is one, leaves
    /// the queue to be woken.
    pub open spec fn unlock(self, t: ThreadId) -> (MutexView, MutexUnlock) {
        if self.owner != Some(t) {
            (self, MutexUnlock::NotOwner)
        } else if self.hold_count > 1 {
            (MutexView { hold_count: (self.hold_count - 1) as u32, ..self }, MutexUnlock::StillHeld)
        } else if self.queue.len() > 0 {
            (
                MutexView {
                    owner: None,
                    hold_count: 0,
                    queue: self.queue.subrange(1, self.queue.len() as int),
                    ..self
                },
                MutexUnlock::Woke(self.queue[0]),
            )
        } else {
            (MutexView { owner: None, hold_count: 0, ..self }, MutexUnlock::Released)
        }
    }

    /// Thread `t` locks the mutex `n` times in a row.
    pub open spec fn lock_n(self, t: ThreadId, n: nat) -> MutexView
        decreases n,
    {
        if n == 0 {
            self
        } else {
            self.lock_n(t, (n - 1) as nat).lock(t).0
        }
    }

    /// Thread `t` unlocks the mutex `n` times in a row.
    pub open spec fn unlock_n(self, t: ThreadId, n: nat) -> MutexView
        decreases n,
    {
        if n == 0 {
            self
        } else {
            self.unlock_n(t, (n - 1) as nat).unlock(t).0
        }
    }
}

impl Mutex {
    /// A free mutex of the given kind.
    pub fn new(kind: MutexKind) -> (m: Mutex)
        ensures
            m@ == MutexView::new(kind),
    {
        Mutex { owner: None, hold_count: 0, kind, queue: VecDeque::new() }
    }

    pub fn is_locked(&self) -> (r: bool)
        ensures
            r == self@.is_locked(),
    {
        self.owner.is_some()
    }

    /// Whether thread `t` owns the mutex.
    pub fn is_owned_by(&self, t: ThreadId) -> (r: bool)
        ensures
            r == (self@.owner == Some(t)),
    {
        match self.owner {
            Some(o) => o == t,
            None => false,
        }
    }

    /// Thread `t` asks for the mutex and is ready to block: a free mutex is
    /// acquired, a recursive mutex is acquired again by its owner, an
    /// error-checking mutex refuses its owner, and in every other case the
    /// caller joins the back of the queue.
    pub fn lock(&mut self, t: ThreadId) -> (r: LockOutcome)
        ensures
            (final(self)@, r) == old(self)@.lock(t),
    {
        match self.owner {
            None => {
                self.owner = Some(t);
                self.hold_count = 1;
                LockOutcome::Acquired
            },
            Some(o) => {
                if o == t && self.kind == MutexKind::Recursive {
                    if self.hold_count < u32::MAX {
                        self.hold_count = self.hold_count + 1;
                        LockOutcome::Acquired
                    } else {
                        LockOutcome::TooManyRecursions
                    }
                } else if o == t && self.kind == MutexKind::ErrorCheck {
                    LockOutcome::AlreadyLockedByCaller
                } else {
                    self.queue.push_back(t);
                    LockOutcome::Blocked
                }
            },
        }
    }

    /// As `lock`, but where `lock` would block the mutex stays as it is and
    /// the caller is told that it is busy.
    pub fn try_lock(&mut self, t: ThreadId) -> (r: LockOutcome)
        ensures
            (final(self)@, r) == old(self)@.try_lock(t),
    {
        match self.owner {
            None => {
                self.owner = Some(t);
                self.hold_count = 1;
                LockOutcome::Acquired
            },
            Some(o) => {
                if o == t && self.kind == MutexKind::Recursive {
                    if self.hold_count < u32::MAX {
                        self.hold_count = self.hold_count + 1;
                        LockOutcome::Acquired
                    } else {
                        LockOutcome::TooManyRecursions
                    }
                } else if o == t && self.kind == MutexKind::ErrorCheck {
                    LockOutcome::AlreadyLockedByCaller
                } else {
                    LockOutcome::Busy
                }
            },
        }
    }

    /// Thread `t` gives the mutex up once. When its last hold goes, the
    /// mutex is free, and the thread that has waited longest leaves the
    /// queue to be woken; it does not own the mutex, and asks for it again.
    pub fn unlock(&mut self, t: ThreadId) -> (r: MutexUnlock)
        ensures
            (final(self)@, r) == old(self)@.unlock(t),
    {
        if !self.is_owned_by(t) {
            MutexUnlock::NotOwner
        } else if self.hold_count > 1 {
            self.hold_count = self.hold_count - 1;
            MutexUnlock::StillHeld
        } else {
            match self.queue.pop_front() {
                Some(next) => {
                    self.owner = None;
                    self.hold_count = 0;
                    MutexUnlock::Woke(next)
                },
                None => {
                    self.owner = None;
                    self.hold_count = 0;
                    MutexUnlock::Released
                },
            }
        }
    }
}

/// One call on a mutex.
pub enum MutexOp {
    Lock(ThreadId),
    TryLock(ThreadId),
    Unlock(ThreadId),
}

impl MutexView {
    /// The mutex after the call `op`.
    pub open spec fn step(self, op: MutexOp) -> MutexView {
        match op {
            MutexOp::Lock(t) => self.lock(t).0,
            MutexOp::TryLock(t) => self.try_lock(t).0,
            MutexOp::Unlock(t) => self.unlock(t).0,
        }
    }

    /// The mutex after the calls `ops`, made in order.
    pub open spec fn run(self, ops: Seq<MutexOp>) -> MutexView
        decreases ops.len(),
    {
        if ops.len() == 0 {
            self
        } else {
            self.run(ops.drop_last()).step(ops.last())
        }
    }

    /// By how much the call `op` changes the number of times thread `t`
    /// holds the mutex, judged by what the call reports: a successful lock by
    /// `t` counts one up, a successful unlock by `t` counts one down.
    pub open spec fn gain(self, op: MutexOp, t: ThreadId) -> int {
        match op {
            MutexOp::Lock(u) => if u == t && self.lock(u).1 == LockOutcome::Acquired {
                1
            } else {
                0
            },
            MutexOp::TryLock(u) => if u == t && self.try_lock(u).1 == LockOutcome::Acquired {
                1
            } else {
                0
            },
            MutexOp::Unlock(u) => {
                if u == t && self.unlock(u).1 != MutexUnlock::NotOwner {
                    -1
                } else {
                    0
                }
            },
        }
    }

    /// How often thread `t` has acquired the mutex and not yet released it
    /// in the course of the calls `ops`, judged by what the calls reported.
    pub open spec fn acquired(self, ops: Seq<MutexOp>, t: ThreadId) -> int
        decreases ops.len(),
    {
        if ops.len() == 0 {
            0
        } else {
            self.acquired(ops.drop_last(), t) + self.run(ops.drop_last()).gain(ops.last(), t)
        }
    }
}

/// Every call on a mutex keeps it well formed.
pub proof fn lemma_mutex_step_wf(m: MutexView, op: MutexOp)
    requires
        m.wf(),
    ensures
        m.step(op).wf(),
{
}

/// Every call on a mutex changes the number of holds of every thread by what
/// the call reports.
pub proof fn lemma_mutex_step_holds(m: MutexView, op: MutexOp, t: ThreadId)
    requires
        m.wf(),
    ensures
        m.step(op).holds(t) == m.holds(t) + m.gain(op, t),
{
}

/// Mutual exclusion. After any sequence of calls on a mutex that starts out
/// free, the mutex is well formed, and a thread has acquired it more often
/// than it released it exactly as often as the mutex records: the owner as
/// often as the hold count says, every other thread not at all. So at most
/// one thread holds the mutex at any instant.
pub proof fn lemma_mutex_exclusion(kind: MutexKind, ops: Seq<MutexOp>, t: ThreadId)
    ensures
        MutexView::new(kind).run(ops).wf(),
        MutexView::new(kind).acquired(ops, t) == MutexView::new(kind).run(ops).holds(t),
    decreases ops.len(),
{
    let m = MutexView::new(kind);
    if ops.len() > 0 {
        lemma_mutex_exclusion(kind, ops.drop_last(), t);
        lemma_mutex_step_wf(m.run(ops.drop_last()), ops.last());
        lemma_mutex_step_holds(m.run(ops.drop_last()), ops.last(), t);
    }
}

/// After any sequence of calls on a mutex that starts out free, two
/// different threads never both hold it.
pub proof fn lemma_mutex_single_holder(
    kind: MutexKind,
    ops: Seq<MutexOp>,
    t: ThreadId,
    u: ThreadId,
)
    requires
        t != u,
    ensures
        !(MutexView::new(kind).acquired(ops, t) > 0 && MutexView::new(kind).acquired(ops, u) > 0),
{
    lemma_mutex_exclusion(kind, ops, t);
    lemma_mutex_exclusion(kind, ops, u);
}

/// An unlock succeeds only for the thread recorded as owner; for any other
/// thread it fails and changes nothing.
pub proof fn lemma_unlock_by_owner(m: MutexView, t: ThreadId)
    ensures
        m.unlock(t).1 != MutexUnlock::NotOwner <==> m.owner == Some(t),
        m.unlock(t).1 == MutexUnlock::NotOwner ==> m.unlock(t).0 == m,
{
}

/// A free recursive mutex that thread `t` locks `n` times is held by `t`
/// exactly `n` times.
pub proof fn lemma_recursive_lock_n(m: MutexView, t: ThreadId, n: nat)
    requires
        m.kind == MutexKind::Recursive,
        m.owner is None,
        m.hold_count == 0,
        n <= u32::MAX,
    ensures
        m.lock_n(t, n) == if n == 0 {
            m
        } else {
            MutexView { owner: Some(t), hold_count: n as u32, ..m }
        },
    decreases n,
{
    if n > 0 {
        lemma_recursive_lock_n(m, t, (n - 1) as nat);
    }
}

/// A mutex that thread `t` holds `n` times is still held by `t`, `n - k`
/// times, after `k < n` unlocks.
pub proof fn lemma_unlock_n_partial(m: MutexView, t: ThreadId, k: nat)
    requires
        m.owner == Some(t),
        k < m.hold_count,
    ensures
        m.unlock_n(t, k) == (MutexView { hold_count: (m.hold_count - k) as u32, ..m }),
    decreases k,
{
    if k > 0 {
        lemma_unlock_n_partial(m, t, (k - 1) as nat);
    }
}

/// A mutex that thread `t` holds `n` times needs exactly `n` unlocks before
/// another thread can acquire it, whoever waits for it. After fewer, `t`
/// still owns it, another thread that tries finds it busy, and one that locks
/// has to block. After `n`, the owner is cleared, the other thread acquires
/// the mutex, and of the threads that waited the first, and only the first,
/// has left the queue to be woken.
pub proof fn lemma_held_needs_n_unlocks(m: MutexView, t: ThreadId, u: ThreadId, k: nat)
    requires
        t != u,
        m.owner == Some(t),
        1 <= m.hold_count,
        k <= m.hold_count,
    ensures
        ({
            let after = m.unlock_n(t, k);
            &&& k < m.hold_count ==> {
                &&& after.owner == Some(t)
                &&& after.hold_count == m.hold_count - k
                &&& after.queue == m.queue
                &&& after.try_lock(u).1 == LockOutcome::Busy
                &&& after.lock(u).1 == LockOutcome::Blocked
            }
            &&& k == m.hold_count ==> {
                &&& after.owner is None
                &&& after.hold_count == 0
                &&& after.try_lock(u).1 == LockOutcome::Acquired
                &&& after.lock(u).1 == LockOutcome::Acquired
                &&& m.unlock_n(t, (k - 1) as nat).unlock(t).1 == if m.queue.len() > 0 {
                    MutexUnlock::Woke(m.queue[0])
                } else {
                    MutexUnlock::Released
                }
                &&& after.queue == if m.queue.len() > 0 {
                    m.queue.subrange(1, m.queue.len() as int)
                } else {
                    m.queue
                }
            }
        }),
{
    if k < m.hold_count {
        lemma_unlock_n_partial(m, t, k);
    } else {
        lemma_unlock_n_partial(m, t, (k - 1) as nat);
        assert(m.unlock_n(t, k) == m.unlock_n(t, (k - 1) as nat).unlock(t).0);
    }
}

/// A recursive mutex locked `n` times by its owner needs exactly `n` unlocks
/// before another thread can acquire it, whether or not threads wait for it:
/// after fewer, another thread that tries finds it busy and one that locks
/// has to block; after `n`, the owner is cleared and the other thread
/// acquires the mutex.
pub proof fn lemma_recursive_needs_n_unlocks(
    m: MutexView,
    t: ThreadId,
    u: ThreadId,
    n: nat,
    k: nat,
)
    requires
        m.kind == MutexKind::Recursive,
        m.owner is None,
        m.hold_count == 0,
        t != u,
        1 <= n <= u32::MAX,
        k <= n,
    ensures
        ({
            let after = m.lock_n(t, n).unlock_n(t, k);
            &&& m.lock_n(t, n).owner == Some(t)
            &&& m.lock_n(t, n).hold_count == n
            &&& k < n ==> after.owner == Some(t) && after.hold_count == n - k && after.try_lock(u).1
                == LockOutcome::Busy && after.lock(u).1 == LockOutcome::Blocked
            &&& k == n ==> after.owner is None && after.hold_count == 0 && after.try_lock(u).1
                == LockOutcome::Acquired && after.lock(u).1 == LockOutcome::Acquired
        }),
{
    lemma_recursive_lock_n(m, t, n);
    lemma_held_needs_n_unlocks(m.lock_n(t, n), t, u, k);
}

/// An error-checking mutex that its owner locks again refuses at once: the
/// caller is not queued and the mutex is unchanged.
pub proof fn lemma_errorcheck_relock_fails(m: MutexView, t: ThreadId)
    requires
        m.kind == MutexKind::ErrorCheck,
        m.owner == Some(t),
    ensures
        m.lock(t) == (m, LockOutcome::AlreadyLockedByCaller),
        m.try_lock(t) == (m, LockOutcome::AlreadyLockedByCaller),
{
}

} // verus!
