//! The state machines of the emulated synchronization objects: mutexes,
//! read-write locks and condition variables.
//!
//! Each object is a plain state machine over thread identities. An operation
//! never suspends anything itself: it reports whether the caller has to block
//! and which waiting threads have to be woken, and the caller updates the
//! thread table accordingly. An object never passes to a thread that waits
//! for it: a thread that is woken asks again, by making its call again.

pub mod mutex;
pub mod rwlock;
pub mod condvar;
pub mod consistency;

use vstd::prelude::*;
use std::collections::HashMap;
use std::collections::VecDeque;
use crate::errors::{InterpError, InterpResult, UbKind, UnsupportedKind};
use crate::eval_context::{MachineView, MiriEvalContext};
use crate::sync::condvar::{Condvar, CondvarView, CondvarWaiter};
use crate::sync::mutex::{
    lemma_mutex_step_wf, LockOutcome, Mutex, MutexKind, MutexOp, MutexUnlock, MutexView,
};
use crate::sync::rwlock::{lemma_rwlock_step_wf, RwLock, RwLockOp, RwLockView};
use crate::thread::{BlockReason, ThreadId, ThreadState, ThreadView, Timeout, WaitResume};

verus! {

broadcast use vstd::std_specs::hash::group_hash_axioms;

/// The clock against which a condition variable measures its deadlines.
#[derive(Clone, Copy, PartialEq, Eq, Debug, Structural)]
pub enum ClockId {
    Realtime,
    Monotonic,
}

/// The registry of all synchronization objects, each under the guest
/// address of its control block. An object comes into being when it is
/// initialized. Initializing an address again puts a new object there.
#[derive(Debug)]
pub struct SynchronizationState {
    pub mutexes: HashMap<u64, Mutex>,
    pub rwlocks: HashMap<u64, RwLock>,
    pub condvars: HashMap<u64, Condvar>,
    /// Mutex attribute records: the kind that a mutex initialized from the
    /// record will have.
    pub mutexattrs: HashMap<u64, MutexKind>,
    /// Condition variable attribute records.
    pub condattrs: HashMap<u64, ClockId>,
}

pub struct SyncView {
    pub mutexes: Map<u64, MutexView>,
    pub rwlocks: Map<u64, RwLockView>,
    pub condvars: Map<u64, CondvarView>,
    pub mutexattrs: Map<u64, MutexKind>,
    pub condattrs: Map<u64, ClockId>,
}

impl View for SynchronizationState {
    type V = SyncView;

    open spec fn view(&self) -> SyncView {
        SyncView {
            mutexes: self.mutexes@.map_values(|m: Mutex| m@),
            rwlocks: self.rwlocks@.map_values(|l: RwLock| l@),
            condvars: self.condvars@.map_values(|c: Condvar| c@),
            mutexattrs: self.mutexattrs@,
            condattrs: self.condattrs@,
        }
    }
}

impl SyncView {
    /// The registry without any object.
    pub open spec fn new() -> SyncView {
        SyncView {
            mutexes: Map::empty(),
            rwlocks: Map::empty(),
            condvars: Map::empty(),
            mutexattrs: Map::empty(),
            condattrs: Map::empty(),
        }
    }

    /// Every object of the registry is well formed.
    pub open spec fn wf(self) -> bool {
        &&& forall|a: u64| self.mutexes.contains_key(a) ==> (#[trigger] self.mutexes[a]).wf()
        &&& forall|a: u64| self.rwlocks.contains_key(a) ==> (#[trigger] self.rwlocks[a]).wf()
    }
}

impl SynchronizationState {
    /// A registry without any object.
    pub fn new() -> (s: SynchronizationState)
        ensures
            s@ == SyncView::new(),
    {
        let s = SynchronizationState {
            mutexes: HashMap::new(),
            rwlocks: HashMap::new(),
            condvars: HashMap::new(),
            mutexattrs: HashMap::new(),
            condattrs: HashMap::new(),
        };
        assert(s@.mutexes =~= Map::empty());
        assert(s@.rwlocks =~= Map::empty());
        assert(s@.condvars =~= Map::empty());
        s
    }
}

/// What a call of a wait on a condition variable came to.
#[derive(Clone, Copy, PartialEq, Eq, Debug, Structural)]
pub enum WaitOutcome {
    /// The caller is blocked, on the condition variable or on the mutex that
    /// it has to reacquire, and makes the call again when it runs.
    Blocked,
    /// The caller was signalled and holds the mutex again: the wait is over.
    Signalled,
    /// The deadline passed and the caller holds the mutex again: the wait is
    /// over.
    TimedOut,
}

/// The error for an address that holds no synchronization object.
pub open spec fn uninit<T>() -> InterpResult<T> {
    Err(InterpError::UndefinedBehavior(UbKind::UninitializedSyncObject))
}

impl MachineView {
    /// The machine with the mutex at `addr` replaced.
    pub open spec fn with_mutex(self, addr: u64, m: MutexView) -> MachineView {
        MachineView {
            sync: SyncView { mutexes: self.sync.mutexes.insert(addr, m), ..self.sync },
            ..self
        }
    }

    /// The machine with the read-write lock at `addr` replaced.
    pub open spec fn with_rwlock(self, addr: u64, l: RwLockView) -> MachineView {
        MachineView {
            sync: SyncView { rwlocks: self.sync.rwlocks.insert(addr, l), ..self.sync },
            ..self
        }
    }

    /// The machine with the condition variable at `addr` replaced.
    pub open spec fn with_condvar(self, addr: u64, c: CondvarView) -> MachineView {
        MachineView {
            sync: SyncView { condvars: self.sync.condvars.insert(addr, c), ..self.sync },
            ..self
        }
    }

    /// Thread `t` is blocked for `reason` from now on, under the deadline
    /// `timeout` if there is one.
    pub open spec fn block_until(self, t: ThreadId, reason: BlockReason, timeout: Option<Timeout>)
        -> MachineView {
        self.with_thread(
            t,
            ThreadView { state: ThreadState::Blocked(reason), timeout, ..self.threads[t as int] },
        )
    }

    /// A record of mutex attributes comes into being at `attr`, for a normal mutex.
    pub open spec fn mutexattr_init(self, attr: u64) -> MachineView {
        MachineView {
            sync: SyncView {
                mutexattrs: self.sync.mutexattrs.insert(attr, MutexKind::Normal),
                ..self.sync
            },
            ..self
        }
    }

    /// The record at `attr` is set to the given kind of mutex.
    pub open spec fn mutexattr_settype(self, attr: u64, kind: MutexKind) -> (
        MachineView,
        InterpResult<()>,
    ) {
        if self.sync.mutexattrs.contains_key(attr) {
            (
                MachineView {
                    sync: SyncView {
                        mutexattrs: self.sync.mutexattrs.insert(attr, kind),
                        ..self.sync
                    },
                    ..self
                },
                Ok(()),
            )
        } else {
            (self, uninit())
        }
    }

    /// The record at `attr` ceases to be.
    pub open spec fn mutexattr_destroy(self, attr: u64) -> (MachineView, InterpResult<()>) {
        if self.sync.mutexattrs.contains_key(attr) {
            (
                MachineView {
                    sync: SyncView { mutexattrs: self.sync.mutexattrs.remove(attr), ..self.sync },
                    ..self
                },
                Ok(()),
            )
        } else {
            (self, uninit())
        }
    }

    /// A free mutex comes into being at `addr`, of the kind that the record
    /// at `attr` names, or a normal one without a record. What was at `addr`
    /// before is gone.
    pub open spec fn mutex_init(self, addr: u64, attr: Option<u64>) -> (
        MachineView,
        InterpResult<()>,
    ) {
        match attr {
            Some(a) => if self.sync.mutexattrs.contains_key(a) {
                (self.with_mutex(addr, MutexView::new(self.sync.mutexattrs[a])), Ok(()))
            } else {
                (self, uninit())
            },
            None => (self.with_mutex(addr, MutexView::new(MutexKind::Normal)), Ok(())),
        }
    }

    /// The active thread asks for the mutex at `addr`, and blocks where the
    /// mutex tells it to.
    pub open spec fn mutex_lock(self, addr: u64) -> (MachineView, InterpResult<LockOutcome>) {
        if !self.sync.mutexes.contains_key(addr) {
            (self, uninit())
        } else {
            let (m, out) = self.sync.mutexes[addr].lock(self.active_thread);
            let locked = self.with_mutex(addr, m);
            if out == LockOutcome::Blocked {
                (locked.block(self.active_thread, BlockReason::Mutex(addr)), Ok(out))
            } else {
                (locked, Ok(out))
            }
        }
    }

    /// The active thread asks for the mutex at `addr` without blocking.
    pub open spec fn mutex_trylock(self, addr: u64) -> (MachineView, InterpResult<LockOutcome>) {
        if !self.sync.mutexes.contains_key(addr) {
            (self, uninit())
        } else {
            let (m, out) = self.sync.mutexes[addr].try_lock(self.active_thread);
            (self.with_mutex(addr, m), Ok(out))
        }
    }

    /// Thread `t` gives up the mutex at `addr` once. With its last hold the
    /// mutex is free, and the thread that has waited longest for it is woken;
    /// that thread does not own the mutex, and asks for it again when it
    /// runs. The mutex must exist.
    pub open spec fn release_mutex(self, addr: u64, t: ThreadId) -> (MachineView, MutexUnlock) {
        let (m, out) = self.sync.mutexes[addr].unlock(t);
        let released = self.with_mutex(addr, m);
        match out {
            MutexUnlock::Woke(next) => (released.wake(next), out),
            _ => (released, out),
        }
    }

    /// The active thread unlocks the mutex at `addr`. Unlocking a mutex
    /// that the thread does not own is a violation and changes nothing.
    pub open spec fn mutex_unlock(self, addr: u64) -> (MachineView, InterpResult<()>) {
        if !self.sync.mutexes.contains_key(addr) {
            (self, uninit())
        } else if self.sync.mutexes[addr].owner != Some(self.active_thread) {
            (self, Err(InterpError::UndefinedBehavior(UbKind::MutexNotOwner)))
        } else {
            (self.release_mutex(addr, self.active_thread).0, Ok(()))
        }
    }

    /// The mutex at `addr` ceases to be. Destroying a locked mutex is a violation.
    pub open spec fn mutex_destroy(self, addr: u64) -> (MachineView, InterpResult<()>) {
        if !self.sync.mutexes.contains_key(addr) {
            (self, uninit())
        } else if self.sync.mutexes[addr].is_locked() {
            (self, Err(InterpError::UndefinedBehavior(UbKind::DestroyLockedMutex)))
        } else {
            (
                MachineView {
                    sync: SyncView { mutexes: self.sync.mutexes.remove(addr), ..self.sync },
                    ..self
                },
                Ok(()),
            )
        }
    }

    /// The read-write lock at `addr`. A lock has no initializing call: where
    /// there is none yet, a free lock is taken to be there.
    pub open spec fn rwlock_at(self, addr: u64) -> RwLockView {
        if self.sync.rwlocks.contains_key(addr) {
            self.sync.rwlocks[addr]
        } else {
            RwLockView::new()
        }
    }

    /// The active thread asks for the lock at `addr` as a reader, and
    /// blocks where the lock tells it to.
    pub open spec fn rwlock_read_lock(self, addr: u64) -> (MachineView, LockOutcome) {
        let (l, out) = self.rwlock_at(addr).read_lock(self.active_thread);
        let locked = self.with_rwlock(addr, l);
        if out == LockOutcome::Blocked {
            (locked.block(self.active_thread, BlockReason::RwLockRead(addr)), out)
        } else {
            (locked, out)
        }
    }

    /// The active thread asks for the lock at `addr` as a reader without blocking.
    pub open spec fn rwlock_try_read_lock(self, addr: u64) -> (MachineView, LockOutcome) {
        let (l, out) = self.rwlock_at(addr).try_read_lock(self.active_thread);
        (self.with_rwlock(addr, l), out)
    }

    /// The active thread asks for the lock at `addr` as the writer, and
    /// blocks where the lock tells it to.
    pub open spec fn rwlock_write_lock(self, addr: u64) -> (MachineView, LockOutcome) {
        let (l, out) = self.rwlock_at(addr).write_lock(self.active_thread);
        let locked = self.with_rwlock(addr, l);
        if out == LockOutcome::Blocked {
            (locked.block(self.active_thread, BlockReason::RwLockWrite(addr)), out)
        } else {
            (locked, out)
        }
    }

    /// The active thread asks for the lock at `addr` as the writer without blocking.
    pub open spec fn rwlock_try_write_lock(self, addr: u64) -> (MachineView, LockOutcome) {
        let (l, out) = self.rwlock_at(addr).try_write_lock(self.active_thread);
        (self.with_rwlock(addr, l), out)
    }

    /// The active thread gives up one hold on the lock at `addr`, and the
    /// threads that leave a queue of the lock are woken. Unlocking a lock
    /// that the thread does not hold is a violation and changes nothing.
    pub open spec fn rwlock_unlock(self, addr: u64) -> (MachineView, InterpResult<()>) {
        if !self.sync.rwlocks.contains_key(addr) {
            (self, uninit())
        } else {
            match self.sync.rwlocks[addr].unlock(self.active_thread) {
                (_, None) => (self, Err(InterpError::UndefinedBehavior(UbKind::RwLockNotHeld))),
                (l, Some(woken)) => (self.with_rwlock(addr, l).wake_all(woken), Ok(())),
            }
        }
    }

    /// The lock at `addr` ceases to be. Destroying a held lock is a violation.
    pub open spec fn rwlock_destroy(self, addr: u64) -> (MachineView, InterpResult<()>) {
        if !self.sync.rwlocks.contains_key(addr) {
            (self, uninit())
        } else if self.sync.rwlocks[addr].is_locked() {
            (self, Err(InterpError::UndefinedBehavior(UbKind::DestroyLockedRwLock)))
        } else {
            (
                MachineView {
                    sync: SyncView { rwlocks: self.sync.rwlocks.remove(addr), ..self.sync },
                    ..self
                },
                Ok(()),
            )
        }
    }

    /// A record of condition variable attributes comes into being at `attr`.
    pub open spec fn condattr_init(self, attr: u64) -> MachineView {
        MachineView {
            sync: SyncView {
                condattrs: self.sync.condattrs.insert(attr, ClockId::Realtime),
                ..self.sync
            },
            ..self
        }
    }

    /// The record at `attr` ceases to be.
    pub open spec fn condattr_destroy(self, attr: u64) -> (MachineView, InterpResult<()>) {
        if self.sync.condattrs.contains_key(attr) {
            (
                MachineView {
                    sync: SyncView { condattrs: self.sync.condattrs.remove(attr), ..self.sync },
                    ..self
                },
                Ok(()),
            )
        } else {
            (self, uninit())
        }
    }

    /// A condition variable without waiters comes into being at `addr`. A
    /// record of attributes that is named must exist.
    pub open spec fn cond_init(self, addr: u64, attr: Option<u64>) -> (
        MachineView,
        InterpResult<()>,
    ) {
        if attr matches Some(a) && !self.sync.condattrs.contains_key(a) {
            (self, uninit())
        } else {
            (self.with_condvar(addr, CondvarView::new()), Ok(()))
        }
    }

    /// Whether the active thread may wait on the condition variable at
    /// `cond` with the mutex at `mutex`: both must exist, and the thread must
    /// hold the mutex exactly once.
    pub open spec fn cond_wait_check(self, cond: u64, mutex: u64) -> InterpResult<()> {
        if !self.sync.condvars.contains_key(cond) || !self.sync.mutexes.contains_key(mutex) {
            uninit()
        } else if self.sync.mutexes[mutex].owner != Some(self.active_thread) {
            Err(InterpError::UndefinedBehavior(UbKind::CondWaitMutexNotOwned))
        } else if self.sync.mutexes[mutex].hold_count != 1 {
            Err(InterpError::Unsupported(UnsupportedKind::CondWaitRecursiveMutex))
        } else {
            Ok(())
        }
    }

    /// The active thread, woken from a wait, asks for the mutex that it
    /// waited with, as in a lock. If it gets the mutex its wait is over;
    /// otherwise it is blocked on the mutex, and asks again when it runs.
    pub open spec fn reacquire(self, resume: WaitResume) -> (MachineView, InterpResult<WaitOutcome>) {
        let t = self.active_thread;
        if !self.sync.mutexes.contains_key(resume.mutex) {
            (self, uninit())
        } else {
            let (m, out) = self.sync.mutexes[resume.mutex].lock(t);
            let locked = self.with_mutex(resume.mutex, m);
            if out == LockOutcome::Blocked {
                (locked.block(t, BlockReason::Mutex(resume.mutex)), Ok(WaitOutcome::Blocked))
            } else {
                (
                    locked.with_active(ThreadView { resume: None, ..self.active() }),
                    Ok(
                        if resume.timed_out {
                            WaitOutcome::TimedOut
                        } else {
                            WaitOutcome::Signalled
                        },
                    ),
                )
            }
        }
    }

    /// A call of a wait by the active thread. A thread that comes to wait
    /// releases the mutex, as in an unlock, and in the same step joins the
    /// queue of the condition variable, blocked under the deadline `timeout`
    /// if there is one. A thread that was woken from its wait, by a signal
    /// or by its deadline, makes the call again and reacquires the mutex, as
    /// in a lock, before the wait returns. On failure nothing has changed.
    pub open spec fn cond_wait(self, cond: u64, mutex: u64, timeout: Option<Timeout>) -> (
        MachineView,
        InterpResult<WaitOutcome>,
    ) {
        match self.active().resume {
            Some(resume) => self.reacquire(resume),
            None => match self.cond_wait_check(cond, mutex) {
                Err(e) => (self, Err(e)),
                Ok(()) => {
                    let released = self.release_mutex(mutex, self.active_thread).0;
                    let waiting = released.with_condvar(
                        cond,
                        released.sync.condvars[cond].wait(self.active_thread, mutex),
                    );
                    (
                        waiting.block_until(
                            self.active_thread,
                            BlockReason::Condvar { cond, mutex },
                            timeout,
                        ),
                        Ok(WaitOutcome::Blocked),
                    )
                },
            },
        }
    }

    /// The waiter `w` has left the queue of its condition variable: its
    /// thread runs again, with the mutex still to reacquire, and any deadline
    /// it waited under is dropped.
    pub open spec fn resume_waiter(self, w: CondvarWaiter, timed_out: bool) -> MachineView {
        self.with_thread(
            w.thread,
            ThreadView {
                state: ThreadState::Runnable,
                timeout: None,
                resume: Some(WaitResume { mutex: w.mutex, timed_out }),
                ..self.threads[w.thread as int]
            },
        )
    }

    /// The waiters `ws` are woken by a signal, one after the other.
    pub open spec fn resume_all(self, ws: Seq<CondvarWaiter>) -> MachineView
        decreases ws.len(),
    {
        if ws.len() == 0 {
            self
        } else {
            self.resume_waiter(ws[0], false).resume_all(ws.drop_first())
        }
    }

    /// The longest waiting thread on the condition variable at `cond`, if
    /// there is one, leaves the queue and runs again, to reacquire its mutex.
    pub open spec fn cond_signal(self, cond: u64) -> (MachineView, InterpResult<()>) {
        if !self.sync.condvars.contains_key(cond) {
            (self, uninit())
        } else {
            match self.sync.condvars[cond].signal() {
                (c, Some(w)) => (self.with_condvar(cond, c).resume_waiter(w, false), Ok(())),
                (_, None) => (self, Ok(())),
            }
        }
    }

    /// All threads that wait on the condition variable at `cond` leave the
    /// queue and run again, each to reacquire its mutex.
    pub open spec fn cond_broadcast(self, cond: u64) -> (MachineView, InterpResult<()>) {
        if !self.sync.condvars.contains_key(cond) {
            (self, uninit())
        } else {
            (
                self.with_condvar(cond, CondvarView::new()).resume_all(
                    self.sync.condvars[cond].waiters,
                ),
                Ok(()),
            )
        }
    }

    /// The condition variable at `cond` ceases to be. Destroying one on
    /// which threads wait is a violation.
    pub open spec fn cond_destroy(self, cond: u64) -> (MachineView, InterpResult<()>) {
        if !self.sync.condvars.contains_key(cond) {
            (self, uninit())
        } else if self.sync.condvars[cond].is_awaited() {
            (self, Err(InterpError::UndefinedBehavior(UbKind::DestroyAwaitedCondvar)))
        } else {
            (
                MachineView {
                    sync: SyncView { condvars: self.sync.condvars.remove(cond), ..self.sync },
                    ..self
                },
                Ok(()),
            )
        }
    }

    /// The wait of thread `t`, if it waits on a condition variable under a
    /// deadline: the deadline, the condition variable and the mutex.
    pub open spec fn timed_wait_of(self, t: ThreadId) -> Option<(Timeout, u64, u64)> {
        if t < self.threads.len() {
            match (self.threads[t as int].timeout, self.threads[t as int].state) {
                (
                    Some(timeout),
                    ThreadState::Blocked(BlockReason::Condvar { cond, mutex }),
                ) => Some((timeout, cond, mutex)),
                _ => None,
            }
        } else {
            None
        }
    }

    /// The deadline of thread `t` passes while it waits on a condition
    /// variable: the thread leaves the queue of the condition variable and
    /// runs again, to reacquire its mutex and then to return from its wait
    /// as timed out; and the simulated time is not before the deadline any
    /// more. Nothing happens to a thread that does not wait under a deadline.
    pub open spec fn timeout_thread(self, t: ThreadId) -> MachineView {
        match self.timed_wait_of(t) {
            Some((timeout, cond, mutex)) => {
                let left = if self.sync.condvars.contains_key(cond) {
                    self.with_condvar(cond, self.sync.condvars[cond].remove_waiter(t).0)
                } else {
                    self
                };
                let woken = left.resume_waiter(CondvarWaiter { thread: t, mutex }, true);
                MachineView {
                    clock: if woken.clock < timeout.deadline {
                        timeout.deadline
                    } else {
                        woken.clock
                    },
                    ..woken
                }
            },
            None => self,
        }
    }
}

impl MiriEvalContext {
    /// The wait of thread `t`, if it waits on a condition variable under a
    /// deadline: the deadline, the condition variable and the mutex.
    pub fn timed_wait_of(&self, t: ThreadId) -> (r: Option<(Timeout, u64, u64)>)
        ensures
            r == self@.timed_wait_of(t),
    {
        let i: usize = t as usize;
        if i >= self.threads.len() {
            return None;
        }
        match (self.threads[i].timeout, self.threads[i].state) {
            (Some(timeout), ThreadState::Blocked(BlockReason::Condvar { cond, mutex })) => Some(
                (timeout, cond, mutex),
            ),
            _ => None,
        }
    }

    /// The waiter `w` has left the queue of its condition variable: makes
    /// its thread run again, with the mutex still to reacquire.
    fn resume_waiter(&mut self, w: CondvarWaiter, timed_out: bool)
        ensures
            final(self)@ == old(self)@.resume_waiter(w, timed_out),
            old(self)@.wf() ==> final(self)@.wf(),
    {
        let i: usize = w.thread as usize;
        if i < self.threads.len() {
            self.threads[i].state = ThreadState::Runnable;
            self.threads[i].timeout = None;
            self.threads[i].resume = Some(WaitResume { mutex: w.mutex, timed_out });
        }
        proof {
            assert(self@.threads =~= old(self)@.resume_waiter(w, timed_out).threads);
        }
    }

    /// Lets the deadline of thread `t` pass: if the thread waits on a
    /// condition variable under a deadline, it stops waiting and runs again,
    /// to reacquire its mutex and to return from its wait as timed out.
    pub fn timeout_thread(&mut self, t: ThreadId)
        ensures
            final(self)@ == old(self)@.timeout_thread(t),
            old(self)@.wf() ==> final(self)@.wf(),
    {
        match self.timed_wait_of(t) {
            None => {},
            Some((timeout, cond, mutex)) => {
                match self.sync.condvars.remove(&cond) {
                    None => {
                        proof {
                            assert(self@.sync.condvars =~= old(self)@.sync.condvars);
                        }
                    },
                    Some(mut c) => {
                        let ghost before = c@;
                        c.remove_waiter(t);
                        self.sync.condvars.insert(cond, c);
                        proof {
                            assert(self@.sync.condvars =~= old(self)@.sync.condvars.insert(
                                cond,
                                before.remove_waiter(t).0,
                            ));
                        }
                    },
                }
                self.resume_waiter(CondvarWaiter { thread: t, mutex }, true);
                if self.clock < timeout.deadline {
                    self.clock = timeout.deadline;
                }
            },
        }
    }

    /// Creates a record of mutex attributes at `attr`, for a normal mutex.
    pub fn mutexattr_init(&mut self, attr: u64)
        ensures
            final(self)@ == old(self)@.mutexattr_init(attr),
            old(self)@.wf() ==> final(self)@.wf(),
    {
        self.sync.mutexattrs.insert(attr, MutexKind::Normal);
    }

    /// Sets the kind of mutex in the record at `attr`.
    pub fn mutexattr_settype(&mut self, attr: u64, kind: MutexKind) -> (r: InterpResult<()>)
        ensures
            (final(self)@, r) == old(self)@.mutexattr_settype(attr, kind),
            old(self)@.wf() ==> final(self)@.wf(),
    {
        if self.sync.mutexattrs.contains_key(&attr) {
            self.sync.mutexattrs.insert(attr, kind);
            Ok(())
        } else {
            Err(InterpError::UndefinedBehavior(UbKind::UninitializedSyncObject))
        }
    }

    /// Destroys the record of mutex attributes at `attr`.
    pub fn mutexattr_destroy(&mut self, attr: u64) -> (r: InterpResult<()>)
        ensures
            (final(self)@, r) == old(self)@.mutexattr_destroy(attr),
            old(self)@.wf() ==> final(self)@.wf(),
    {
        if self.sync.mutexattrs.contains_key(&attr) {
            self.sync.mutexattrs.remove(&attr);
            Ok(())
        } else {
            Err(InterpError::UndefinedBehavior(UbKind::UninitializedSyncObject))
        }
    }

    /// Creates a free mutex at `addr`, of the kind that the record at `attr`
    /// names, or a normal one if no record is given. A mutex that was at
    /// `addr` before is replaced.
    pub fn mutex_init(&mut self, addr: u64, attr: Option<u64>) -> (r: InterpResult<()>)
        ensures
            (final(self)@, r) == old(self)@.mutex_init(addr, attr),
            old(self)@.wf() ==> final(self)@.wf(),
    {
        let kind: MutexKind = match attr {
            Some(a) => match self.sync.mutexattrs.get(&a) {
                Some(k) => *k,
                None => {
                    return Err(InterpError::UndefinedBehavior(UbKind::UninitializedSyncObject));
                },
            },
            None => MutexKind::Normal,
        };
        self.sync.mutexes.insert(addr, Mutex::new(kind));
        proof {
            assert(self@.sync.mutexes =~= old(self)@.sync.mutexes.insert(addr, MutexView::new(kind)));
        }
        Ok(())
    }

    /// The active thread asks for the mutex at `addr`. Where the mutex
    /// reports `Blocked`, the thread is blocked on it from now on.
    pub fn mutex_lock(&mut self, addr: u64) -> (r: InterpResult<LockOutcome>)
        ensures
            (final(self)@, r) == old(self)@.mutex_lock(addr),
            old(self)@.wf() ==> final(self)@.wf(),
    {
        let t: ThreadId = self.active_thread;
        match self.sync.mutexes.remove(&addr) {
            None => {
                proof {
                    assert(self@.sync.mutexes =~= old(self)@.sync.mutexes);
                }
                Err(InterpError::UndefinedBehavior(UbKind::UninitializedSyncObject))
            },
            Some(mut m) => {
                let ghost before = m@;
                let out = m.lock(t);
                proof {
                    if before.wf() {
                        lemma_mutex_step_wf(before, MutexOp::Lock(t));
                    }
                }
                self.sync.mutexes.insert(addr, m);
                proof {
                    assert(self@.sync.mutexes =~= old(self)@.sync.mutexes.insert(
                        addr,
                        before.lock(t).0,
                    ));
                }
                if out == LockOutcome::Blocked {
                    self.block_thread(t, BlockReason::Mutex(addr));
                }
                Ok(out)
            },
        }
    }

    /// The active thread asks for the mutex at `addr` without blocking.
    pub fn mutex_trylock(&mut self, addr: u64) -> (r: InterpResult<LockOutcome>)
        ensures
            (final(self)@, r) == old(self)@.mutex_trylock(addr),
            old(self)@.wf() ==> final(self)@.wf(),
    {
        let t: ThreadId = self.active_thread;
        match self.sync.mutexes.remove(&addr) {
            None => {
                proof {
                    assert(self@.sync.mutexes =~= old(self)@.sync.mutexes);
                }
                Err(InterpError::UndefinedBehavior(UbKind::UninitializedSyncObject))
            },
            Some(mut m) => {
                let ghost before = m@;
                let out = m.try_lock(t);
                proof {
                    if before.wf() {
                        lemma_mutex_step_wf(before, MutexOp::TryLock(t));
                    }
                }
                self.sync.mutexes.insert(addr, m);
                proof {
                    assert(self@.sync.mutexes =~= old(self)@.sync.mutexes.insert(
                        addr,
                        before.try_lock(t).0,
                    ));
                }
                Ok(out)
            },
        }
    }

    /// Thread `t` gives up the mutex at `addr` once, and the thread that
    /// leaves the queue of the mutex is woken.
    fn release_mutex(&mut self, addr: u64, t: ThreadId) -> (r: MutexUnlock)
        requires
            old(self)@.sync.mutexes.contains_key(addr),
        ensures
            (final(self)@, r) == old(self)@.release_mutex(addr, t),
            old(self)@.wf() ==> final(self)@.wf(),
    {
        match self.sync.mutexes.remove(&addr) {
            None => MutexUnlock::NotOwner,
            Some(mut m) => {
                let ghost before = m@;
                let out = m.unlock(t);
                proof {
                    if before.wf() {
                        lemma_mutex_step_wf(before, MutexOp::Unlock(t));
                    }
                }
                self.sync.mutexes.insert(addr, m);
                proof {
                    assert(self@.sync.mutexes =~= old(self)@.sync.mutexes.insert(
                        addr,
                        before.unlock(t).0,
                    ));
                }
                match out {
                    MutexUnlock::Woke(next) => {
                        self.unblock_thread(next);
                    },
                    _ => {},
                }
                out
            },
        }
    }

    /// Whether thread `t` owns the mutex at `addr`, and how often it holds
    /// it; `None` if there is no mutex.
    fn mutex_holds(&self, addr: u64, t: ThreadId) -> (r: Option<(bool, u32)>)
        ensures
            match r {
                None => !self@.sync.mutexes.contains_key(addr),
                Some((owned, count)) => {
                    &&& self@.sync.mutexes.contains_key(addr)
                    &&& owned == (self@.sync.mutexes[addr].owner == Some(t))
                    &&& count == self@.sync.mutexes[addr].hold_count
                },
            },
    {
        match self.sync.mutexes.get(&addr) {
            None => None,
            Some(m) => Some((m.is_owned_by(t), m.hold_count)),
        }
    }

    /// The active thread unlocks the mutex at `addr`. When its last hold
    /// goes, the owner is cleared and the longest waiting thread is woken, to
    /// ask for the mutex again.
    pub fn mutex_unlock(&mut self, addr: u64) -> (r: InterpResult<()>)
        ensures
            (final(self)@, r) == old(self)@.mutex_unlock(addr),
            old(self)@.wf() ==> final(self)@.wf(),
    {
        let t: ThreadId = self.active_thread;
        match self.mutex_holds(addr, t) {
            None => Err(InterpError::UndefinedBehavior(UbKind::UninitializedSyncObject)),
            Some((owned, _)) => {
                if !owned {
                    Err(InterpError::UndefinedBehavior(UbKind::MutexNotOwner))
                } else {
                    self.release_mutex(addr, t);
                    Ok(())
                }
            },
        }
    }

    /// Destroys the mutex at `addr`.
    pub fn mutex_destroy(&mut self, addr: u64) -> (r: InterpResult<()>)
        ensures
            (final(self)@, r) == old(self)@.mutex_destroy(addr),
            old(self)@.wf() ==> final(self)@.wf(),
    {
        let locked: bool = match self.sync.mutexes.get(&addr) {
            None => {
                return Err(InterpError::UndefinedBehavior(UbKind::UninitializedSyncObject));
            },
            Some(m) => m.is_locked(),
        };
        if locked {
            Err(InterpError::UndefinedBehavior(UbKind::DestroyLockedMutex))
        } else {
            self.sync.mutexes.remove(&addr);
            proof {
                assert(self@.sync.mutexes =~= old(self)@.sync.mutexes.remove(addr));
            }
            Ok(())
        }
    }

    /// Takes the read-write lock at `addr` out of the registry, or a free
    /// lock if there is none.
    fn take_rwlock(&mut self, addr: u64) -> (l: RwLock)
        ensures
            l@ == old(self)@.rwlock_at(addr),
            final(self)@ == (MachineView {
                sync: SyncView { rwlocks: old(self)@.sync.rwlocks.remove(addr), ..old(self)@.sync },
                ..old(self)@
            }),
    {
        let taken = self.sync.rwlocks.remove(&addr);
        proof {
            assert(self@.sync.rwlocks =~= old(self)@.sync.rwlocks.remove(addr));
        }
        match taken {
            Some(l) => l,
            None => RwLock::new(),
        }
    }

    /// Puts the read-write lock `l` into the registry at `addr`.
    fn put_rwlock(&mut self, addr: u64, l: RwLock)
        ensures
            final(self)@ == old(self)@.with_rwlock(addr, l@),
    {
        self.sync.rwlocks.insert(addr, l);
        proof {
            assert(self@.sync.rwlocks =~= old(self)@.sync.rwlocks.insert(addr, l@));
        }
    }

    /// The active thread asks for the lock at `addr` as a reader. Where the
    /// lock reports `Blocked`, the thread is blocked on it from now on.
    pub fn rwlock_read_lock(&mut self, addr: u64) -> (r: LockOutcome)
        ensures
            (final(self)@, r) == old(self)@.rwlock_read_lock(addr),
            old(self)@.wf() ==> final(self)@.wf(),
    {
        let t: ThreadId = self.active_thread;
        let mut l = self.take_rwlock(addr);
        let ghost before = l@;
        let out = l.read_lock(t);
        proof {
            if before.wf() {
                lemma_rwlock_step_wf(before, RwLockOp::ReadLock(t));
            }
        }
        self.put_rwlock(addr, l);
        proof {
            assert(self@.sync.rwlocks =~= old(self)@.sync.rwlocks.insert(addr, before.read_lock(t).0));
        }
        if out == LockOutcome::Blocked {
            self.block_thread(t, BlockReason::RwLockRead(addr));
        }
        out
    }

    /// The active thread asks for the lock at `addr` as a reader without blocking.
    pub fn rwlock_try_read_lock(&mut self, addr: u64) -> (r: LockOutcome)
        ensures
            (final(self)@, r) == old(self)@.rwlock_try_read_lock(addr),
            old(self)@.wf() ==> final(self)@.wf(),
    {
        let t: ThreadId = self.active_thread;
        let mut l = self.take_rwlock(addr);
        let ghost before = l@;
        let out = l.try_read_lock(t);
        proof {
            if before.wf() {
                lemma_rwlock_step_wf(before, RwLockOp::TryReadLock(t));
            }
        }
        self.put_rwlock(addr, l);
        proof {
            assert(self@.sync.rwlocks =~= old(self)@.sync.rwlocks.insert(
                addr,
                before.try_read_lock(t).0,
            ));
        }
        out
    }

    /// The active thread asks for the lock at `addr` as the writer. Where
    /// the lock reports `Blocked`, the thread is blocked on it from now on.
    pub fn rwlock_write_lock(&mut self, addr: u64) -> (r: LockOutcome)
        ensures
            (final(self)@, r) == old(self)@.rwlock_write_lock(addr),
            old(self)@.wf() ==> final(self)@.wf(),
    {
        let t: ThreadId = self.active_thread;
        let mut l = self.take_rwlock(addr);
        let ghost before = l@;
        let out = l.write_lock(t);
        proof {
            if before.wf() {
                lemma_rwlock_step_wf(before, RwLockOp::WriteLock(t));
            }
        }
        self.put_rwlock(addr, l);
        proof {
            assert(self@.sync.rwlocks =~= old(self)@.sync.rwlocks.insert(addr, before.write_lock(t).0));
        }
        if out == LockOutcome::Blocked {
            self.block_thread(t, BlockReason::RwLockWrite(addr));
        }
        out
    }

    /// The active thread asks for the lock at `addr` as the writer without blocking.
    pub fn rwlock_try_write_lock(&mut self, addr: u64) -> (r: LockOutcome)
        ensures
            (final(self)@, r) == old(self)@.rwlock_try_write_lock(addr),
            old(self)@.wf() ==> final(self)@.wf(),
    {
        let t: ThreadId = self.active_thread;
        let mut l = self.take_rwlock(addr);
        let ghost before = l@;
        let out = l.try_write_lock(t);
        proof {
            if before.wf() {
                lemma_rwlock_step_wf(before, RwLockOp::TryWriteLock(t));
            }
        }
        self.put_rwlock(addr, l);
        proof {
            assert(self@.sync.rwlocks =~= old(self)@.sync.rwlocks.insert(
                addr,
                before.try_write_lock(t).0,
            ));
        }
        out
    }

    /// The active thread gives up one hold on the lock at `addr`. When the
    /// lock becomes free, the longest waiting writer, or else all waiting
    /// readers, are woken, to ask for the lock again.
    pub fn rwlock_unlock(&mut self, addr: u64) -> (r: InterpResult<()>)
        ensures
            (final(self)@, r) == old(self)@.rwlock_unlock(addr),
            old(self)@.wf() ==> final(self)@.wf(),
    {
        let t: ThreadId = self.active_thread;
        if !self.sync.rwlocks.contains_key(&addr) {
            return Err(InterpError::UndefinedBehavior(UbKind::UninitializedSyncObject));
        }
        let mut l = self.take_rwlock(addr);
        let ghost before = l@;
        let woken = l.unlock(t);
        proof {
            if before.wf() {
                lemma_rwlock_step_wf(before, RwLockOp::Unlock(t));
            }
        }
        self.put_rwlock(addr, l);
        proof {
            assert(self@.sync.rwlocks =~= old(self)@.sync.rwlocks.insert(addr, before.unlock(t).0));
        }
        match woken {
            None => {
                proof {
                    assert(self@.sync.rwlocks =~= old(self)@.sync.rwlocks);
                }
                Err(InterpError::UndefinedBehavior(UbKind::RwLockNotHeld))
            },
            Some(ts) => {
                self.unblock_threads(&ts);
                Ok(())
            },
        }
    }

    /// Destroys the read-write lock at `addr`.
    pub fn rwlock_destroy(&mut self, addr: u64) -> (r: InterpResult<()>)
        ensures
            (final(self)@, r) == old(self)@.rwlock_destroy(addr),
            old(self)@.wf() ==> final(self)@.wf(),
    {
        let locked: bool = match self.sync.rwlocks.get(&addr) {
            None => {
                return Err(InterpError::UndefinedBehavior(UbKind::UninitializedSyncObject));
            },
            Some(l) => l.is_locked(),
        };
        if locked {
            Err(InterpError::UndefinedBehavior(UbKind::DestroyLockedRwLock))
        } else {
            self.sync.rwlocks.remove(&addr);
            proof {
                assert(self@.sync.rwlocks =~= old(self)@.sync.rwlocks.remove(addr));
            }
            Ok(())
        }
    }

    /// Creates a record of condition variable attributes at `attr`.
    pub fn condattr_init(&mut self, attr: u64)
        ensures
            final(self)@ == old(self)@.condattr_init(attr),
            old(self)@.wf() ==> final(self)@.wf(),
    {
        self.sync.condattrs.insert(attr, ClockId::Realtime);
    }

    /// Destroys the record of condition variable attributes at `attr`.
    pub fn condattr_destroy(&mut self, attr: u64) -> (r: InterpResult<()>)
        ensures
            (final(self)@, r) == old(self)@.condattr_destroy(attr),
            old(self)@.wf() ==> final(self)@.wf(),
    {
        if self.sync.condattrs.contains_key(&attr) {
            self.sync.condattrs.remove(&attr);
            Ok(())
        } else {
            Err(InterpError::UndefinedBehavior(UbKind::UninitializedSyncObject))
        }
    }

    /// Creates a condition variable without waiters at `addr`. One that
    /// was at `addr` before is replaced.
    pub fn cond_init(&mut self, addr: u64, attr: Option<u64>) -> (r: InterpResult<()>)
        ensures
            (final(self)@, r) == old(self)@.cond_init(addr, attr),
            old(self)@.wf() ==> final(self)@.wf(),
    {
        match attr {
            Some(a) => {
                if !self.sync.condattrs.contains_key(&a) {
                    return Err(InterpError::UndefinedBehavior(UbKind::UninitializedSyncObject));
                }
            },
            None => {},
        }
        self.sync.condvars.insert(addr, Condvar::new());
        proof {
            assert(self@.sync.condvars =~= old(self)@.sync.condvars.insert(addr, CondvarView::new()));
        }
        Ok(())
    }

    /// Whether the active thread may wait on the condition variable at
    /// `cond` with the mutex at `mutex`.
    fn cond_wait_check(&self, cond: u64, mutex: u64) -> (r: InterpResult<()>)
        ensures
            r == self@.cond_wait_check(cond, mutex),
    {
        if !self.sync.condvars.contains_key(&cond) {
            return Err(InterpError::UndefinedBehavior(UbKind::UninitializedSyncObject));
        }
        match self.mutex_holds(mutex, self.active_thread) {
            None => Err(InterpError::UndefinedBehavior(UbKind::UninitializedSyncObject)),
            Some((owned, count)) => {
                if !owned {
                    Err(InterpError::UndefinedBehavior(UbKind::CondWaitMutexNotOwned))
                } else if count != 1 {
                    Err(InterpError::Unsupported(UnsupportedKind::CondWaitRecursiveMutex))
                } else {
                    Ok(())
                }
            },
        }
    }

    /// The active thread, woken from a wait, asks for the mutex that it
    /// waited with.
    fn reacquire(&mut self, resume: WaitResume) -> (r: InterpResult<WaitOutcome>)
        requires
            old(self)@.wf(),
        ensures
            (final(self)@, r) == old(self)@.reacquire(resume),
            final(self)@.wf(),
    {
        let t: ThreadId = self.active_thread;
        match self.sync.mutexes.remove(&resume.mutex) {
            None => {
                proof {
                    assert(self@.sync.mutexes =~= old(self)@.sync.mutexes);
                }
                Err(InterpError::UndefinedBehavior(UbKind::UninitializedSyncObject))
            },
            Some(mut m) => {
                let ghost before = m@;
                let out = m.lock(t);
                proof {
                    if before.wf() {
                        lemma_mutex_step_wf(before, MutexOp::Lock(t));
                    }
                }
                self.sync.mutexes.insert(resume.mutex, m);
                proof {
                    assert(self@.sync.mutexes =~= old(self)@.sync.mutexes.insert(
                        resume.mutex,
                        before.lock(t).0,
                    ));
                }
                if out == LockOutcome::Blocked {
                    self.block_thread(t, BlockReason::Mutex(resume.mutex));
                    Ok(WaitOutcome::Blocked)
                } else {
                    let ghost locked = self@;
                    self.threads[t as usize].resume = None;
                    proof {
                        assert(self@.threads =~= locked.with_active(
                            ThreadView { resume: None, ..old(self)@.active() },
                        ).threads);
                    }
                    Ok(if resume.timed_out { WaitOutcome::TimedOut } else { WaitOutcome::Signalled })
                }
            },
        }
    }

    /// A call of a wait by the active thread on the condition variable at
    /// `cond`, with the mutex at `mutex`. A thread that comes to wait must
    /// hold the mutex exactly once; it releases the mutex, as in an unlock,
    /// and is blocked in the same step, until it is signalled or the deadline
    /// `timeout` passes. A thread that was woken from its wait makes the call
    /// again: it reacquires the mutex, as in a lock, and only then is its
    /// wait over.
    pub fn cond_wait(&mut self, cond: u64, mutex: u64, timeout: Option<Timeout>) -> (r:
        InterpResult<WaitOutcome>)
        requires
            old(self)@.wf(),
        ensures
            (final(self)@, r) == old(self)@.cond_wait(cond, mutex, timeout),
            final(self)@.wf(),
    {
        let t: ThreadId = self.active_thread;
        match self.threads[t as usize].resume {
            Some(resume) => {
                return self.reacquire(resume);
            },
            None => {},
        }
        self.cond_wait_check(cond, mutex)?;
        self.release_mutex(mutex, t);
        let ghost released = self@;
        match self.sync.condvars.remove(&cond) {
            None => {},
            Some(mut c) => {
                c.wait(t, mutex);
                self.sync.condvars.insert(cond, c);
                proof {
                    assert(self@.sync.condvars =~= released.sync.condvars.insert(
                        cond,
                        released.sync.condvars[cond].wait(t, mutex),
                    ));
                }
            },
        }
        let ghost waiting = self@;
        let i: usize = t as usize;
        if i < self.threads.len() {
            self.threads[i].state = ThreadState::Blocked(BlockReason::Condvar { cond, mutex });
            self.threads[i].timeout = timeout;
        }
        proof {
            assert(self@.threads =~= waiting.block_until(
                t,
                BlockReason::Condvar { cond, mutex },
                timeout,
            ).threads);
        }
        Ok(WaitOutcome::Blocked)
    }

    /// Wakes the thread that has waited longest on the condition variable
    /// at `cond`, if any thread waits: it leaves the queue and runs again, to
    /// reacquire its mutex before its wait returns.
    pub fn cond_signal(&mut self, cond: u64) -> (r: InterpResult<()>)
        ensures
            (final(self)@, r) == old(self)@.cond_signal(cond),
            old(self)@.wf() ==> final(self)@.wf(),
    {
        match self.sync.condvars.remove(&cond) {
            None => {
                proof {
                    assert(self@.sync.condvars =~= old(self)@.sync.condvars);
                }
                Err(InterpError::UndefinedBehavior(UbKind::UninitializedSyncObject))
            },
            Some(mut c) => {
                let ghost before = c@;
                let waiter = c.signal();
                self.sync.condvars.insert(cond, c);
                proof {
                    assert(self@.sync.condvars =~= old(self)@.sync.condvars.insert(
                        cond,
                        before.signal().0,
                    ));
                }
                match waiter {
                    Some(w) => {
                        self.resume_waiter(w, false);
                    },
                    None => {
                        proof {
                            assert(self@.sync.condvars =~= old(self)@.sync.condvars);
                        }
                    },
                }
                Ok(())
            },
        }
    }

    /// Wakes all threads that wait on the condition variable at `cond`, the
    /// longest waiting first: each leaves the queue and runs again, to
    /// reacquire its mutex before its wait returns.
    pub fn cond_broadcast(&mut self, cond: u64) -> (r: InterpResult<()>)
        ensures
            (final(self)@, r) == old(self)@.cond_broadcast(cond),
            old(self)@.wf() ==> final(self)@.wf(),
    {
        match self.sync.condvars.remove(&cond) {
            None => {
                proof {
                    assert(self@.sync.condvars =~= old(self)@.sync.condvars);
                }
                Err(InterpError::UndefinedBehavior(UbKind::UninitializedSyncObject))
            },
            Some(c) => {
                let mut waiters: VecDeque<CondvarWaiter> = c.waiters;
                self.sync.condvars.insert(cond, Condvar::new());
                proof {
                    assert(self@.sync.condvars =~= old(self)@.sync.condvars.insert(
                        cond,
                        CondvarView::new(),
                    ));
                }
                let ghost goal = self@.resume_all(waiters@);
                proof {
                    assert(self@.sync.mutexes == old(self)@.sync.mutexes);
                    assert(self@.sync.rwlocks == old(self)@.sync.rwlocks);
                    assert(self@.tls == old(self)@.tls);
                    assert(self@.threads == old(self)@.threads);
                }
                while waiters.len() > 0
                    invariant
                        self@.resume_all(waiters@) == goal,
                        old(self)@.wf() ==> self@.wf(),
                    decreases waiters.len(),
                {
                    let ghost rest = waiters@;
                    match waiters.pop_front() {
                        Some(w) => {
                            proof {
                                assert(waiters@ =~= rest.drop_first());
                            }
                            self.resume_waiter(w, false);
                        },
                        None => {},
                    }
                }
                Ok(())
            },
        }
    }

    /// Destroys the condition variable at `cond`.
    pub fn cond_destroy(&mut self, cond: u64) -> (r: InterpResult<()>)
        ensures
            (final(self)@, r) == old(self)@.cond_destroy(cond),
            old(self)@.wf() ==> final(self)@.wf(),
    {
        let awaited: bool = match self.sync.condvars.get(&cond) {
            None => {
                return Err(InterpError::UndefinedBehavior(UbKind::UninitializedSyncObject));
            },
            Some(c) => c.is_awaited(),
        };
        if awaited {
            Err(InterpError::UndefinedBehavior(UbKind::DestroyAwaitedCondvar))
        } else {
            self.sync.condvars.remove(&cond);
            proof {
                assert(self@.sync.condvars =~= old(self)@.sync.condvars.remove(cond));
            }
            Ok(())
        }
    }
}

/// Wait, signal, wake. Thread `a` holds a mutex once and waits with it on a
/// condition variable on which nobody else waits. Thread `b`, which is not
/// between a wait and its return, then acquires the mutex, signals the
/// condition variable and releases the mutex. Then: while `a` waits the mutex
/// is free for `b`; after the signal `a` runs again, out of the queue of the
/// condition variable, while `b` still owns the mutex; after the release the
/// mutex is free; and when `a` then makes its call again, the wait is over,
/// `a` owns the mutex, once, and guest memory is what it was when `b` released
/// the mutex, so that `a` finds what `b` has left there.
pub proof fn lemma_wait_signal_wake(m: MachineView, a: ThreadId, b: ThreadId, cond: u64, mutex: u64)
    requires
        m.wf(),
        a != b,
        a < m.threads.len(),
        b < m.threads.len(),
        m.active_thread == a,
        m.threads[a as int].state == ThreadState::Runnable,
        m.threads[b as int].state == ThreadState::Runnable,
        m.threads[a as int].resume is None,
        m.sync.mutexes.contains_key(mutex),
        m.sync.mutexes[mutex].owner == Some(a),
        m.sync.mutexes[mutex].hold_count == 1,
        m.sync.mutexes[mutex].queue.len() == 0,
        m.sync.condvars.contains_key(cond),
        m.sync.condvars[cond].waiters.len() == 0,
    ensures
        ({
            let (waiting, w) = m.cond_wait(cond, mutex, None);
            let (locked, l) = waiting.set_active_thread(b).mutex_lock(mutex);
            let (signalled, s) = locked.cond_signal(cond);
            let (released, u) = signalled.mutex_unlock(mutex);
            let (woken, r) = released.set_active_thread(a).cond_wait(cond, mutex, None);
            &&& w == Ok::<WaitOutcome, InterpError>(WaitOutcome::Blocked)
            &&& waiting.threads[a as int].state == ThreadState::Blocked(
                BlockReason::Condvar { cond, mutex },
            )
            &&& waiting.sync.mutexes[mutex].owner is None
            &&& l == Ok::<LockOutcome, InterpError>(LockOutcome::Acquired)
            &&& s is Ok
            &&& signalled.threads[a as int].state == ThreadState::Runnable
            &&& signalled.sync.condvars[cond].waiters.len() == 0
            &&& signalled.sync.mutexes[mutex].owner == Some(b)
            &&& u is Ok
            &&& released.sync.mutexes[mutex].owner is None
            &&& r == Ok::<WaitOutcome, InterpError>(WaitOutcome::Signalled)
            &&& woken.threads[a as int].state == ThreadState::Runnable
            &&& woken.threads[a as int].resume is None
            &&& woken.sync.mutexes[mutex].owner == Some(a)
            &&& woken.sync.mutexes[mutex].hold_count == 1
            &&& woken.memory == locked.memory
        }),
{
    let (waiting, w) = m.cond_wait(cond, mutex, None);
    let (locked, l) = waiting.set_active_thread(b).mutex_lock(mutex);
    let (signalled, s) = locked.cond_signal(cond);
    assert(waiting.sync.condvars[cond].waiters =~= seq![CondvarWaiter { thread: a, mutex }]);
    assert(waiting.sync.mutexes[mutex].owner is None);
    assert(locked.sync.mutexes[mutex].owner == Some(b));
    assert(locked.sync.condvars[cond].waiters[0] == (CondvarWaiter { thread: a, mutex }));
}

/// A thread that was signalled while another thread holds the mutex does not
/// return from its wait: its call blocks on the mutex. When the owner
/// releases the mutex, the thread runs again, and its next call gets the
/// mutex and ends the wait.
pub proof fn lemma_signalled_waiter_retries(m: MachineView, a: ThreadId, b: ThreadId, cond: u64, mutex: u64)
    requires
        m.wf(),
        a != b,
        a < m.threads.len(),
        b < m.threads.len(),
        m.active_thread == a,
        m.threads[a as int].state == ThreadState::Runnable,
        m.threads[a as int].resume == Some(WaitResume { mutex, timed_out: false }),
        m.sync.mutexes.contains_key(mutex),
        m.sync.mutexes[mutex].owner == Some(b),
        m.sync.mutexes[mutex].hold_count == 1,
        m.sync.mutexes[mutex].queue.len() == 0,
    ensures
        ({
            let (blocked, w) = m.cond_wait(cond, mutex, None);
            let (released, u) = blocked.set_active_thread(b).mutex_unlock(mutex);
            let (woken, r) = released.set_active_thread(a).cond_wait(cond, mutex, None);
            &&& w == Ok::<WaitOutcome, InterpError>(WaitOutcome::Blocked)
            &&& blocked.threads[a as int].state == ThreadState::Blocked(BlockReason::Mutex(mutex))
            &&& blocked.sync.mutexes[mutex].owner == Some(b)
            &&& u is Ok
            &&& released.sync.mutexes[mutex].owner is None
            &&& released.threads[a as int].state == ThreadState::Runnable
            &&& r == Ok::<WaitOutcome, InterpError>(WaitOutcome::Signalled)
            &&& woken.sync.mutexes[mutex].owner == Some(a)
            &&& woken.threads[a as int].resume is None
        }),
{
    let (blocked, w) = m.cond_wait(cond, mutex, None);
    assert(blocked.sync.mutexes[mutex].queue =~= seq![a]);
}

} // verus!
