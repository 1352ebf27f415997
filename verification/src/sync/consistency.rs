//! The wait queues and the thread table agree: laws that relate the two.
//!
//! A machine is consistent when every thread that stands in a wait queue of
//! a synchronization object is blocked on that object, and stands there once.
//! The operations of the machine keep it consistent as long as the thread that
//! makes a call is one that runs.

use vstd::prelude::*;
use crate::eval_context::{MachineView, PanicStrategy, TargetOs};
use crate::scalar::PlaceTy;
use crate::sync::condvar::{first_index_of, CondvarView, CondvarWaiter};
use crate::sync::mutex::{LockOutcome, MutexKind, MutexUnlock, MutexView};
use crate::sync::rwlock::RwLockView;
use crate::thread::{
    BlockReason, ThreadId, ThreadJoinStatus, ThreadOutcome, ThreadState, ThreadView, Timeout,
    WaitResume,
};

verus! {

impl MachineView {
    /// Thread `t` exists and is blocked for `reason`.
    pub open spec fn blocked_on(self, t: ThreadId, reason: BlockReason) -> bool {
        t < self.threads.len() && self.threads[t as int].state == ThreadState::Blocked(reason)
    }

    /// Every thread in `queue` is blocked for `reason`, and none stands in
    /// the queue twice.
    pub open spec fn queue_ok(self, queue: Seq<ThreadId>, reason: BlockReason) -> bool {
        &&& forall|i: int| 0 <= i < queue.len() ==> self.blocked_on(#[trigger] queue[i], reason)
        &&& forall|i: int, j: int| 0 <= i < j < queue.len() ==> queue[i] != queue[j]
    }

    /// Every thread that waits on the condition variable at `cond` is blocked
    /// on it, with the mutex that the queue records, and none waits twice.
    pub open spec fn waiters_ok(self, cond: u64, waiters: Seq<CondvarWaiter>) -> bool {
        &&& forall|i: int|
            0 <= i < waiters.len() ==> self.blocked_on(
                (#[trigger] waiters[i]).thread,
                BlockReason::Condvar { cond, mutex: waiters[i].mutex },
            )
        &&& forall|i: int, j: int|
            0 <= i < j < waiters.len() ==> waiters[i].thread != waiters[j].thread
    }

    /// The queue of the mutex at `a` is in order.
    pub open spec fn mutex_ok(self, a: u64) -> bool {
        self.queue_ok(self.sync.mutexes[a].queue, BlockReason::Mutex(a))
    }

    /// The queues of the read-write lock at `a` are in order.
    pub open spec fn rwlock_ok(self, a: u64) -> bool {
        &&& self.queue_ok(self.sync.rwlocks[a].reader_queue, BlockReason::RwLockRead(a))
        &&& self.queue_ok(self.sync.rwlocks[a].writer_queue, BlockReason::RwLockWrite(a))
    }

    /// The queue of the condition variable at `a` is in order.
    pub open spec fn condvar_ok(self, a: u64) -> bool {
        self.waiters_ok(a, self.sync.condvars[a].waiters)
    }

    /// Every thread that stands in a wait queue is blocked on the object
    /// whose queue it is, and stands there once.
    pub open spec fn queues_consistent(self) -> bool {
        &&& forall|a: u64| #[trigger] self.sync.mutexes.contains_key(a) ==> self.mutex_ok(a)
        &&& forall|a: u64| #[trigger] self.sync.rwlocks.contains_key(a) ==> self.rwlock_ok(a)
        &&& forall|a: u64| #[trigger] self.sync.condvars.contains_key(a) ==> self.condvar_ok(a)
    }

    /// Thread `t` stands in no wait queue.
    pub open spec fn not_queued(self, t: ThreadId) -> bool {
        &&& forall|a: u64, i: int|
            self.sync.mutexes.contains_key(a) && 0 <= i < self.sync.mutexes[a].queue.len()
                ==> #[trigger] self.sync.mutexes[a].queue[i] != t
        &&& forall|a: u64, i: int|
            self.sync.rwlocks.contains_key(a) && 0 <= i < self.sync.rwlocks[a].reader_queue.len()
                ==> #[trigger] self.sync.rwlocks[a].reader_queue[i] != t
        &&& forall|a: u64, i: int|
            self.sync.rwlocks.contains_key(a) && 0 <= i < self.sync.rwlocks[a].writer_queue.len()
                ==> #[trigger] self.sync.rwlocks[a].writer_queue[i] != t
        &&& forall|a: u64, i: int|
            self.sync.condvars.contains_key(a) && 0 <= i < self.sync.condvars[a].waiters.len()
                ==> (#[trigger] self.sync.condvars[a].waiters[i]).thread != t
    }

    /// Whether thread `t` waits for a synchronization object.
    pub open spec fn waits_for_object(self, t: ThreadId) -> bool {
        t < self.threads.len() && match self.threads[t as int].state {
            ThreadState::Blocked(BlockReason::Join(_)) => false,
            ThreadState::Blocked(_) => true,
            _ => false,
        }
    }
}

/// In a consistent machine, a thread that does not wait for a
/// synchronization object stands in no queue: not one that runs, not one that
/// has finished, not one that waits in a join.
pub proof fn lemma_unblocked_not_queued(m: MachineView, t: ThreadId)
    requires
        m.queues_consistent(),
        !m.waits_for_object(t),
    ensures
        m.not_queued(t),
{
    assert forall|a: u64, i: int|
        m.sync.mutexes.contains_key(a) && 0 <= i < m.sync.mutexes[a].queue.len() implies #[trigger] m.sync.mutexes[a].queue[i]
        != t by {
        assert(m.mutex_ok(a));
    }
    assert forall|a: u64, i: int|
        m.sync.rwlocks.contains_key(a) && 0 <= i < m.sync.rwlocks[a].reader_queue.len() implies #[trigger] m.sync.rwlocks[a].reader_queue[i]
        != t by {
        assert(m.rwlock_ok(a));
    }
    assert forall|a: u64, i: int|
        m.sync.rwlocks.contains_key(a) && 0 <= i < m.sync.rwlocks[a].writer_queue.len() implies #[trigger] m.sync.rwlocks[a].writer_queue[i]
        != t by {
        assert(m.rwlock_ok(a));
    }
    assert forall|a: u64, i: int|
        m.sync.condvars.contains_key(a) && 0 <= i < m.sync.condvars[a].waiters.len() implies (#[trigger] m.sync.condvars[a].waiters[i]).thread
        != t by {
        assert(m.condvar_ok(a));
    }
}

/// A thread that stands in no queue can change in any way, and the machine
/// stays consistent.
pub proof fn lemma_change_unqueued_thread(m: MachineView, t: ThreadId, thread: ThreadView)
    requires
        m.queues_consistent(),
        m.not_queued(t),
    ensures
        m.with_thread(t, thread).queues_consistent(),
        forall|u: ThreadId| m.not_queued(u) ==> m.with_thread(t, thread).not_queued(u),
{
    let m2 = m.with_thread(t, thread);
    assert forall|a: u64| #[trigger] m2.sync.mutexes.contains_key(a) implies m2.mutex_ok(a) by {
        assert(m.mutex_ok(a));
    }
    assert forall|a: u64| #[trigger] m2.sync.rwlocks.contains_key(a) implies m2.rwlock_ok(a) by {
        assert(m.rwlock_ok(a));
    }
    assert forall|a: u64| #[trigger] m2.sync.condvars.contains_key(a) implies m2.condvar_ok(a) by {
        assert(m.condvar_ok(a));
    }
}

/// A change that leaves the queues and the run state of every thread as
/// they are keeps the machine consistent, and keeps out of the queues who was
/// out of them. New threads may have come.
pub proof fn lemma_same_queues_same_states(m: MachineView, m2: MachineView)
    requires
        m.queues_consistent(),
        m2.sync.mutexes == m.sync.mutexes,
        m2.sync.rwlocks == m.sync.rwlocks,
        m2.sync.condvars == m.sync.condvars,
        m2.threads.len() >= m.threads.len(),
        forall|t: int| 0 <= t < m.threads.len() ==> (#[trigger] m2.threads[t]).state == m.threads[t].state,
    ensures
        m2.queues_consistent(),
        forall|u: ThreadId| m.not_queued(u) ==> m2.not_queued(u),
{
    assert forall|a: u64| #[trigger] m2.sync.mutexes.contains_key(a) implies m2.mutex_ok(a) by {
        assert(m.mutex_ok(a));
    }
    assert forall|a: u64| #[trigger] m2.sync.rwlocks.contains_key(a) implies m2.rwlock_ok(a) by {
        assert(m.rwlock_ok(a));
    }
    assert forall|a: u64| #[trigger] m2.sync.condvars.contains_key(a) implies m2.condvar_ok(a) by {
        assert(m.condvar_ok(a));
    }
}

/// The queue of the mutex at `a`; empty where there is no mutex.
pub open spec fn mutex_queue(m: MachineView, a: u64) -> Seq<ThreadId> {
    if m.sync.mutexes.contains_key(a) {
        m.sync.mutexes[a].queue
    } else {
        Seq::empty()
    }
}

/// The queue of the condition variable at `a`; empty where there is none.
pub open spec fn condvar_queue(m: MachineView, a: u64) -> Seq<CondvarWaiter> {
    if m.sync.condvars.contains_key(a) {
        m.sync.condvars[a].waiters
    } else {
        Seq::empty()
    }
}

/// Putting a mutex at `a` whose queue is the old queue without its first
/// `k` threads keeps the machine consistent, and the threads that left the
/// queue stand in no queue any more. Who stood in no queue still does not.
pub proof fn lemma_mutex_dequeue(m: MachineView, a: u64, mutex: MutexView, k: int)
    requires
        m.queues_consistent(),
        0 <= k <= mutex_queue(m, a).len(),
        mutex.queue == mutex_queue(m, a).subrange(k, mutex_queue(m, a).len() as int),
    ensures
        m.with_mutex(a, mutex).queues_consistent(),
        forall|i: int| 0 <= i < k ==> m.with_mutex(a, mutex).not_queued(#[trigger] mutex_queue(m, a)[i]),
        forall|u: ThreadId| m.not_queued(u) ==> m.with_mutex(a, mutex).not_queued(u),
{
    let m2 = m.with_mutex(a, mutex);
    let old_queue = mutex_queue(m, a);
    if m.sync.mutexes.contains_key(a) {
        assert(m.mutex_ok(a));
    }
    assert forall|b: u64| #[trigger] m2.sync.mutexes.contains_key(b) implies m2.mutex_ok(b) by {
        if b != a {
            assert(m.sync.mutexes.contains_key(b));
            assert(m.mutex_ok(b));
        } else {
            assert forall|i: int| 0 <= i < mutex.queue.len() implies m2.blocked_on(
                #[trigger] mutex.queue[i],
                BlockReason::Mutex(a),
            ) by {
                assert(mutex.queue[i] == old_queue[i + k]);
            }
            assert forall|i: int, j: int| 0 <= i < j < mutex.queue.len() implies mutex.queue[i]
                != mutex.queue[j] by {
                assert(mutex.queue[i] == old_queue[i + k]);
                assert(mutex.queue[j] == old_queue[j + k]);
            }
        }
    }
    assert forall|b: u64| #[trigger] m2.sync.rwlocks.contains_key(b) implies m2.rwlock_ok(b) by {
        assert(m.rwlock_ok(b));
    }
    assert forall|b: u64| #[trigger] m2.sync.condvars.contains_key(b) implies m2.condvar_ok(b) by {
        assert(m.condvar_ok(b));
    }
    assert forall|i: int| 0 <= i < k implies m2.not_queued(#[trigger] old_queue[i]) by {
        let t = old_queue[i];
        assert(m.blocked_on(t, BlockReason::Mutex(a)));
        assert forall|b: u64, j: int|
            m2.sync.mutexes.contains_key(b) && 0 <= j < m2.sync.mutexes[b].queue.len() implies #[trigger] m2.sync.mutexes[b].queue[j]
            != t by {
            if b != a {
                assert(m.sync.mutexes.contains_key(b));
                assert(m.mutex_ok(b));
                assert(m.blocked_on(m.sync.mutexes[b].queue[j], BlockReason::Mutex(b)));
            } else {
                assert(mutex.queue[j] == old_queue[j + k]);
            }
        }
        assert forall|b: u64, j: int|
            m2.sync.rwlocks.contains_key(b) && 0 <= j < m2.sync.rwlocks[b].reader_queue.len() implies #[trigger] m2.sync.rwlocks[b].reader_queue[j]
            != t by {
            assert(m.rwlock_ok(b));
            assert(m.blocked_on(m.sync.rwlocks[b].reader_queue[j], BlockReason::RwLockRead(b)));
        }
        assert forall|b: u64, j: int|
            m2.sync.rwlocks.contains_key(b) && 0 <= j < m2.sync.rwlocks[b].writer_queue.len() implies #[trigger] m2.sync.rwlocks[b].writer_queue[j]
            != t by {
            assert(m.rwlock_ok(b));
            assert(m.blocked_on(m.sync.rwlocks[b].writer_queue[j], BlockReason::RwLockWrite(b)));
        }
        assert forall|b: u64, j: int|
            m2.sync.condvars.contains_key(b) && 0 <= j < m2.sync.condvars[b].waiters.len() implies (#[trigger] m2.sync.condvars[b].waiters[j]).thread
            != t by {
            assert(m.condvar_ok(b));
            assert(m.blocked_on(
                m.sync.condvars[b].waiters[j].thread,
                BlockReason::Condvar { cond: b, mutex: m.sync.condvars[b].waiters[j].mutex },
            ));
        }
    }
    assert forall|u: ThreadId| m.not_queued(u) implies m2.not_queued(u) by {
        assert forall|b: u64, j: int|
            m2.sync.mutexes.contains_key(b) && 0 <= j < m2.sync.mutexes[b].queue.len() implies #[trigger] m2.sync.mutexes[b].queue[j]
            != u by {
            if b != a {
                assert(m.sync.mutexes.contains_key(b));
                assert(m.sync.mutexes[b].queue[j] != u);
            } else {
                assert(mutex.queue[j] == old_queue[j + k]);
                assert(m.sync.mutexes[a].queue[j + k] != u);
            }
        }
    }
}

/// A thread that stands in no queue joins the queue of the mutex at `a`
/// and is blocked on the mutex from now on: the machine stays consistent.
pub proof fn lemma_mutex_enqueue(
    m: MachineView,
    a: u64,
    mutex: MutexView,
    t: ThreadId,
    thread: ThreadView,
)
    requires
        m.queues_consistent(),
        m.not_queued(t),
        t < m.threads.len(),
        m.sync.mutexes.contains_key(a),
        mutex.queue == m.sync.mutexes[a].queue.push(t),
        thread.state == ThreadState::Blocked(BlockReason::Mutex(a)),
    ensures
        m.with_mutex(a, mutex).with_thread(t, thread).queues_consistent(),
        forall|u: ThreadId|
            u != t && m.not_queued(u) ==> m.with_mutex(a, mutex).with_thread(t, thread).not_queued(u),
{
    let m2 = m.with_mutex(a, mutex).with_thread(t, thread);
    let old_queue = m.sync.mutexes[a].queue;
    assert(m.mutex_ok(a));
    assert forall|b: u64| #[trigger] m2.sync.mutexes.contains_key(b) implies m2.mutex_ok(b) by {
        if b != a {
            assert(m.sync.mutexes.contains_key(b));
            assert(m.mutex_ok(b));
        } else {
            assert forall|i: int| 0 <= i < mutex.queue.len() implies m2.blocked_on(
                #[trigger] mutex.queue[i],
                BlockReason::Mutex(a),
            ) by {
                if i < old_queue.len() {
                    assert(mutex.queue[i] == old_queue[i]);
                }
            }
            assert forall|i: int, j: int| 0 <= i < j < mutex.queue.len() implies mutex.queue[i]
                != mutex.queue[j] by {
                assert(mutex.queue[i] == old_queue[i]);
                if j < old_queue.len() {
                    assert(mutex.queue[j] == old_queue[j]);
                }
            }
        }
    }
    assert forall|b: u64| #[trigger] m2.sync.rwlocks.contains_key(b) implies m2.rwlock_ok(b) by {
        assert(m.rwlock_ok(b));
    }
    assert forall|b: u64| #[trigger] m2.sync.condvars.contains_key(b) implies m2.condvar_ok(b) by {
        assert(m.condvar_ok(b));
    }
    assert forall|u: ThreadId| u != t && m.not_queued(u) implies m2.not_queued(u) by {
        assert forall|b: u64, j: int|
            m2.sync.mutexes.contains_key(b) && 0 <= j < m2.sync.mutexes[b].queue.len() implies #[trigger] m2.sync.mutexes[b].queue[j]
            != u by {
            if b != a {
                assert(m.sync.mutexes.contains_key(b));
                assert(m.sync.mutexes[b].queue[j] != u);
            } else if j < old_queue.len() {
                assert(mutex.queue[j] == old_queue[j]);
                assert(m.sync.mutexes[a].queue[j] != u);
            }
        }
    }
}

/// The queue of readers that wait for the lock at `a`; empty where there is
/// no lock.
pub open spec fn reader_queue(m: MachineView, a: u64) -> Seq<ThreadId> {
    m.rwlock_at(a).reader_queue
}

/// The queue of writers that wait for the lock at `a`; empty where there is
/// no lock.
pub open spec fn writer_queue(m: MachineView, a: u64) -> Seq<ThreadId> {
    m.rwlock_at(a).writer_queue
}

/// A thread that has left a queue of the lock at `a` stands in no queue.
proof fn lemma_left_rwlock_queue(
    m: MachineView,
    a: u64,
    lock: RwLockView,
    kr: int,
    kw: int,
    i: int,
    reader: bool,
)
    requires
        m.queues_consistent(),
        0 <= kr <= reader_queue(m, a).len(),
        0 <= kw <= writer_queue(m, a).len(),
        lock.reader_queue == reader_queue(m, a).subrange(kr, reader_queue(m, a).len() as int),
        lock.writer_queue == writer_queue(m, a).subrange(kw, writer_queue(m, a).len() as int),
        reader ==> 0 <= i < kr,
        !reader ==> 0 <= i < kw,
    ensures
        m.with_rwlock(a, lock).not_queued(
            if reader {
                reader_queue(m, a)[i]
            } else {
                writer_queue(m, a)[i]
            },
        ),
{
    let m2 = m.with_rwlock(a, lock);
    let old_readers = reader_queue(m, a);
    let old_writers = writer_queue(m, a);
    let t = if reader {
        old_readers[i]
    } else {
        old_writers[i]
    };
    if m.sync.rwlocks.contains_key(a) {
        assert(m.rwlock_ok(a));
    }
    if reader {
        assert(m.blocked_on(old_readers[i], BlockReason::RwLockRead(a)));
    } else {
        assert(m.blocked_on(old_writers[i], BlockReason::RwLockWrite(a)));
    }
    assert forall|b: u64, j: int|
        m2.sync.mutexes.contains_key(b) && 0 <= j < m2.sync.mutexes[b].queue.len() implies #[trigger] m2.sync.mutexes[b].queue[j]
        != t by {
        assert(m.mutex_ok(b));
        assert(m.blocked_on(m.sync.mutexes[b].queue[j], BlockReason::Mutex(b)));
    }
    assert forall|b: u64, j: int|
        m2.sync.condvars.contains_key(b) && 0 <= j < m2.sync.condvars[b].waiters.len() implies (#[trigger] m2.sync.condvars[b].waiters[j]).thread
        != t by {
        assert(m.condvar_ok(b));
        assert(m.blocked_on(m.sync.condvars[b].waiters[j].thread, BlockReason::Condvar { cond: b, mutex: m.sync.condvars[b].waiters[j].mutex }));
    }
    assert forall|b: u64, j: int|
        m2.sync.rwlocks.contains_key(b) && 0 <= j < m2.sync.rwlocks[b].reader_queue.len() implies #[trigger] m2.sync.rwlocks[b].reader_queue[j]
        != t by {
        if b != a {
            assert(m.sync.rwlocks.contains_key(b));
            assert(m.rwlock_ok(b));
            assert(m.blocked_on(m.sync.rwlocks[b].reader_queue[j], BlockReason::RwLockRead(b)));
        } else {
            assert(lock.reader_queue[j] == old_readers[j + kr]);
            assert(m.blocked_on(old_readers[j + kr], BlockReason::RwLockRead(a)));
        }
    }
    assert forall|b: u64, j: int|
        m2.sync.rwlocks.contains_key(b) && 0 <= j < m2.sync.rwlocks[b].writer_queue.len() implies #[trigger] m2.sync.rwlocks[b].writer_queue[j]
        != t by {
        if b != a {
            assert(m.sync.rwlocks.contains_key(b));
            assert(m.rwlock_ok(b));
            assert(m.blocked_on(m.sync.rwlocks[b].writer_queue[j], BlockReason::RwLockWrite(b)));
        } else {
            assert(lock.writer_queue[j] == old_writers[j + kw]);
            assert(m.blocked_on(old_writers[j + kw], BlockReason::RwLockWrite(a)));
        }
    }
}

/// Putting a read-write lock at `a` whose queues are the old queues without
/// their first `kr` readers and `kw` writers keeps the machine consistent, and
/// the threads that left a queue stand in no queue any more. Who stood in no
/// queue still does not.
pub proof fn lemma_rwlock_dequeue(m: MachineView, a: u64, lock: RwLockView, kr: int, kw: int)
    requires
        m.queues_consistent(),
        0 <= kr <= reader_queue(m, a).len(),
        0 <= kw <= writer_queue(m, a).len(),
        lock.reader_queue == reader_queue(m, a).subrange(kr, reader_queue(m, a).len() as int),
        lock.writer_queue == writer_queue(m, a).subrange(kw, writer_queue(m, a).len() as int),
    ensures
        m.with_rwlock(a, lock).queues_consistent(),
        forall|i: int| 0 <= i < kr ==> m.with_rwlock(a, lock).not_queued(#[trigger] reader_queue(m, a)[i]),
        forall|i: int| 0 <= i < kw ==> m.with_rwlock(a, lock).not_queued(#[trigger] writer_queue(m, a)[i]),
        forall|u: ThreadId| m.not_queued(u) ==> m.with_rwlock(a, lock).not_queued(u),
{
    let m2 = m.with_rwlock(a, lock);
    let old_readers = reader_queue(m, a);
    let old_writers = writer_queue(m, a);
    if m.sync.rwlocks.contains_key(a) {
        assert(m.rwlock_ok(a));
    }
    assert forall|b: u64| #[trigger] m2.sync.mutexes.contains_key(b) implies m2.mutex_ok(b) by {
        assert(m.mutex_ok(b));
    }
    assert forall|b: u64| #[trigger] m2.sync.condvars.contains_key(b) implies m2.condvar_ok(b) by {
        assert(m.condvar_ok(b));
    }
    assert forall|b: u64| #[trigger] m2.sync.rwlocks.contains_key(b) implies m2.rwlock_ok(b) by {
        if b != a {
            assert(m.sync.rwlocks.contains_key(b));
            assert(m.rwlock_ok(b));
        } else {
            assert forall|i: int| 0 <= i < lock.reader_queue.len() implies m2.blocked_on(
                #[trigger] lock.reader_queue[i],
                BlockReason::RwLockRead(a),
            ) by {
                assert(lock.reader_queue[i] == old_readers[i + kr]);
            }
            assert forall|i: int, j: int|
                0 <= i < j < lock.reader_queue.len() implies lock.reader_queue[i]
                != lock.reader_queue[j] by {
                assert(lock.reader_queue[i] == old_readers[i + kr]);
                assert(lock.reader_queue[j] == old_readers[j + kr]);
            }
            assert forall|i: int| 0 <= i < lock.writer_queue.len() implies m2.blocked_on(
                #[trigger] lock.writer_queue[i],
                BlockReason::RwLockWrite(a),
            ) by {
                assert(lock.writer_queue[i] == old_writers[i + kw]);
            }
            assert forall|i: int, j: int|
                0 <= i < j < lock.writer_queue.len() implies lock.writer_queue[i]
                != lock.writer_queue[j] by {
                assert(lock.writer_queue[i] == old_writers[i + kw]);
                assert(lock.writer_queue[j] == old_writers[j + kw]);
            }
        }
    }
    assert forall|i: int| 0 <= i < kr implies m2.not_queued(#[trigger] old_readers[i]) by {
        lemma_left_rwlock_queue(m, a, lock, kr, kw, i, true);
    }
    assert forall|i: int| 0 <= i < kw implies m2.not_queued(#[trigger] old_writers[i]) by {
        lemma_left_rwlock_queue(m, a, lock, kr, kw, i, false);
    }
    assert forall|u: ThreadId| m.not_queued(u) implies m2.not_queued(u) by {
        assert forall|b: u64, j: int|
            m2.sync.rwlocks.contains_key(b) && 0 <= j < m2.sync.rwlocks[b].reader_queue.len() implies #[trigger] m2.sync.rwlocks[b].reader_queue[j]
            != u by {
            if b != a {
                assert(m.sync.rwlocks.contains_key(b));
                assert(m.sync.rwlocks[b].reader_queue[j] != u);
            } else {
                assert(lock.reader_queue[j] == old_readers[j + kr]);
                assert(m.sync.rwlocks[a].reader_queue[j + kr] != u);
            }
        }
        assert forall|b: u64, j: int|
            m2.sync.rwlocks.contains_key(b) && 0 <= j < m2.sync.rwlocks[b].writer_queue.len() implies #[trigger] m2.sync.rwlocks[b].writer_queue[j]
            != u by {
            if b != a {
                assert(m.sync.rwlocks.contains_key(b));
                assert(m.sync.rwlocks[b].writer_queue[j] != u);
            } else {
                assert(lock.writer_queue[j] == old_writers[j + kw]);
                assert(m.sync.rwlocks[a].writer_queue[j + kw] != u);
            }
        }
    }
}

/// A thread that stands in no queue joins the queue of readers, or that of
/// writers, of the lock at `a` and is blocked on the lock accordingly from now
/// on: the machine stays consistent.
pub proof fn lemma_rwlock_enqueue(
    m: MachineView,
    a: u64,
    lock: RwLockView,
    t: ThreadId,
    thread: ThreadView,
    as_reader: bool,
)
    requires
        m.queues_consistent(),
        m.not_queued(t),
        t < m.threads.len(),
        as_reader ==> lock.reader_queue == reader_queue(m, a).push(t) && lock.writer_queue
            == writer_queue(m, a) && thread.state == ThreadState::Blocked(
            BlockReason::RwLockRead(a),
        ),
        !as_reader ==> lock.writer_queue == writer_queue(m, a).push(t) && lock.reader_queue
            == reader_queue(m, a) && thread.state == ThreadState::Blocked(
            BlockReason::RwLockWrite(a),
        ),
    ensures
        m.with_rwlock(a, lock).with_thread(t, thread).queues_consistent(),
        forall|u: ThreadId|
            u != t && m.not_queued(u) ==> m.with_rwlock(a, lock).with_thread(t, thread).not_queued(u),
{
    let m2 = m.with_rwlock(a, lock).with_thread(t, thread);
    let old_readers = reader_queue(m, a);
    let old_writers = writer_queue(m, a);
    if m.sync.rwlocks.contains_key(a) {
        assert(m.rwlock_ok(a));
    }
    assert forall|b: u64| #[trigger] m2.sync.mutexes.contains_key(b) implies m2.mutex_ok(b) by {
        assert(m.mutex_ok(b));
    }
    assert forall|b: u64| #[trigger] m2.sync.condvars.contains_key(b) implies m2.condvar_ok(b) by {
        assert(m.condvar_ok(b));
    }
    assert forall|b: u64| #[trigger] m2.sync.rwlocks.contains_key(b) implies m2.rwlock_ok(b) by {
        if b != a {
            assert(m.sync.rwlocks.contains_key(b));
            assert(m.rwlock_ok(b));
        } else {
            assert forall|i: int| 0 <= i < lock.reader_queue.len() implies m2.blocked_on(
                #[trigger] lock.reader_queue[i],
                BlockReason::RwLockRead(a),
            ) by {
                if i < old_readers.len() {
                    assert(lock.reader_queue[i] == old_readers[i]);
                }
            }
            assert forall|i: int, j: int|
                0 <= i < j < lock.reader_queue.len() implies lock.reader_queue[i]
                != lock.reader_queue[j] by {
                assert(lock.reader_queue[i] == old_readers[i]);
                if j < old_readers.len() {
                    assert(lock.reader_queue[j] == old_readers[j]);
                }
            }
            assert forall|i: int| 0 <= i < lock.writer_queue.len() implies m2.blocked_on(
                #[trigger] lock.writer_queue[i],
                BlockReason::RwLockWrite(a),
            ) by {
                if i < old_writers.len() {
                    assert(lock.writer_queue[i] == old_writers[i]);
                }
            }
            assert forall|i: int, j: int|
                0 <= i < j < lock.writer_queue.len() implies lock.writer_queue[i]
                != lock.writer_queue[j] by {
                assert(lock.writer_queue[i] == old_writers[i]);
                if j < old_writers.len() {
                    assert(lock.writer_queue[j] == old_writers[j]);
                }
            }
        }
    }
    assert forall|u: ThreadId| u != t && m.not_queued(u) implies m2.not_queued(u) by {
        assert forall|b: u64, j: int|
            m2.sync.rwlocks.contains_key(b) && 0 <= j < m2.sync.rwlocks[b].reader_queue.len() implies #[trigger] m2.sync.rwlocks[b].reader_queue[j]
            != u by {
            if b != a {
                assert(m.sync.rwlocks.contains_key(b));
                assert(m.sync.rwlocks[b].reader_queue[j] != u);
            } else if j < old_readers.len() {
                assert(lock.reader_queue[j] == old_readers[j]);
                assert(m.sync.rwlocks[a].reader_queue[j] != u);
            }
        }
        assert forall|b: u64, j: int|
            m2.sync.rwlocks.contains_key(b) && 0 <= j < m2.sync.rwlocks[b].writer_queue.len() implies #[trigger] m2.sync.rwlocks[b].writer_queue[j]
            != u by {
            if b != a {
                assert(m.sync.rwlocks.contains_key(b));
                assert(m.sync.rwlocks[b].writer_queue[j] != u);
            } else if j < old_writers.len() {
                assert(lock.writer_queue[j] == old_writers[j]);
                assert(m.sync.rwlocks[a].writer_queue[j] != u);
            }
        }
    }
}

/// Where each waiter of `new` stood in `old`: `new` is `old` without some
/// of its waiters, in the same order.
pub open spec fn kept(old: Seq<CondvarWaiter>, new: Seq<CondvarWaiter>, at: Seq<int>) -> bool {
    &&& at.len() == new.len()
    &&& forall|i: int| 0 <= i < new.len() ==> 0 <= #[trigger] at[i] < old.len() && new[i] == old[at[i]]
    &&& forall|i: int, j: int| 0 <= i < j < new.len() ==> #[trigger] at[i] < #[trigger] at[j]
}

/// A thread that has left the queue of the condition variable at `a` stands
/// in no queue.
proof fn lemma_left_condvar_queue(
    m: MachineView,
    a: u64,
    condvar: CondvarView,
    at: Seq<int>,
    gone: int,
)
    requires
        m.queues_consistent(),
        kept(condvar_queue(m, a), condvar.waiters, at),
        0 <= gone < condvar_queue(m, a).len(),
        forall|i: int| 0 <= i < condvar.waiters.len() ==> at[i] != gone,
    ensures
        m.with_condvar(a, condvar).not_queued(condvar_queue(m, a)[gone].thread),
{
    let m2 = m.with_condvar(a, condvar);
    let old_waiters = condvar_queue(m, a);
    let t = old_waiters[gone].thread;
    assert(m.condvar_ok(a));
    assert(m.blocked_on(
        old_waiters[gone].thread,
        BlockReason::Condvar { cond: a, mutex: old_waiters[gone].mutex },
    ));
    assert forall|b: u64, j: int|
        m2.sync.mutexes.contains_key(b) && 0 <= j < m2.sync.mutexes[b].queue.len() implies #[trigger] m2.sync.mutexes[b].queue[j]
        != t by {
        assert(m.mutex_ok(b));
        assert(m.blocked_on(m.sync.mutexes[b].queue[j], BlockReason::Mutex(b)));
    }
    assert forall|b: u64, j: int|
        m2.sync.rwlocks.contains_key(b) && 0 <= j < m2.sync.rwlocks[b].reader_queue.len() implies #[trigger] m2.sync.rwlocks[b].reader_queue[j]
        != t by {
        assert(m.rwlock_ok(b));
        assert(m.blocked_on(m.sync.rwlocks[b].reader_queue[j], BlockReason::RwLockRead(b)));
    }
    assert forall|b: u64, j: int|
        m2.sync.rwlocks.contains_key(b) && 0 <= j < m2.sync.rwlocks[b].writer_queue.len() implies #[trigger] m2.sync.rwlocks[b].writer_queue[j]
        != t by {
        assert(m.rwlock_ok(b));
        assert(m.blocked_on(m.sync.rwlocks[b].writer_queue[j], BlockReason::RwLockWrite(b)));
    }
    assert forall|b: u64, j: int|
        m2.sync.condvars.contains_key(b) && 0 <= j < m2.sync.condvars[b].waiters.len() implies (#[trigger] m2.sync.condvars[b].waiters[j]).thread
        != t by {
        if b != a {
            assert(m.sync.condvars.contains_key(b));
            assert(m.condvar_ok(b));
            assert(m.blocked_on(
                m.sync.condvars[b].waiters[j].thread,
                BlockReason::Condvar { cond: b, mutex: m.sync.condvars[b].waiters[j].mutex },
            ));
        } else {
            assert(condvar.waiters[j] == old_waiters[at[j]]);
            assert(at[j] != gone);
        }
    }
}

/// Putting a condition variable at `a` whose queue is the old queue without
/// some of its waiters keeps the machine consistent, and the threads that left
/// the queue stand in no queue any more. Who stood in no queue still does not.
pub proof fn lemma_condvar_dequeue(
    m: MachineView,
    a: u64,
    condvar: CondvarView,
    at: Seq<int>,
)
    requires
        m.queues_consistent(),
        kept(condvar_queue(m, a), condvar.waiters, at),
    ensures
        m.with_condvar(a, condvar).queues_consistent(),
        forall|gone: int|
            0 <= gone < condvar_queue(m, a).len() && (forall|i: int|
                0 <= i < condvar.waiters.len() ==> at[i] != gone) ==> m.with_condvar(
                a,
                condvar,
            ).not_queued((#[trigger] condvar_queue(m, a)[gone]).thread),
        forall|u: ThreadId| m.not_queued(u) ==> m.with_condvar(a, condvar).not_queued(u),
{
    let m2 = m.with_condvar(a, condvar);
    let old_waiters = condvar_queue(m, a);
    if m.sync.condvars.contains_key(a) {
        assert(m.condvar_ok(a));
    }
    assert forall|b: u64| #[trigger] m2.sync.mutexes.contains_key(b) implies m2.mutex_ok(b) by {
        assert(m.mutex_ok(b));
    }
    assert forall|b: u64| #[trigger] m2.sync.rwlocks.contains_key(b) implies m2.rwlock_ok(b) by {
        assert(m.rwlock_ok(b));
    }
    assert forall|b: u64| #[trigger] m2.sync.condvars.contains_key(b) implies m2.condvar_ok(b) by {
        if b != a {
            assert(m.sync.condvars.contains_key(b));
            assert(m.condvar_ok(b));
        } else {
            assert forall|i: int| 0 <= i < condvar.waiters.len() implies m2.blocked_on(
                (#[trigger] condvar.waiters[i]).thread,
                BlockReason::Condvar { cond: a, mutex: condvar.waiters[i].mutex },
            ) by {
                assert(condvar.waiters[i] == old_waiters[at[i]]);
            }
            assert forall|i: int, j: int|
                0 <= i < j < condvar.waiters.len() implies condvar.waiters[i].thread
                != condvar.waiters[j].thread by {
                assert(condvar.waiters[i] == old_waiters[at[i]]);
                assert(condvar.waiters[j] == old_waiters[at[j]]);
                assert(at[i] < at[j]);
            }
        }
    }
    assert forall|gone: int|
        0 <= gone < old_waiters.len() && (forall|i: int|
            0 <= i < condvar.waiters.len() ==> at[i] != gone) implies m2.not_queued(
        (#[trigger] old_waiters[gone]).thread,
    ) by {
        lemma_left_condvar_queue(m, a, condvar, at, gone);
    }
    assert forall|u: ThreadId| m.not_queued(u) implies m2.not_queued(u) by {
        assert forall|b: u64, j: int|
            m2.sync.condvars.contains_key(b) && 0 <= j < m2.sync.condvars[b].waiters.len() implies (#[trigger] m2.sync.condvars[b].waiters[j]).thread
            != u by {
            if b != a {
                assert(m.sync.condvars.contains_key(b));
                assert(m.sync.condvars[b].waiters[j].thread != u);
            } else {
                assert(condvar.waiters[j] == old_waiters[at[j]]);
                assert(m.sync.condvars[a].waiters[at[j]].thread != u);
            }
        }
    }
}

/// A thread that stands in no queue joins the queue of the condition
/// variable at `a` and is blocked on it from now on: the machine stays
/// consistent.
pub proof fn lemma_condvar_enqueue(
    m: MachineView,
    a: u64,
    condvar: CondvarView,
    t: ThreadId,
    mutex: u64,
    thread: ThreadView,
)
    requires
        m.queues_consistent(),
        m.not_queued(t),
        t < m.threads.len(),
        m.sync.condvars.contains_key(a),
        condvar.waiters == m.sync.condvars[a].waiters.push(CondvarWaiter { thread: t, mutex }),
        thread.state == ThreadState::Blocked(BlockReason::Condvar { cond: a, mutex }),
    ensures
        m.with_condvar(a, condvar).with_thread(t, thread).queues_consistent(),
{
    let m2 = m.with_condvar(a, condvar).with_thread(t, thread);
    let old_waiters = m.sync.condvars[a].waiters;
    assert(m.condvar_ok(a));
    assert forall|b: u64| #[trigger] m2.sync.mutexes.contains_key(b) implies m2.mutex_ok(b) by {
        assert(m.mutex_ok(b));
    }
    assert forall|b: u64| #[trigger] m2.sync.rwlocks.contains_key(b) implies m2.rwlock_ok(b) by {
        assert(m.rwlock_ok(b));
    }
    assert forall|b: u64| #[trigger] m2.sync.condvars.contains_key(b) implies m2.condvar_ok(b) by {
        if b != a {
            assert(m.sync.condvars.contains_key(b));
            assert(m.condvar_ok(b));
        } else {
            assert forall|i: int| 0 <= i < condvar.waiters.len() implies m2.blocked_on(
                (#[trigger] condvar.waiters[i]).thread,
                BlockReason::Condvar { cond: a, mutex: condvar.waiters[i].mutex },
            ) by {
                if i < old_waiters.len() {
                    assert(condvar.waiters[i] == old_waiters[i]);
                }
            }
            assert forall|i: int, j: int|
                0 <= i < j < condvar.waiters.len() implies condvar.waiters[i].thread
                != condvar.waiters[j].thread by {
                assert(condvar.waiters[i] == old_waiters[i]);
                if j < old_waiters.len() {
                    assert(condvar.waiters[j] == old_waiters[j]);
                }
            }
        }
    }
}

/// Taking synchronization objects away keeps the machine consistent, and
/// keeps out of the queues who was out of them.
pub proof fn lemma_objects_removed(m: MachineView, m2: MachineView)
    requires
        m.queues_consistent(),
        m2.threads == m.threads,
        forall|a: u64| #[trigger]
            m2.sync.mutexes.contains_key(a) ==> m.sync.mutexes.contains_key(a) && m2.sync.mutexes[a]
                == m.sync.mutexes[a],
        forall|a: u64| #[trigger]
            m2.sync.rwlocks.contains_key(a) ==> m.sync.rwlocks.contains_key(a) && m2.sync.rwlocks[a]
                == m.sync.rwlocks[a],
        forall|a: u64| #[trigger]
            m2.sync.condvars.contains_key(a) ==> m.sync.condvars.contains_key(a)
                && m2.sync.condvars[a] == m.sync.condvars[a],
    ensures
        m2.queues_consistent(),
        forall|u: ThreadId| m.not_queued(u) ==> m2.not_queued(u),
{
    assert forall|b: u64| #[trigger] m2.sync.mutexes.contains_key(b) implies m2.mutex_ok(b) by {
        assert(m.sync.mutexes.contains_key(b));
        assert(m.mutex_ok(b));
    }
    assert forall|b: u64| #[trigger] m2.sync.rwlocks.contains_key(b) implies m2.rwlock_ok(b) by {
        assert(m.sync.rwlocks.contains_key(b));
        assert(m.rwlock_ok(b));
    }
    assert forall|b: u64| #[trigger] m2.sync.condvars.contains_key(b) implies m2.condvar_ok(b) by {
        assert(m.sync.condvars.contains_key(b));
        assert(m.condvar_ok(b));
    }
    assert forall|u: ThreadId| m.not_queued(u) implies m2.not_queued(u) by {
        assert forall|b: u64, j: int|
            m2.sync.mutexes.contains_key(b) && 0 <= j < m2.sync.mutexes[b].queue.len() implies #[trigger] m2.sync.mutexes[b].queue[j]
            != u by {
            assert(m.sync.mutexes.contains_key(b));
            assert(m.sync.mutexes[b].queue[j] != u);
        }
        assert forall|b: u64, j: int|
            m2.sync.rwlocks.contains_key(b) && 0 <= j < m2.sync.rwlocks[b].reader_queue.len() implies #[trigger] m2.sync.rwlocks[b].reader_queue[j]
            != u by {
            assert(m.sync.rwlocks.contains_key(b));
            assert(m.sync.rwlocks[b].reader_queue[j] != u);
        }
        assert forall|b: u64, j: int|
            m2.sync.rwlocks.contains_key(b) && 0 <= j < m2.sync.rwlocks[b].writer_queue.len() implies #[trigger] m2.sync.rwlocks[b].writer_queue[j]
            != u by {
            assert(m.sync.rwlocks.contains_key(b));
            assert(m.sync.rwlocks[b].writer_queue[j] != u);
        }
        assert forall|b: u64, j: int|
            m2.sync.condvars.contains_key(b) && 0 <= j < m2.sync.condvars[b].waiters.len() implies (#[trigger] m2.sync.condvars[b].waiters[j]).thread
            != u by {
            assert(m.sync.condvars.contains_key(b));
            assert(m.sync.condvars[b].waiters[j].thread != u);
        }
    }
}

/// Waking a thread that stands in no queue keeps the machine consistent, and
/// keeps out of the queues who was out of them.
pub proof fn lemma_wake(m: MachineView, t: ThreadId)
    requires
        m.queues_consistent(),
        m.not_queued(t),
    ensures
        m.wake(t).queues_consistent(),
        forall|u: ThreadId| m.not_queued(u) ==> m.wake(t).not_queued(u),
{
    if t < m.threads.len() && m.threads[t as int].state is Blocked {
        lemma_change_unqueued_thread(
            m,
            t,
            ThreadView { state: ThreadState::Runnable, timeout: None, ..m.threads[t as int] },
        );
    }
}

/// Waking threads that stand in no queue keeps the machine consistent.
pub proof fn lemma_wake_all(m: MachineView, ts: Seq<ThreadId>)
    requires
        m.queues_consistent(),
        forall|i: int| 0 <= i < ts.len() ==> m.not_queued(#[trigger] ts[i]),
    ensures
        m.wake_all(ts).queues_consistent(),
        forall|u: ThreadId| m.not_queued(u) ==> m.wake_all(ts).not_queued(u),
    decreases ts.len(),
{
    if ts.len() > 0 {
        lemma_wake(m, ts[0]);
        let rest = ts.drop_first();
        assert forall|i: int| 0 <= i < rest.len() implies m.wake(ts[0]).not_queued(
            #[trigger] rest[i],
        ) by {
            assert(rest[i] == ts[i + 1]);
        }
        lemma_wake_all(m.wake(ts[0]), rest);
    }
}

/// Initializing a mutex keeps the machine consistent.
pub proof fn lemma_mutex_init_consistent(m: MachineView, addr: u64, attr: Option<u64>)
    requires
        m.queues_consistent(),
    ensures
        m.mutex_init(addr, attr).0.queues_consistent(),
{
    let n = mutex_queue(m, addr).len() as int;
    assert(mutex_queue(m, addr).subrange(n, n) =~= Seq::<ThreadId>::empty());
    match attr {
        Some(a) => {
            if m.sync.mutexattrs.contains_key(a) {
                lemma_mutex_dequeue(m, addr, MutexView::new(m.sync.mutexattrs[a]), n);
            }
        },
        None => {
            lemma_mutex_dequeue(m, addr, MutexView::new(MutexKind::Normal), n);
        },
    }
}

/// A lock of a mutex by the active thread, which runs, keeps the machine
/// consistent.
pub proof fn lemma_mutex_lock_consistent(m: MachineView, addr: u64)
    requires
        m.wf(),
        m.queues_consistent(),
        m.active().state is Runnable,
    ensures
        m.mutex_lock(addr).0.queues_consistent(),
        m.mutex_trylock(addr).0.queues_consistent(),
{
    if m.sync.mutexes.contains_key(addr) {
        let t = m.active_thread;
        let queue = m.sync.mutexes[addr].queue;
        assert(queue.subrange(0, queue.len() as int) =~= queue);
        lemma_unblocked_not_queued(m, t);
        let (mutex, out) = m.sync.mutexes[addr].lock(t);
        if out == LockOutcome::Blocked {
            lemma_mutex_enqueue(
                m,
                addr,
                mutex,
                t,
                ThreadView {
                    state: ThreadState::Blocked(BlockReason::Mutex(addr)),
                    ..m.threads[t as int]
                },
            );
        } else {
            lemma_mutex_dequeue(m, addr, mutex, 0);
        }
        lemma_mutex_dequeue(m, addr, m.sync.mutexes[addr].try_lock(t).0, 0);
    }
}

/// Releasing a mutex keeps the machine consistent, and keeps out of the
/// queues who was out of them.
pub proof fn lemma_release_mutex_consistent(m: MachineView, addr: u64, t: ThreadId)
    requires
        m.queues_consistent(),
        m.sync.mutexes.contains_key(addr),
    ensures
        m.release_mutex(addr, t).0.queues_consistent(),
        forall|u: ThreadId| m.not_queued(u) ==> m.release_mutex(addr, t).0.not_queued(u),
{
    let queue = m.sync.mutexes[addr].queue;
    let (mutex, out) = m.sync.mutexes[addr].unlock(t);
    assert(queue.subrange(0, queue.len() as int) =~= queue);
    match out {
        MutexUnlock::Woke(next) => {
            lemma_mutex_dequeue(m, addr, mutex, 1);
            assert(m.with_mutex(addr, mutex).not_queued(queue[0]));
            lemma_wake(m.with_mutex(addr, mutex), next);
        },
        _ => {
            lemma_mutex_dequeue(m, addr, mutex, 0);
        },
    }
}

/// An unlock and the destruction of a mutex keep the machine consistent.
pub proof fn lemma_mutex_unlock_consistent(m: MachineView, addr: u64)
    requires
        m.queues_consistent(),
    ensures
        m.mutex_unlock(addr).0.queues_consistent(),
        m.mutex_destroy(addr).0.queues_consistent(),
{
    if m.sync.mutexes.contains_key(addr) {
        lemma_release_mutex_consistent(m, addr, m.active_thread);
    }
    lemma_objects_removed(m, m.mutex_destroy(addr).0);
}

/// A lock of a read-write lock by the active thread, which runs, keeps the
/// machine consistent.
pub proof fn lemma_rwlock_lock_consistent(m: MachineView, addr: u64)
    requires
        m.wf(),
        m.queues_consistent(),
        m.active().state is Runnable,
    ensures
        m.rwlock_read_lock(addr).0.queues_consistent(),
        m.rwlock_try_read_lock(addr).0.queues_consistent(),
        m.rwlock_write_lock(addr).0.queues_consistent(),
        m.rwlock_try_write_lock(addr).0.queues_consistent(),
{
    let t = m.active_thread;
    let lock = m.rwlock_at(addr);
    let readers = lock.reader_queue;
    let writers = lock.writer_queue;
    assert(readers.subrange(0, readers.len() as int) =~= readers);
    assert(writers.subrange(0, writers.len() as int) =~= writers);
    lemma_unblocked_not_queued(m, t);
    let (read, r) = lock.read_lock(t);
    if r == LockOutcome::Blocked {
        lemma_rwlock_enqueue(
            m,
            addr,
            read,
            t,
            ThreadView {
                state: ThreadState::Blocked(BlockReason::RwLockRead(addr)),
                ..m.threads[t as int]
            },
            true,
        );
    } else {
        lemma_rwlock_dequeue(m, addr, read, 0, 0);
    }
    lemma_rwlock_dequeue(m, addr, lock.try_read_lock(t).0, 0, 0);
    let (write, w) = lock.write_lock(t);
    if w == LockOutcome::Blocked {
        lemma_rwlock_enqueue(
            m,
            addr,
            write,
            t,
            ThreadView {
                state: ThreadState::Blocked(BlockReason::RwLockWrite(addr)),
                ..m.threads[t as int]
            },
            false,
        );
    } else {
        lemma_rwlock_dequeue(m, addr, write, 0, 0);
    }
    lemma_rwlock_dequeue(m, addr, lock.try_write_lock(t).0, 0, 0);
}

/// An unlock and the destruction of a read-write lock keep the machine
/// consistent.
pub proof fn lemma_rwlock_unlock_consistent(m: MachineView, addr: u64)
    requires
        m.queues_consistent(),
    ensures
        m.rwlock_unlock(addr).0.queues_consistent(),
        m.rwlock_destroy(addr).0.queues_consistent(),
{
    lemma_objects_removed(m, m.rwlock_destroy(addr).0);
    if m.sync.rwlocks.contains_key(addr) {
        let lock = m.sync.rwlocks[addr];
        let readers = lock.reader_queue;
        let writers = lock.writer_queue;
        assert(readers.subrange(0, readers.len() as int) =~= readers);
        assert(writers.subrange(0, writers.len() as int) =~= writers);
        assert(writers.subrange(1, writers.len() as int) =~= writers.subrange(
            1,
            writers.len() as int,
        ));
        assert(readers.subrange(readers.len() as int, readers.len() as int) =~= Seq::<
            ThreadId,
        >::empty());
        match lock.unlock(m.active_thread) {
            (_, None) => {},
            (next, Some(woken)) => {
                let m2 = m.with_rwlock(addr, next);
                if next.writer_queue.len() < writers.len() {
                    lemma_rwlock_dequeue(m, addr, next, 0, 1);
                    assert(woken =~= seq![writers[0]]);
                    assert(m2.not_queued(writers[0]));
                } else if next.reader_queue.len() < readers.len() {
                    lemma_rwlock_dequeue(m, addr, next, readers.len() as int, 0);
                    assert(woken =~= readers);
                } else {
                    lemma_rwlock_dequeue(m, addr, next, 0, 0);
                    assert(woken.len() == 0);
                }
                lemma_wake_all(m2, woken);
            },
        }
    }
}

/// The initialization and the destruction of a condition variable keep the
/// machine consistent.
pub proof fn lemma_cond_init_consistent(m: MachineView, addr: u64, attr: Option<u64>)
    requires
        m.queues_consistent(),
    ensures
        m.cond_init(addr, attr).0.queues_consistent(),
        m.cond_destroy(addr).0.queues_consistent(),
{
    lemma_objects_removed(m, m.cond_destroy(addr).0);
    lemma_condvar_dequeue(m, addr, CondvarView::new(), Seq::<int>::empty());
}

/// The active thread, which runs, reacquires a mutex after a wait: the
/// machine stays consistent.
pub proof fn lemma_reacquire_consistent(m: MachineView, resume: WaitResume)
    requires
        m.wf(),
        m.queues_consistent(),
        m.active().state is Runnable,
    ensures
        m.reacquire(resume).0.queues_consistent(),
{
    let t = m.active_thread;
    if m.sync.mutexes.contains_key(resume.mutex) {
        let queue = m.sync.mutexes[resume.mutex].queue;
        assert(queue.subrange(0, queue.len() as int) =~= queue);
        lemma_unblocked_not_queued(m, t);
        let (locked, out) = m.sync.mutexes[resume.mutex].lock(t);
        if out == LockOutcome::Blocked {
            lemma_mutex_enqueue(
                m,
                resume.mutex,
                locked,
                t,
                ThreadView {
                    state: ThreadState::Blocked(BlockReason::Mutex(resume.mutex)),
                    ..m.threads[t as int]
                },
            );
        } else {
            lemma_mutex_dequeue(m, resume.mutex, locked, 0);
            lemma_same_queues_same_states(m.with_mutex(resume.mutex, locked), m.reacquire(resume).0);
        }
    }
}

/// A waiter that stands in no queue and runs again leaves the machine
/// consistent, and leaves out of the queues who was out of them.
pub proof fn lemma_resume_waiter_consistent(m: MachineView, w: CondvarWaiter, timed_out: bool)
    requires
        m.queues_consistent(),
        m.not_queued(w.thread),
    ensures
        m.resume_waiter(w, timed_out).queues_consistent(),
        forall|u: ThreadId| m.not_queued(u) ==> m.resume_waiter(w, timed_out).not_queued(u),
{
    lemma_change_unqueued_thread(
        m,
        w.thread,
        ThreadView {
            state: ThreadState::Runnable,
            timeout: None,
            resume: Some(WaitResume { mutex: w.mutex, timed_out }),
            ..m.threads[w.thread as int]
        },
    );
}

/// The indices 1, 2, ... up to `n`: where the waiters of a queue stood
/// before the first one left.
pub open spec fn tail_places(n: nat) -> Seq<int> {
    Seq::new(n, |i: int| i + 1)
}

/// The indices up to `n` without `gone`: where the waiters of a queue stood
/// before the one at `gone` left.
pub open spec fn places_without(n: nat, gone: int) -> Seq<int> {
    Seq::new(
        n,
        |i: int|
            if i < gone {
                i
            } else {
                i + 1
            },
    )
}

/// Waiters that stand in no queue and run again leave the machine consistent.
pub proof fn lemma_resume_all_consistent(m: MachineView, ws: Seq<CondvarWaiter>)
    requires
        m.queues_consistent(),
        forall|i: int| 0 <= i < ws.len() ==> m.not_queued((#[trigger] ws[i]).thread),
    ensures
        m.resume_all(ws).queues_consistent(),
    decreases ws.len(),
{
    if ws.len() > 0 {
        lemma_resume_waiter_consistent(m, ws[0], false);
        let rest = ws.drop_first();
        let m2 = m.resume_waiter(ws[0], false);
        assert forall|i: int| 0 <= i < rest.len() implies m2.not_queued((#[trigger] rest[i]).thread) by {
            assert(rest[i] == ws[i + 1]);
        }
        lemma_resume_all_consistent(m2, rest);
    }
}

/// A signal and a broadcast on a condition variable keep the machine
/// consistent.
pub proof fn lemma_cond_signal_consistent(m: MachineView, cond: u64)
    requires
        m.queues_consistent(),
    ensures
        m.cond_signal(cond).0.queues_consistent(),
        m.cond_broadcast(cond).0.queues_consistent(),
{
    if m.sync.condvars.contains_key(cond) {
        let waiters = m.sync.condvars[cond].waiters;
        assert(m.condvar_ok(cond));
        if waiters.len() > 0 {
            let (c, w) = m.sync.condvars[cond].signal();
            let places = tail_places((waiters.len() - 1) as nat);
            assert(kept(waiters, c.waiters, places));
            lemma_condvar_dequeue(m, cond, c, places);
            assert(m.with_condvar(cond, c).not_queued(waiters[0].thread));
            lemma_resume_waiter_consistent(m.with_condvar(cond, c), waiters[0], false);
        }
        let cleared = m.with_condvar(cond, CondvarView::new());
        lemma_condvar_dequeue(m, cond, CondvarView::new(), Seq::<int>::empty());
        assert forall|i: int| 0 <= i < waiters.len() implies cleared.not_queued(
            (#[trigger] waiters[i]).thread,
        ) by {}
        lemma_resume_all_consistent(cleared, waiters);
    }
}

/// A call of a wait by the active thread, which runs, keeps the machine
/// consistent.
pub proof fn lemma_cond_wait_consistent(
    m: MachineView,
    cond: u64,
    mutex: u64,
    timeout: Option<Timeout>,
)
    requires
        m.wf(),
        m.queues_consistent(),
        m.active().state is Runnable,
    ensures
        m.cond_wait(cond, mutex, timeout).0.queues_consistent(),
{
    match m.active().resume {
        Some(resume) => {
            lemma_reacquire_consistent(m, resume);
        },
        None => {
            if m.cond_wait_check(cond, mutex) is Ok {
                let t = m.active_thread;
                lemma_unblocked_not_queued(m, t);
                lemma_release_mutex_consistent(m, mutex, t);
                let released = m.release_mutex(mutex, t).0;
                lemma_condvar_enqueue(
                    released,
                    cond,
                    released.sync.condvars[cond].wait(t, mutex),
                    t,
                    mutex,
                    ThreadView {
                        state: ThreadState::Blocked(BlockReason::Condvar { cond, mutex }),
                        timeout,
                        ..released.threads[t as int]
                    },
                );
            }
        },
    }
}

/// What `first_index_of` finds: the first index at which thread `t` waits,
/// or the length of the queue if it does not wait.
pub proof fn lemma_first_index_is_first(waiters: Seq<CondvarWaiter>, t: ThreadId)
    ensures
        0 <= first_index_of(waiters, t) <= waiters.len(),
        first_index_of(waiters, t) < waiters.len() ==> waiters[first_index_of(waiters, t)].thread
            == t,
        forall|j: int| 0 <= j < first_index_of(waiters, t) ==> (#[trigger] waiters[j]).thread != t,
    decreases waiters.len(),
{
    if waiters.len() > 0 && waiters[0].thread != t {
        let rest = waiters.drop_first();
        lemma_first_index_is_first(rest, t);
        assert forall|j: int| 0 <= j < first_index_of(waiters, t) implies (#[trigger] waiters[j]).thread
            != t by {
            if j > 0 {
                assert(waiters[j] == rest[j - 1]);
            }
        }
    }
}

/// A thread that is blocked on a condition variable and does not stand in
/// the queue of that condition variable stands in no queue.
pub proof fn lemma_waiter_not_queued(m: MachineView, t: ThreadId, cond: u64, mutex: u64)
    requires
        m.queues_consistent(),
        m.blocked_on(t, BlockReason::Condvar { cond, mutex }),
        forall|i: int| 0 <= i < condvar_queue(m, cond).len() ==> (#[trigger] condvar_queue(m, cond)[i]).thread != t,
    ensures
        m.not_queued(t),
{
    assert forall|a: u64, i: int|
        m.sync.mutexes.contains_key(a) && 0 <= i < m.sync.mutexes[a].queue.len() implies #[trigger] m.sync.mutexes[a].queue[i]
        != t by {
        assert(m.mutex_ok(a));
    }
    assert forall|a: u64, i: int|
        m.sync.rwlocks.contains_key(a) && 0 <= i < m.sync.rwlocks[a].reader_queue.len() implies #[trigger] m.sync.rwlocks[a].reader_queue[i]
        != t by {
        assert(m.rwlock_ok(a));
    }
    assert forall|a: u64, i: int|
        m.sync.rwlocks.contains_key(a) && 0 <= i < m.sync.rwlocks[a].writer_queue.len() implies #[trigger] m.sync.rwlocks[a].writer_queue[i]
        != t by {
        assert(m.rwlock_ok(a));
    }
    assert forall|a: u64, i: int|
        m.sync.condvars.contains_key(a) && 0 <= i < m.sync.condvars[a].waiters.len() implies (#[trigger] m.sync.condvars[a].waiters[i]).thread
        != t by {
        assert(m.condvar_ok(a));
        if a == cond {
            assert(condvar_queue(m, cond)[i].thread != t);
        }
    }
}

/// The passing of a deadline keeps the machine consistent.
pub proof fn lemma_timeout_consistent(m: MachineView, t: ThreadId)
    requires
        m.queues_consistent(),
    ensures
        m.timeout_thread(t).queues_consistent(),
{
    match m.timed_wait_of(t) {
        None => {},
        Some((timeout, cond, mutex)) => {
            let left = if m.sync.condvars.contains_key(cond) {
                m.with_condvar(cond, m.sync.condvars[cond].remove_waiter(t).0)
            } else {
                m
            };
            if m.sync.condvars.contains_key(cond) {
                let waiters = m.sync.condvars[cond].waiters;
                let i = first_index_of(waiters, t);
                lemma_first_index_is_first(waiters, t);
                assert(m.condvar_ok(cond));
                if i < waiters.len() {
                    let places = places_without((waiters.len() - 1) as nat, i);
                    assert(kept(waiters, waiters.remove(i), places));
                    lemma_condvar_dequeue(m, cond, CondvarView { waiters: waiters.remove(i) }, places);
                    assert(left.not_queued(waiters[i].thread));
                } else {
                    lemma_waiter_not_queued(m, t, cond, mutex);
                }
            } else {
                lemma_waiter_not_queued(m, t, cond, mutex);
            }
            let w = CondvarWaiter { thread: t, mutex };
            lemma_resume_waiter_consistent(left, w, true);
            lemma_same_queues_same_states(left.resume_waiter(w, true), m.timeout_thread(t));
        },
    }
}

/// The creation of a thread, a join by the active thread, which runs, and
/// a detachment keep the machine consistent.
pub proof fn lemma_thread_table_consistent(
    m: MachineView,
    target: ThreadId,
    retval: Option<PlaceTy>,
)
    requires
        m.wf(),
        m.queues_consistent(),
        m.active().state is Runnable,
    ensures
        m.create_thread().0.queues_consistent(),
        m.join_thread(target, retval).0.queues_consistent(),
        m.detach_thread(target).0.queues_consistent(),
        m.yield_active_thread().queues_consistent(),
{
    lemma_same_queues_same_states(m, m.create_thread().0);
    lemma_same_queues_same_states(m, m.detach_thread(target).0);
    lemma_same_queues_same_states(m, m.yield_active_thread());
    if m.join_check(target, retval) is Ok {
        let joined = m.threads[target as int];
        match joined.state {
            ThreadState::Finished(_) => {
                lemma_same_queues_same_states(m, m.join_thread(target, retval).0);
            },
            _ => {
                let marked = m.with_thread(
                    target,
                    ThreadView {
                        join_status: ThreadJoinStatus::Joined,
                        joiner: Some(crate::thread::Joiner { thread: m.active_thread, retval }),
                        ..joined
                    },
                );
                lemma_unblocked_not_queued(m, m.active_thread);
                lemma_same_queues_same_states(m, marked);
                lemma_change_unqueued_thread(
                    marked,
                    m.active_thread,
                    ThreadView {
                        state: ThreadState::Blocked(BlockReason::Join(target)),
                        ..marked.threads[m.active_thread as int]
                    },
                );
            },
        }
    }
}

/// The end of the active thread, which runs, keeps the machine consistent.
pub proof fn lemma_finish_consistent(m: MachineView, outcome: ThreadOutcome)
    requires
        m.wf(),
        m.queues_consistent(),
        m.active().state is Runnable,
    ensures
        m.finish_active_thread(outcome).0.queues_consistent(),
{
    if m.finish_active_thread(outcome).1 is Ok {
        lemma_unblocked_not_queued(m, m.active_thread);
        let finished = m.with_active(
            ThreadView { state: ThreadState::Finished(outcome), joiner: None, ..m.active() },
        );
        lemma_change_unqueued_thread(
            m,
            m.active_thread,
            ThreadView { state: ThreadState::Finished(outcome), joiner: None, ..m.active() },
        );
        match m.active().joiner {
            Some(j) => {
                let delivered = finished.deliver(outcome, j.retval);
                lemma_same_queues_same_states(finished, delivered);
                if delivered.blocked_on(j.thread, BlockReason::Join(m.active_thread)) {
                    lemma_unblocked_not_queued(delivered, j.thread);
                    lemma_wake(delivered, j.thread);
                }
            },
            None => {},
        }
    }
}

/// The scheduler keeps the machine consistent.
pub proof fn lemma_schedule_consistent(m: MachineView)
    requires
        m.queues_consistent(),
    ensures
        m.schedule().0.queues_consistent(),
{
    let served = MachineView { yield_active_thread: false, ..m };
    lemma_same_queues_same_states(m, served);
    let next = m.next_runnable(0, m.active_thread as int);
    if next < m.threads.len() {
        lemma_same_queues_same_states(m, MachineView { active_thread: next as u32, ..served });
    }
    match m.earliest_timeout(m.threads.len()) {
        Some(t) => {
            lemma_timeout_consistent(served, t);
        },
        None => {},
    }
}

/// When the scheduler says to execute a step, the active thread is one that
/// runs.
pub proof fn lemma_schedule_picks_runnable(m: MachineView)
    requires
        m.wf(),
    ensures
        m.schedule().1 == Ok::<crate::thread::SchedulingAction, crate::errors::InterpError>(
            crate::thread::SchedulingAction::ExecuteStep,
        ) ==> m.schedule().0.active().state is Runnable && m.schedule().0.wf(),
{
    lemma_next_runnable_is_runnable(m, 0, m.active_thread as int);
}

/// The thread that `next_runnable` finds is runnable.
pub proof fn lemma_next_runnable_is_runnable(m: MachineView, from: int, skip: int)
    requires
        0 <= from,
    ensures
        from <= m.next_runnable(from, skip) <= m.threads.len() || m.next_runnable(from, skip)
            == m.threads.len(),
        m.next_runnable(from, skip) < m.threads.len() ==> m.threads[m.next_runnable(
            from,
            skip,
        )].state is Runnable,
    decreases m.threads.len() - from,
{
    if from < m.threads.len() && !(m.threads[from].state is Runnable && from != skip) {
        lemma_next_runnable_is_runnable(m, from + 1, skip);
    }
}

/// A machine at start-up is consistent, and its one thread runs.
pub proof fn lemma_new_machine_consistent(
    target_os: TargetOs,
    panic_strategy: PanicStrategy,
    track_borrows: bool,
)
    ensures
        MachineView::new(target_os, panic_strategy, track_borrows).wf(),
        MachineView::new(target_os, panic_strategy, track_borrows).queues_consistent(),
        MachineView::new(target_os, panic_strategy, track_borrows).active().state is Runnable,
{
}

/// No wake-up is lost. When the owner of a mutex of a consistent machine
/// gives up its last hold while threads wait, the mutex is free afterwards,
/// and the thread that has waited longest has left the queue and is runnable,
/// to ask for the mutex again. Every other waiter still waits.
pub proof fn lemma_unlock_wakes_the_first_waiter(m: MachineView, addr: u64)
    requires
        m.wf(),
        m.queues_consistent(),
        m.sync.mutexes.contains_key(addr),
        m.sync.mutexes[addr].owner == Some(m.active_thread),
        m.sync.mutexes[addr].hold_count == 1,
        m.sync.mutexes[addr].queue.len() > 0,
    ensures
        ({
            let queue = m.sync.mutexes[addr].queue;
            let (after, r) = m.mutex_unlock(addr);
            &&& r is Ok
            &&& after.sync.mutexes[addr].owner is None
            &&& after.sync.mutexes[addr].hold_count == 0
            &&& after.sync.mutexes[addr].queue == queue.subrange(1, queue.len() as int)
            &&& queue[0] < after.threads.len()
            &&& after.threads[queue[0] as int].state == ThreadState::Runnable
            &&& after.queues_consistent()
        }),
{
    assert(m.mutex_ok(addr));
    assert(m.blocked_on(m.sync.mutexes[addr].queue[0], BlockReason::Mutex(addr)));
    lemma_mutex_unlock_consistent(m, addr);
}

/// The thread that an unlock has woken gets the mutex when it asks again,
/// unless another thread has taken the mutex in between: then it is blocked
/// again, at the back of the queue.
pub proof fn lemma_woken_thread_retries(m: MachineView, addr: u64, t: ThreadId)
    requires
        m.wf(),
        t == m.active_thread,
        m.sync.mutexes.contains_key(addr),
    ensures
        ({
            let mutex = m.sync.mutexes[addr];
            let (after, r) = m.mutex_lock(addr);
            &&& mutex.owner is None ==> r == Ok::<LockOutcome, crate::errors::InterpError>(
                LockOutcome::Acquired,
            ) && after.sync.mutexes[addr].owner == Some(t) && after.threads == m.threads
            &&& mutex.owner is Some && mutex.owner != Some(t) ==> r == Ok::<
                LockOutcome,
                crate::errors::InterpError,
            >(LockOutcome::Blocked) && after.sync.mutexes[addr].queue == mutex.queue.push(t)
                && after.blocked_on(t, BlockReason::Mutex(addr))
        }),
{
}

/// When the last holder of a read-write lock of a consistent machine lets
/// go of it, every thread that leaves a queue of the lock is runnable
/// afterwards, and none of them holds the lock: each asks for it again.
pub proof fn lemma_rwlock_unlock_wakes_the_waiters(m: MachineView, addr: u64, i: int)
    requires
        m.wf(),
        m.queues_consistent(),
        m.sync.rwlocks.contains_key(addr),
        m.sync.rwlocks[addr].wf(),
        m.sync.rwlocks[addr].unlock(m.active_thread).1 is Some,
        0 <= i < m.sync.rwlocks[addr].unlock(m.active_thread).1->Some_0.len(),
    ensures
        ({
            let woken = m.sync.rwlocks[addr].unlock(m.active_thread).1->Some_0;
            let (after, r) = m.rwlock_unlock(addr);
            &&& r is Ok
            &&& woken[i] < after.threads.len()
            &&& after.threads[woken[i] as int].state == ThreadState::Runnable
            &&& !after.sync.rwlocks[addr].is_locked()
        }),
{
    let (lock, woken) = m.sync.rwlocks[addr].unlock(m.active_thread);
    let woken = woken->Some_0;
    let m2 = m.with_rwlock(addr, lock);
    assert(m.rwlock_ok(addr));
    let readers = m.sync.rwlocks[addr].reader_queue;
    let writers = m.sync.rwlocks[addr].writer_queue;
    if lock.writer_queue.len() < writers.len() {
        assert(woken =~= seq![writers[0]]);
        assert(m.blocked_on(writers[0], BlockReason::RwLockWrite(addr)));
    } else {
        assert(woken =~= readers);
        assert(m.blocked_on(readers[i], BlockReason::RwLockRead(addr)));
    }
    lemma_wake_all_wakes(m2, woken, i);
}

/// Waking threads makes each of them that was blocked runnable.
pub proof fn lemma_wake_all_wakes(m: MachineView, ts: Seq<ThreadId>, i: int)
    requires
        0 <= i < ts.len(),
        ts[i] < m.threads.len(),
        m.threads[ts[i] as int].state is Blocked,
    ensures
        m.wake_all(ts).threads.len() == m.threads.len(),
        m.wake_all(ts).threads[ts[i] as int].state == ThreadState::Runnable,
        m.wake_all(ts).sync == m.sync,
    decreases ts.len(),
{
    lemma_wake_all_keeps(m, ts, ts[i]);
    if i > 0 {
        let rest = ts.drop_first();
        assert(rest[i - 1] == ts[i]);
        if m.wake(ts[0]).threads[ts[i] as int].state is Blocked {
            lemma_wake_all_wakes(m.wake(ts[0]), rest, i - 1);
        } else {
            lemma_wake_all_keeps(m.wake(ts[0]), rest, ts[i]);
        }
    } else {
        lemma_wake_all_keeps(m.wake(ts[0]), ts.drop_first(), ts[0]);
    }
}

/// Waking threads leaves the threads that run running, and changes neither
/// the number of threads nor the synchronization objects.
pub proof fn lemma_wake_all_keeps(m: MachineView, ts: Seq<ThreadId>, t: ThreadId)
    requires
        t < m.threads.len(),
    ensures
        m.wake_all(ts).threads.len() == m.threads.len(),
        m.wake_all(ts).sync == m.sync,
        m.threads[t as int].state == ThreadState::Runnable ==> m.wake_all(ts).threads[t as int].state
            == ThreadState::Runnable,
    decreases ts.len(),
{
    if ts.len() > 0 {
        lemma_wake_all_keeps(m.wake(ts[0]), ts.drop_first(), t);
    }
}

} // verus!
