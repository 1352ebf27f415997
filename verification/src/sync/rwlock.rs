//! The read-write lock state machine, and the laws it obeys.

use vstd::prelude::*;
use std::collections::HashMap;
use std::collections::VecDeque;
use crate::thread::ThreadId;
use crate::sync::mutex::LockOutcome;

verus! {

broadcast use vstd::std_specs::hash::group_hash_axioms;

/// A read-write lock. A thread may hold it as a reader several times over.
#[derive(Debug)]
pub struct RwLock {
    pub writer: Option<ThreadId>,
    /// The threads that hold the lock as readers, each with the number of
    /// its holds.
    pub readers: HashMap<ThreadId, u32>,
    /// The threads blocked for writing, the longest waiting first.
    pub writer_queue: VecDeque<ThreadId>,
    /// The threads blocked for reading, the longest waiting first.
    pub reader_queue: VecDeque<ThreadId>,
}

pub struct RwLockView {
    pub writer: Option<ThreadId>,
    pub readers: Map<ThreadId, u32>,
    pub writer_queue: Seq<ThreadId>,
    pub reader_queue: Seq<ThreadId>,
}

impl View for RwLock {
    type V = RwLockView;

    open spec fn view(&self) -> RwLockView {
        RwLockView {
            writer: self.writer,
            readers: self.readers@,
            writer_queue: self.writer_queue@,
            reader_queue: self.reader_queue@,
        }
    }
}

impl RwLockView {
    /// A free lock on which nobody waits.
    pub open spec fn new() -> RwLockView {
        RwLockView {
            writer: None,
            readers: Map::empty(),
            writer_queue: Seq::empty(),
            reader_queue: Seq::empty(),
        }
    }

    pub open spec fn is_write_locked(self) -> bool {
        self.writer.is_some()
    }

    pub open spec fn is_locked(self) -> bool {
        self.writer.is_some() || !self.readers.is_empty()
    }

    /// Readers and a writer never hold the lock together: either there are
    /// readers and no writer, or one writer and no reader, or the lock is free.
    pub open spec fn exclusive(self) -> bool {
        ||| !self.readers.is_empty() && self.writer is None
        ||| self.writer is Some && self.readers.is_empty()
        ||| self.writer is None && self.readers.is_empty()
    }

    /// The lock is exclusive, and every reader holds it at least once.
    pub open spec fn wf(self) -> bool {
        &&& self.exclusive()
        &&& forall|t: ThreadId| self.readers.contains_key(t) ==> #[trigger] self.readers[t] > 0
    }

    /// Every thread the lock names has an identity below `n`.
    pub open spec fn ids_below(self, n: nat) -> bool {
        &&& self.writer matches Some(w) ==> w < n
        &&& forall|t: ThreadId| self.readers.contains_key(t) ==> t < n
        &&& forall|i: int| 0 <= i < self.writer_queue.len() ==> self.writer_queue[i] < n
        &&& forall|i: int| 0 <= i < self.reader_queue.len() ==> self.reader_queue[i] < n
    }

    /// Thread `t` asks for the lock as a reader and is ready to block.
    pub open spec fn read_lock(self, t: ThreadId) -> (RwLockView, LockOutcome) {
        if self.writer is Some {
            (
                RwLockView { reader_queue: self.reader_queue.push(t), ..self },
                LockOutcome::Blocked,
            )
        } else if !self.readers.contains_key(t) {
            (RwLockView { readers: self.readers.insert(t, 1), ..self }, LockOutcome::Acquired)
        } else if self.readers[t] < u32::MAX {
            (
                RwLockView {
                    readers: self.readers.insert(t, (self.readers[t] + 1) as u32),
                    ..self
                },
                LockOutcome::Acquired,
            )
        } else {
            (self, LockOutcome::TooManyRecursions)
        }
    }

    /// Thread `t` asks for the lock as a reader and does not want to block.
    pub open spec fn try_read_lock(self, t: ThreadId) -> (RwLockView, LockOutcome) {
        if self.writer is Some {
            (self, LockOutcome::Busy)
        } else {
            self.read_lock(t)
        }
    }

    /// Thread `t` asks for the lock as the writer and is ready to block.
    pub open spec fn write_lock(self, t: ThreadId) -> (RwLockView, LockOutcome) {
        if self.is_locked() {
            (
                RwLockView { writer_queue: self.writer_queue.push(t), ..self },
                LockOutcome::Blocked,
            )
        } else {
            (RwLockView { writer: Some(t), ..self }, LockOutcome::Acquired)
        }
    }

    /// Thread `t` asks for the lock as the writer and does not want to block.
    pub open spec fn try_write_lock(self, t: ThreadId) -> (RwLockView, LockOutcome) {
        if self.is_locked() {
            (self, LockOutcome::Busy)
        } else {
            self.write_lock(t)
        }
    }

    /// Who is woken after a holder let go of the lock. While the lock is
    /// still held, nobody. From a free lock the writer that has waited
    /// longest leaves its queue; if no writer waits, all waiting readers
    /// leave theirs. The second component lists the threads that left a
    /// queue, in the order in which they came. They are to be woken; none of
    /// them holds the lock, and each asks for it again when it runs.
    pub open spec fn release_waiters(self) -> (RwLockView, Seq<ThreadId>) {
        if self.is_locked() {
            (self, Seq::empty())
        } else if self.writer_queue.len() > 0 {
            (
                RwLockView {
                    writer_queue: self.writer_queue.subrange(1, self.writer_queue.len() as int),
                    ..self
                },
                seq![self.writer_queue[0]],
            )
        } else {
            (RwLockView { reader_queue: Seq::empty(), ..self }, self.reader_queue)
        }
    }

    /// Thread `t` gives up one hold on the lock, as a reader if it is one,
    /// else as the writer. `None` if it holds the lock in neither way;
    /// otherwise the threads that left a queue to be woken.
    pub open spec fn unlock(self, t: ThreadId) -> (RwLockView, Option<Seq<ThreadId>>) {
        if self.readers.contains_key(t) {
            let readers = if self.readers[t] > 1 {
                self.readers.insert(t, (self.readers[t] - 1) as u32)
            } else {
                self.readers.remove(t)
            };
            let (next, woken) = (RwLockView { readers, ..self }).release_waiters();
            (next, Some(woken))
        } else if self.writer == Some(t) {
            let (next, woken) = (RwLockView { writer: None, ..self }).release_waiters();
            (next, Some(woken))
        } else {
            (self, None)
        }
    }
}

impl RwLock {
    /// A free lock.
    pub fn new() -> (l: RwLock)
        ensures
            l@ == RwLockView::new(),
    {
        let l = RwLock {
            writer: None,
            readers: HashMap::new(),
            writer_queue: VecDeque::new(),
            reader_queue: VecDeque::new(),
        };
        assert(l@.readers =~= Map::empty());
        l
    }

    pub fn is_write_locked(&self) -> (r: bool)
        ensures
            r == self@.is_write_locked(),
    {
        self.writer.is_some()
    }

    pub fn is_locked(&self) -> (r: bool)
        ensures
            r == self@.is_locked(),
    {
        self.writer.is_some() || !self.readers.is_empty()
    }

    /// Thread `t` asks for the lock as a reader and is ready to block. It
    /// gets the lock unless a writer holds it, also when it holds it as a
    /// reader already and when writers wait.
    pub fn read_lock(&mut self, t: ThreadId) -> (r: LockOutcome)
        ensures
            (final(self)@, r) == old(self)@.read_lock(t),
    {
        if self.writer.is_some() {
            self.reader_queue.push_back(t);
            return LockOutcome::Blocked;
        }
        let held: Option<u32> = match self.readers.get(&t) {
            Some(c) => Some(*c),
            None => None,
        };
        match held {
            None => {
                self.readers.insert(t, 1);
                LockOutcome::Acquired
            },
            Some(c) => {
                if c < u32::MAX {
                    self.readers.insert(t, c + 1);
                    LockOutcome::Acquired
                } else {
                    LockOutcome::TooManyRecursions
                }
            },
        }
    }

    /// As `read_lock`, but a lock held by a writer stays as it is and the
    /// caller is told that it is busy.
    pub fn try_read_lock(&mut self, t: ThreadId) -> (r: LockOutcome)
        ensures
            (final(self)@, r) == old(self)@.try_read_lock(t),
    {
        if self.writer.is_some() {
            LockOutcome::Busy
        } else {
            self.read_lock(t)
        }
    }

    /// Thread `t` asks for the lock as the writer and is ready to block. It
    /// gets the lock only when nobody holds it.
    pub fn write_lock(&mut self, t: ThreadId) -> (r: LockOutcome)
        ensures
            (final(self)@, r) == old(self)@.write_lock(t),
    {
        if self.is_locked() {
            self.writer_queue.push_back(t);
            LockOutcome::Blocked
        } else {
            self.writer = Some(t);
            LockOutcome::Acquired
        }
    }

    /// As `write_lock`, but a held lock stays as it is and the caller is told
    /// that it is busy.
    pub fn try_write_lock(&mut self, t: ThreadId) -> (r: LockOutcome)
        ensures
            (final(self)@, r) == old(self)@.try_write_lock(t),
    {
        if self.is_locked() {
            LockOutcome::Busy
        } else {
            self.writer = Some(t);
            LockOutcome::Acquired
        }
    }

    /// Takes off the queues those who are to be woken after a holder let go
    /// of the lock, and returns them.
    fn release_waiters(&mut self) -> (woken: Vec<ThreadId>)
        ensures
            (final(self)@, woken@) == old(self)@.release_waiters(),
    {
        let mut woken: Vec<ThreadId> = Vec::new();
        if self.is_locked() {
            return woken;
        }
        match self.writer_queue.pop_front() {
            Some(w) => {
                woken.push(w);
                assert(woken@ =~= seq![w]);
                woken
            },
            None => {
                let ghost waiting = self.reader_queue@;
                while self.reader_queue.len() > 0
                    invariant
                        woken@ + self.reader_queue@ == waiting,
                        self.readers@ == old(self).readers@,
                        self.writer == old(self).writer,
                        self.writer_queue@ == old(self).writer_queue@,
                    decreases self.reader_queue.len(),
                {
                    let ghost before = woken@;
                    let ghost queue = self.reader_queue@;
                    match self.reader_queue.pop_front() {
                        Some(t) => {
                            woken.push(t);
                            proof {
                                assert(woken@ + self.reader_queue@ =~= before + queue);
                            }
                        },
                        None => {},
                    }
                }
                proof {
                    assert(woken@ =~= waiting);
                    assert(self.reader_queue@ =~= Seq::empty());
                }
                woken
            },
        }
    }

    /// Thread `t` gives up one hold on the lock, as a reader if it is one,
    /// else as the writer. `None` if it holds the lock in neither way, and
    /// then nothing changed; otherwise the threads that left a queue and
    /// have to be woken. The lock passes to none of them.
    pub fn unlock(&mut self, t: ThreadId) -> (r: Option<Vec<ThreadId>>)
        ensures
            final(self)@ == old(self)@.unlock(t).0,
            match r {
                Some(v) => old(self)@.unlock(t).1 == Some(v@),
                None => old(self)@.unlock(t).1 is None,
            },
    {
        let held: Option<u32> = match self.readers.get(&t) {
            Some(c) => Some(*c),
            None => None,
        };
        match held {
            Some(c) => {
                if c > 1 {
                    self.readers.insert(t, c - 1);
                } else {
                    self.readers.remove(&t);
                }
                Some(self.release_waiters())
            },
            None => {
                if self.writer == Some(t) {
                    self.writer = None;
                    Some(self.release_waiters())
                } else {
                    None
                }
            },
        }
    }
}

/// One call on a read-write lock.
pub enum RwLockOp {
    ReadLock(ThreadId),
    TryReadLock(ThreadId),
    WriteLock(ThreadId),
    TryWriteLock(ThreadId),
    Unlock(ThreadId),
}

impl RwLockView {
    /// The lock after the call `op`.
    pub open spec fn step(self, op: RwLockOp) -> RwLockView {
        match op {
            RwLockOp::ReadLock(t) => self.read_lock(t).0,
            RwLockOp::TryReadLock(t) => self.try_read_lock(t).0,
            RwLockOp::WriteLock(t) => self.write_lock(t).0,
            RwLockOp::TryWriteLock(t) => self.try_write_lock(t).0,
            RwLockOp::Unlock(t) => self.unlock(t).0,
        }
    }

    /// The lock after the calls `ops`, made in order.
    pub open spec fn run(self, ops: Seq<RwLockOp>) -> RwLockView
        decreases ops.len(),
    {
        if ops.len() == 0 {
            self
        } else {
            self.run(ops.drop_last()).step(ops.last())
        }
    }
}

/// Every call on a read-write lock keeps it well formed.
pub proof fn lemma_rwlock_step_wf(l: RwLockView, op: RwLockOp)
    requires
        l.wf(),
    ensures
        l.step(op).wf(),
{
    match op {
        RwLockOp::ReadLock(t) => {
            if l.writer is None {
                assert(l.read_lock(t).0.readers.contains_key(t) || l.read_lock(t).0 == l);
            }
        },
        RwLockOp::TryReadLock(t) => {
            if l.writer is None {
                assert(l.read_lock(t).0.readers.contains_key(t) || l.read_lock(t).0 == l);
            }
        },
        RwLockOp::WriteLock(t) => {},
        RwLockOp::TryWriteLock(t) => {},
        RwLockOp::Unlock(t) => {},
    }
}

/// An unlock gives the lock to nobody. When it frees a lock for which
/// writers wait, the writer that has waited longest is woken and no other
/// thread; when it frees a lock for which only readers wait, all of them are
/// woken. In both cases the lock has neither writer nor reader afterwards:
/// the threads that were woken ask for it again.
pub proof fn lemma_rwlock_unlock_wakes(l: RwLockView, t: ThreadId)
    requires
        l.wf(),
        l.unlock(t).1 is Some,
    ensures
        ({
            let (after, woken) = l.unlock(t);
            let woken = woken->Some_0;
            &&& after.writer is None
            &&& after.is_locked() ==> woken.len() == 0 && after.reader_queue == l.reader_queue
                && after.writer_queue == l.writer_queue
            &&& !after.is_locked() && l.writer_queue.len() > 0 ==> woken == seq![l.writer_queue[0]]
                && after.reader_queue == l.reader_queue
            &&& !after.is_locked() && l.writer_queue.len() == 0 ==> woken == l.reader_queue
                && after.reader_queue.len() == 0
        }),
{
}

/// Readers and writers exclude each other. After any sequence of calls on a
/// read-write lock that starts out free, either readers hold the lock and no
/// writer, or one writer and no reader, or nobody.
pub proof fn lemma_rwlock_exclusion(ops: Seq<RwLockOp>)
    ensures
        RwLockView::new().run(ops).wf(),
        RwLockView::new().run(ops).exclusive(),
    decreases ops.len(),
{
    if ops.len() > 0 {
        lemma_rwlock_exclusion(ops.drop_last());
        lemma_rwlock_step_wf(RwLockView::new().run(ops.drop_last()), ops.last());
    }
}

} // verus!
