//! The condition variable: a queue of waiting threads.

use vstd::prelude::*;
use std::collections::VecDeque;
use crate::thread::ThreadId;

verus! {

/// A thread that waits on a condition variable, and the mutex it has to
/// reacquire when it wakes.
#[derive(Clone, Copy, PartialEq, Eq, Debug, Structural)]
pub struct CondvarWaiter {
    pub thread: ThreadId,
    pub mutex: u64,
}

/// A condition variable.
#[derive(Debug)]
pub struct Condvar {
    /// The waiting threads, the longest waiting first.
    pub waiters: VecDeque<CondvarWaiter>,
}

pub struct CondvarView {
    pub waiters: Seq<CondvarWaiter>,
}

impl View for Condvar {
    type V = CondvarView;

    open spec fn view(&self) -> CondvarView {
        CondvarView { waiters: self.waiters@ }
    }
}

/// The least index at which `waiters` holds thread `t`, or the length of
/// `waiters` if it does not hold `t`.
pub open spec fn first_index_of(waiters: Seq<CondvarWaiter>, t: ThreadId) -> int
    decreases waiters.len(),
{
    if waiters.len() == 0 {
        0
    } else if waiters[0].thread == t {
        0
    } else {
        1 + first_index_of(waiters.drop_first(), t)
    }
}

/// `first_index_of` is the index `i` before which no waiter is thread `t`
/// and at which the waiter is, or the queue ends.
pub proof fn lemma_first_index_of(waiters: Seq<CondvarWaiter>, t: ThreadId, i: int)
    requires
        0 <= i <= waiters.len(),
        forall|j: int| 0 <= j < i ==> waiters[j].thread != t,
        i < waiters.len() ==> waiters[i].thread == t,
    ensures
        first_index_of(waiters, t) == i,
    decreases waiters.len(),
{
    if waiters.len() > 0 && i > 0 {
        let rest = waiters.drop_first();
        assert forall|j: int| 0 <= j < i - 1 implies rest[j].thread != t by {
            assert(rest[j] == waiters[j + 1]);
        }
        lemma_first_index_of(rest, t, i - 1);
    }
}

impl CondvarView {
    /// A condition variable on which nobody waits.
    pub open spec fn new() -> CondvarView {
        CondvarView { waiters: Seq::empty() }
    }

    pub open spec fn is_awaited(self) -> bool {
        self.waiters.len() > 0
    }

    /// Every thread in the queue has an identity below `n`.
    pub open spec fn ids_below(self, n: nat) -> bool {
        forall|i: int| 0 <= i < self.waiters.len() ==> (#[trigger] self.waiters[i]).thread < n
    }

    /// Thread `t` starts to wait, to reacquire `mutex` on wake.
    pub open spec fn wait(self, t: ThreadId, mutex: u64) -> CondvarView {
        CondvarView { waiters: self.waiters.push(CondvarWaiter { thread: t, mutex }) }
    }

    /// Takes the longest waiting thread off the queue, if there is one.
    pub open spec fn signal(self) -> (CondvarView, Option<CondvarWaiter>) {
        if self.waiters.len() > 0 {
            (
                CondvarView { waiters: self.waiters.subrange(1, self.waiters.len() as int) },
                Some(self.waiters[0]),
            )
        } else {
            (self, None)
        }
    }

    /// Takes thread `t` off the queue, where it stands first; the queue is
    /// unchanged if `t` does not wait.
    pub open spec fn remove_waiter(self, t: ThreadId) -> (CondvarView, Option<CondvarWaiter>) {
        let i = first_index_of(self.waiters, t);
        if i < self.waiters.len() {
            (CondvarView { waiters: self.waiters.remove(i) }, Some(self.waiters[i]))
        } else {
            (self, None)
        }
    }
}

impl Condvar {
    /// A condition variable on which nobody waits.
    pub fn new() -> (c: Condvar)
        ensures
            c@ == CondvarView::new(),
    {
        Condvar { waiters: VecDeque::new() }
    }

    pub fn is_awaited(&self) -> (r: bool)
        ensures
            r == self@.is_awaited(),
    {
        self.waiters.len() > 0
    }

    /// Puts thread `t` at the back of the queue.
    pub fn wait(&mut self, t: ThreadId, mutex: u64)
        ensures
            final(self)@ == old(self)@.wait(t, mutex),
    {
        self.waiters.push_back(CondvarWaiter { thread: t, mutex });
    }

    /// Takes the longest waiting thread off the queue and returns it; `None`
    /// if nobody waits.
    pub fn signal(&mut self) -> (r: Option<CondvarWaiter>)
        ensures
            (final(self)@, r) == old(self)@.signal(),
    {
        self.waiters.pop_front()
    }

    /// Takes thread `t` off the queue and returns its entry; `None`, and the
    /// queue unchanged, if `t` does not wait.
    pub fn remove_waiter(&mut self, t: ThreadId) -> (r: Option<CondvarWaiter>)
        ensures
            (final(self)@, r) == old(self)@.remove_waiter(t),
    {
        let n: usize = self.waiters.len();
        let mut i: usize = 0;
        while i < n && self.waiters[i].thread != t
            invariant
                i <= n,
                n == self.waiters@.len(),
                self.waiters@ == old(self).waiters@,
                forall|j: int| 0 <= j < i ==> self.waiters@[j].thread != t,
            decreases n - i,
        {
            i = i + 1;
        }
        proof {
            lemma_first_index_of(self.waiters@, t, i as int);
        }
        if i < n {
            self.waiters.remove(i)
        } else {
            None
        }
    }
}

} // verus!
