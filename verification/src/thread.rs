//! Guest threads: their call stacks, their run states, and the table that
//! creates, joins and detaches them.

use vstd::prelude::*;
use crate::errors::{InterpError, InterpResult, TerminationInfo, UbKind, UnsupportedKind};
use crate::eval_context::{MachineView, MiriEvalContext};
use crate::scalar::{Immediate, PlaceTy, Scalar, POINTER_SIZE};
use crate::shims::panic::CatchUnwindData;

verus! {

/// Identity of a guest thread: its index in the thread table.
pub type ThreadId = u32;

/// A label of the guest code at which execution can resume.
pub type BasicBlock = u32;

/// Identity of one guest call, as known to the borrow tracker.
pub type CallId = u64;

/// The calling convention of a function or of a call.
#[derive(Clone, Copy, PartialEq, Eq, Debug, Structural)]
pub enum Abi {
    Rust,
    C,
    System,
}

/// A guest function that can be called.
#[derive(Clone, Copy, PartialEq, Eq, Debug, Structural)]
pub struct Instance {
    /// The address of the function's code.
    pub addr: u64,
    /// The calling convention the function is declared with.
    pub abi: Abi,
    /// The number of arguments it takes.
    pub arity: u64,
    /// Whether the function belongs to the guest's standard library.
    pub in_std: bool,
}

/// Where control goes when a frame is popped while unwinding.
#[derive(Clone, Copy, PartialEq, Eq, Debug, Structural)]
pub enum StackPopUnwind {
    /// Continue at the given cleanup label of the caller.
    Cleanup(BasicBlock),
    /// The caller has no cleanup to run: pop it too.
    Skip,
    /// Unwinding out of this frame is not allowed.
    NotAllowed,
}

/// What happens when a frame is popped.
#[derive(Clone, Copy, PartialEq, Eq, Debug, Structural)]
pub enum StackPopCleanup {
    /// Jump to `ret` in the caller on a normal return (`None`: the function
    /// never returns normally), and follow `unwind` when unwinding.
    Goto { ret: Option<BasicBlock>, unwind: StackPopUnwind },
    /// The frame is the bottom of its stack.
    Root { cleanup: bool },
}

/// Where a frame continues when its thread runs next.
#[derive(Clone, Copy, PartialEq, Eq, Debug, Structural)]
pub enum FrameLoc {
    /// At the start of the given block.
    Block(BasicBlock),
    /// Nowhere: the frame is unwinding and has no cleanup to run, so it is
    /// popped next.
    Unwinding,
}

/// What the frame-pop hook tells the interpreter core.
#[derive(Clone, Copy, PartialEq, Eq, Debug, Structural)]
pub enum StackPopJump {
    /// An ordinary pop: the core performs the jump the frame asked for.
    Normal,
    /// A new frame was pushed: the core must not jump.
    NoJump,
}

/// The data that this runtime attaches to every frame. It leaves the
/// frame when the frame is popped, and goes to the frame-pop hook.
#[derive(PartialEq, Eq, Debug, Structural)]
pub struct FrameData {
    /// The call's identity for the borrow tracker.
    pub call_id: CallId,
    /// Present on the frame of a function that runs under a protected call.
    pub catch_panic: Option<CatchUnwindData>,
}

/// One activation record on a guest thread's call stack.
#[derive(Debug)]
pub struct Frame {
    pub instance: Instance,
    pub args: Vec<Immediate>,
    pub return_place: Option<PlaceTy>,
    pub return_to_block: StackPopCleanup,
    pub loc: FrameLoc,
    pub extra: FrameData,
}

pub struct FrameView {
    pub instance: Instance,
    pub args: Seq<Immediate>,
    pub return_place: Option<PlaceTy>,
    pub return_to_block: StackPopCleanup,
    pub loc: FrameLoc,
    pub extra: FrameData,
}

impl View for Frame {
    type V = FrameView;

    open spec fn view(&self) -> FrameView {
        FrameView {
            instance: self.instance,
            args: self.args@,
            return_place: self.return_place,
            return_to_block: self.return_to_block,
            loc: self.loc,
            extra: self.extra,
        }
    }
}

/// Why a thread cannot run.
#[derive(Clone, Copy, PartialEq, Eq, Debug, Structural)]
pub enum BlockReason {
    /// Waiting to acquire the mutex at the given address.
    Mutex(u64),
    /// Waiting to acquire the read-write lock at the given address as a reader.
    RwLockRead(u64),
    /// Waiting to acquire the read-write lock at the given address as the writer.
    RwLockWrite(u64),
    /// Waiting on the condition variable at `cond`, to reacquire `mutex` on wake.
    Condvar { cond: u64, mutex: u64 },
    /// Waiting for the given thread to finish.
    Join(ThreadId),
}

/// How a thread ended.
#[derive(Clone, Copy, PartialEq, Eq, Debug, Structural)]
pub enum ThreadOutcome {
    /// Its start function returned the given value.
    Returned(Scalar),
    /// A panic unwound its whole stack.
    Panicked,
}

/// The run state of a thread.
#[derive(Clone, Copy, PartialEq, Eq, Debug, Structural)]
pub enum ThreadState {
    Runnable,
    Blocked(BlockReason),
    Finished(ThreadOutcome),
}

/// Whether a thread can still be joined.
#[derive(Clone, Copy, PartialEq, Eq, Debug, Structural)]
pub enum ThreadJoinStatus {
    /// No thread has joined or detached it.
    Joinable,
    /// It is reclaimed as soon as it finishes.
    Detached,
    /// A thread has joined it, or waits to.
    Joined,
}

/// The thread that waits in a join, and where it wants the return value.
#[derive(Clone, Copy, PartialEq, Eq, Debug, Structural)]
pub struct Joiner {
    pub thread: ThreadId,
    pub retval: Option<PlaceTy>,
}

/// The deadline of a timed wait, in nanoseconds of simulated time.
#[derive(Clone, Copy, PartialEq, Eq, Debug, Structural)]
pub struct Timeout {
    pub deadline: u64,
}

/// What a thread that was woken from a wait on a condition variable has
/// still to do before its wait returns: reacquire the mutex it waited with.
#[derive(Clone, Copy, PartialEq, Eq, Debug, Structural)]
pub struct WaitResume {
    /// The mutex to reacquire.
    pub mutex: u64,
    /// Whether the wait ended because its deadline passed.
    pub timed_out: bool,
}

/// A guest thread.
#[derive(Debug)]
pub struct Thread {
    pub state: ThreadState,
    pub join_status: ThreadJoinStatus,
    /// The thread blocked in a join on this one, if any.
    pub joiner: Option<Joiner>,
    pub stack: Vec<Frame>,
    /// The payload of the panic that currently unwinds this thread.
    pub panic_payload: Option<Scalar>,
    /// The thread's "last error" side channel.
    pub last_error: Scalar,
    /// The deadline of the timed wait the thread is blocked in.
    pub timeout: Option<Timeout>,
    /// Set while the thread is between the end of a wait on a condition
    /// variable and the return of that wait.
    pub resume: Option<WaitResume>,
}

pub struct ThreadView {
    pub state: ThreadState,
    pub join_status: ThreadJoinStatus,
    pub joiner: Option<Joiner>,
    pub stack: Seq<FrameView>,
    pub panic_payload: Option<Scalar>,
    pub last_error: Scalar,
    pub timeout: Option<Timeout>,
    pub resume: Option<WaitResume>,
}

impl View for Thread {
    type V = ThreadView;

    open spec fn view(&self) -> ThreadView {
        ThreadView {
            state: self.state,
            join_status: self.join_status,
            joiner: self.joiner,
            stack: self.stack@.map_values(|f: Frame| f@),
            panic_payload: self.panic_payload,
            last_error: self.last_error,
            timeout: self.timeout,
            resume: self.resume,
        }
    }
}

impl ThreadView {
    /// A thread that was just created: runnable, joinable, with an empty stack.
    pub open spec fn fresh() -> ThreadView {
        ThreadView {
            state: ThreadState::Runnable,
            join_status: ThreadJoinStatus::Joinable,
            joiner: None,
            stack: Seq::empty(),
            panic_payload: None,
            last_error: Scalar { data: 0, size: 4 },
            timeout: None,
            resume: None,
        }
    }

    /// A finished thread is reclaimed once it has been joined or detached.
    pub open spec fn is_reclaimed(self) -> bool {
        self.state is Finished && self.join_status != ThreadJoinStatus::Joinable
    }
}

impl Thread {
    /// A new thread: runnable, joinable, with an empty stack.
    pub fn new() -> (t: Thread)
        ensures
            t@ == ThreadView::fresh(),
    {
        let t = Thread {
            state: ThreadState::Runnable,
            join_status: ThreadJoinStatus::Joinable,
            joiner: None,
            stack: Vec::new(),
            panic_payload: None,
            last_error: Scalar { data: 0, size: 4 },
            timeout: None,
            resume: None,
        };
        assert(t@.stack =~= Seq::empty());
        t
    }
}

/// What the scheduler tells the interpreter core to do next.
#[derive(Clone, Copy, PartialEq, Eq, Debug, Structural)]
pub enum SchedulingAction {
    /// Execute one instruction of the active thread.
    ExecuteStep,
    /// No thread could run, so the simulated time has moved on to the next
    /// deadline and the wait under that deadline has timed out: schedule again.
    ExecuteTimeoutCallback,
    /// Every thread has finished: stop.
    Stop,
}

impl MachineView {
    /// Thread `t` stops running, for the given reason.
    pub open spec fn block(self, t: ThreadId, reason: BlockReason) -> MachineView {
        self.with_thread(
            t,
            ThreadView { state: ThreadState::Blocked(reason), ..self.threads[t as int] },
        )
    }

    /// Thread `t`, if it is blocked, becomes runnable again, and any
    /// deadline it waited under is dropped.
    pub open spec fn wake(self, t: ThreadId) -> MachineView {
        if t < self.threads.len() && self.threads[t as int].state is Blocked {
            self.with_thread(
                t,
                ThreadView { state: ThreadState::Runnable, timeout: None, ..self.threads[t as int] },
            )
        } else {
            self
        }
    }

    /// Thread `j`, if it waits to join thread `target`, becomes runnable again.
    pub open spec fn wake_joiner(self, j: ThreadId, target: ThreadId) -> MachineView {
        if j < self.threads.len() && self.threads[j as int].state == ThreadState::Blocked(
            BlockReason::Join(target),
        ) {
            self.wake(j)
        } else {
            self
        }
    }

    /// The threads `ts` are woken, one after the other.
    pub open spec fn wake_all(self, ts: Seq<ThreadId>) -> MachineView
        decreases ts.len(),
    {
        if ts.len() == 0 {
            self
        } else {
            self.wake(ts[0]).wake_all(ts.drop_first())
        }
    }

    /// A new thread joins the table: runnable, joinable, with an empty stack.
    /// Its identity is the number of threads that there were.
    pub open spec fn create_thread(self) -> (MachineView, InterpResult<ThreadId>) {
        if self.threads.len() >= u32::MAX {
            (self, Err(InterpError::Unsupported(UnsupportedKind::TooManyThreads)))
        } else {
            (
                MachineView { threads: self.threads.push(ThreadView::fresh()), ..self },
                Ok(self.threads.len() as u32),
            )
        }
    }

    /// Thread `t` becomes the active thread.
    pub open spec fn set_active_thread(self, t: ThreadId) -> MachineView {
        MachineView { active_thread: t, ..self }
    }

    /// Whether the active thread may join `target` and have the return
    /// value written to `retval`.
    pub open spec fn join_check(self, target: ThreadId, retval: Option<PlaceTy>) -> InterpResult<
        (),
    > {
        if target >= self.threads.len() {
            Err(InterpError::UndefinedBehavior(UbKind::InvalidThreadId))
        } else if self.threads[target as int].join_status != ThreadJoinStatus::Joinable {
            Err(InterpError::UndefinedBehavior(UbKind::JoinNotJoinable))
        } else if target == self.active_thread {
            Err(InterpError::UndefinedBehavior(UbKind::JoinSelf))
        } else {
            match retval {
                Some(p) => if p.addr == 0 {
                    Err(InterpError::UndefinedBehavior(UbKind::NullDereference))
                } else if p.layout.size != POINTER_SIZE {
                    Err(
                        InterpError::UndefinedBehavior(
                            UbKind::PlaceSizeMismatch { place: p.layout.size, value: POINTER_SIZE },
                        ),
                    )
                } else {
                    Ok(())
                },
                None => Ok(()),
            }
        }
    }

    /// The machine after the value `outcome` of a finished thread has been
    /// delivered to `retval`: a returned value is stored there, if there is a place.
    pub open spec fn deliver(self, outcome: ThreadOutcome, retval: Option<PlaceTy>) -> MachineView {
        match (outcome, retval) {
            (ThreadOutcome::Returned(v), Some(p)) => MachineView {
                memory: self.memory.insert(p.addr, v),
                ..self
            },
            _ => self,
        }
    }

    /// The active thread joins `target`. If the target has finished, its
    /// return value is delivered at once; otherwise the active thread blocks
    /// until the target finishes. Either way the target counts as joined
    /// from now on. On failure nothing has changed.
    pub open spec fn join_thread(self, target: ThreadId, retval: Option<PlaceTy>) -> (
        MachineView,
        InterpResult<()>,
    ) {
        match self.join_check(target, retval) {
            Err(e) => (self, Err(e)),
            Ok(()) => {
                let joined = self.threads[target as int];
                match joined.state {
                    ThreadState::Finished(outcome) => (
                        self.deliver(outcome, retval).with_thread(
                            target,
                            ThreadView { join_status: ThreadJoinStatus::Joined, ..joined },
                        ),
                        Ok(()),
                    ),
                    _ => (
                        self.with_thread(
                            target,
                            ThreadView {
                                join_status: ThreadJoinStatus::Joined,
                                joiner: Some(Joiner { thread: self.active_thread, retval }),
                                ..joined
                            },
                        ).block(self.active_thread, BlockReason::Join(target)),
                        Ok(()),
                    ),
                }
            },
        }
    }

    /// Thread `target` is detached: it will be reclaimed as soon as it finishes.
    pub open spec fn detach_thread(self, target: ThreadId) -> (MachineView, InterpResult<()>) {
        if target >= self.threads.len() {
            (self, Err(InterpError::UndefinedBehavior(UbKind::InvalidThreadId)))
        } else if self.threads[target as int].join_status != ThreadJoinStatus::Joinable {
            (self, Err(InterpError::UndefinedBehavior(UbKind::DetachNotJoinable)))
        } else {
            (
                self.with_thread(
                    target,
                    ThreadView {
                        join_status: ThreadJoinStatus::Detached,
                        ..self.threads[target as int]
                    },
                ),
                Ok(()),
            )
        }
    }

    /// The active thread finishes with `outcome`. A value that it returns
    /// must be pointer-sized. The thread that waits to join it, if there is
    /// one, receives the outcome and becomes runnable again.
    pub open spec fn finish_active_thread(self, outcome: ThreadOutcome) -> (
        MachineView,
        InterpResult<()>,
    ) {
        if outcome matches ThreadOutcome::Returned(v) && v.size != POINTER_SIZE {
            (
                self,
                Err(
                    InterpError::UndefinedBehavior(
                        UbKind::ScalarSizeMismatch { found: outcome->Returned_0.size, required: POINTER_SIZE },
                    ),
                ),
            )
        } else {
            let finished = self.with_active(
                ThreadView { state: ThreadState::Finished(outcome), joiner: None, ..self.active() },
            );
            match self.active().joiner {
                Some(j) => (
                    finished.deliver(outcome, j.retval).wake_joiner(j.thread, self.active_thread),
                    Ok(()),
                ),
                None => (finished, Ok(())),
            }
        }
    }

    /// The active thread asks to let another thread run.
    pub open spec fn yield_active_thread(self) -> MachineView {
        MachineView { yield_active_thread: true, ..self }
    }

    /// The least thread identity not below `from` of a runnable thread other
    /// than `skip`; the number of threads if there is none.
    pub open spec fn next_runnable(self, from: int, skip: int) -> int
        decreases self.threads.len() - from,
    {
        if from < 0 || from >= self.threads.len() {
            self.threads.len() as int
        } else if self.threads[from].state is Runnable && from != skip {
            from
        } else {
            self.next_runnable(from + 1, skip)
        }
    }

    /// Whether every thread has finished.
    pub open spec fn all_finished(self) -> bool {
        forall|i: int| 0 <= i < self.threads.len() ==> (#[trigger] self.threads[i]).state is Finished
    }

    /// Among the first `n` threads, the one that waits under the earliest
    /// deadline; of several with that deadline, the one with the least
    /// identity.
    pub open spec fn earliest_timeout(self, n: nat) -> Option<ThreadId>
        decreases n,
    {
        if n == 0 {
            None
        } else {
            let before = self.earliest_timeout((n - 1) as nat);
            let t = (n - 1) as u32;
            match (self.timed_wait_of(t), before) {
                (None, _) => before,
                (Some(_), None) => Some(t),
                (Some((timeout, _, _)), Some(b)) => if timeout.deadline
                    < self.threads[b as int].timeout->Some_0.deadline {
                    Some(t)
                } else {
                    before
                },
            }
        }
    }

    /// Chooses the thread that runs next. The active thread goes on if it
    /// is runnable and has not yielded. Otherwise the runnable thread with
    /// the least identity becomes active, where a thread that has yielded
    /// gives way to every other runnable thread and goes on only if there is
    /// no other. The request to yield is then served. If no thread is
    /// runnable, the wait under the earliest deadline times out; without a
    /// deadline the machine stops when all threads have finished, and is
    /// deadlocked when some are blocked.
    pub open spec fn schedule(self) -> (MachineView, InterpResult<SchedulingAction>) {
        if self.active().state is Runnable && !self.yield_active_thread {
            (self, Ok(SchedulingAction::ExecuteStep))
        } else {
            let next = self.next_runnable(0, self.active_thread as int);
            let served = MachineView { yield_active_thread: false, ..self };
            if next < self.threads.len() {
                (
                    MachineView { active_thread: next as u32, ..served },
                    Ok(SchedulingAction::ExecuteStep),
                )
            } else if self.active().state is Runnable {
                (served, Ok(SchedulingAction::ExecuteStep))
            } else {
                match self.earliest_timeout(self.threads.len()) {
                    Some(t) => (
                        served.timeout_thread(t),
                        Ok(SchedulingAction::ExecuteTimeoutCallback),
                    ),
                    None => if self.all_finished() {
                        (served, Ok(SchedulingAction::Stop))
                    } else {
                        (served, Err(InterpError::MachineStop(TerminationInfo::Deadlock)))
                    },
                }
            }
        }
    }
}

/// `next_runnable` is the index `i` from `from` on before which no thread is
/// runnable and allowed, and at which the thread is, or the table ends.
pub proof fn lemma_next_runnable(m: MachineView, from: int, skip: int, i: int)
    requires
        0 <= from <= i <= m.threads.len(),
        forall|j: int| from <= j < i ==> !(m.threads[j].state is Runnable && j != skip),
        i < m.threads.len() ==> m.threads[i].state is Runnable && i != skip,
    ensures
        m.next_runnable(from, skip) == i,
    decreases i - from,
{
    if from < i {
        lemma_next_runnable(m, from + 1, skip, i);
    }
}

/// Which wait times out first depends on the threads alone.
pub proof fn lemma_earliest_timeout_depends_on_threads(a: MachineView, b: MachineView, n: nat)
    requires
        a.threads == b.threads,
    ensures
        a.earliest_timeout(n) == b.earliest_timeout(n),
    decreases n,
{
    if n > 0 {
        lemma_earliest_timeout_depends_on_threads(a, b, (n - 1) as nat);
    }
}

/// A join of a thread that has finished with a value returns at once: the
/// caller does not block, the value is at the place that the caller named,
/// and the thread counts as joined, so that a second join of it is a
/// violation.
pub proof fn lemma_join_finished_thread(
    m: MachineView,
    target: ThreadId,
    retval: PlaceTy,
    value: Scalar,
)
    requires
        m.wf(),
        target < m.threads.len(),
        target != m.active_thread,
        m.threads[target as int].state == ThreadState::Finished(ThreadOutcome::Returned(value)),
        m.threads[target as int].join_status == ThreadJoinStatus::Joinable,
        retval.addr != 0,
        retval.layout.size == POINTER_SIZE,
    ensures
        ({
            let (joined, r) = m.join_thread(target, Some(retval));
            &&& r is Ok
            &&& joined.active().state == m.active().state
            &&& joined.memory[retval.addr] == value
            &&& joined.threads[target as int].is_reclaimed()
            &&& joined.join_thread(target, Some(retval)) == (
                joined,
                Err::<(), InterpError>(InterpError::UndefinedBehavior(UbKind::JoinNotJoinable)),
            )
        }),
{
}

/// A thread that joins a running thread blocks, and when the running
/// thread finishes with a value, the joiner is runnable again and finds the
/// value at the place that it named.
pub proof fn lemma_join_running_thread(
    m: MachineView,
    target: ThreadId,
    retval: PlaceTy,
    value: Scalar,
)
    requires
        m.wf(),
        target < m.threads.len(),
        target != m.active_thread,
        !(m.threads[target as int].state is Finished),
        m.threads[target as int].join_status == ThreadJoinStatus::Joinable,
        retval.addr != 0,
        retval.layout.size == POINTER_SIZE,
        value.size == POINTER_SIZE,
    ensures
        ({
            let (joined, r) = m.join_thread(target, Some(retval));
            let (finished, f) = joined.set_active_thread(target).finish_active_thread(
                ThreadOutcome::Returned(value),
            );
            &&& r is Ok
            &&& joined.active().state == ThreadState::Blocked(BlockReason::Join(target))
            &&& f is Ok
            &&& finished.threads[m.active_thread as int].state == ThreadState::Runnable
            &&& finished.memory[retval.addr] == value
            &&& finished.threads[target as int].is_reclaimed()
        }),
{
}

impl MiriEvalContext {
    /// Replaces the run state of thread `t`, if there is such a thread.
    fn set_thread_state(&mut self, t: ThreadId, state: ThreadState, clear_timeout: bool)
        ensures
            final(self)@ == old(self)@.with_thread(
                t,
                ThreadView {
                    state,
                    timeout: if clear_timeout {
                        None
                    } else {
                        old(self)@.threads[t as int].timeout
                    },
                    ..old(self)@.threads[t as int]
                },
            ),
    {
        let i: usize = t as usize;
        if i < self.threads.len() {
            self.threads[i].state = state;
            if clear_timeout {
                self.threads[i].timeout = None;
            }
            proof {
                assert(self@.threads =~= old(self)@.threads.update(
                    t as int,
                    ThreadView {
                        state,
                        timeout: if clear_timeout {
                            None
                        } else {
                            old(self)@.threads[t as int].timeout
                        },
                        ..old(self)@.threads[t as int]
                    },
                ));
            }
        } else {
            proof {
                assert(self@.threads =~= old(self)@.threads);
            }
        }
    }

    /// Thread `t` stops running, for the given reason.
    pub fn block_thread(&mut self, t: ThreadId, reason: BlockReason)
        ensures
            final(self)@ == old(self)@.block(t, reason),
            old(self)@.wf() ==> final(self)@.wf(),
    {
        self.set_thread_state(t, ThreadState::Blocked(reason), false);
    }

    /// Whether thread `t` exists and is blocked.
    fn is_blocked(&self, t: ThreadId) -> (r: bool)
        ensures
            r == (t < self@.threads.len() && self@.threads[t as int].state is Blocked),
    {
        let i: usize = t as usize;
        if i < self.threads.len() {
            match self.threads[i].state {
                ThreadState::Blocked(_) => true,
                _ => false,
            }
        } else {
            false
        }
    }

    /// Thread `t`, if it is blocked, becomes runnable again.
    pub fn unblock_thread(&mut self, t: ThreadId)
        ensures
            final(self)@ == old(self)@.wake(t),
            old(self)@.wf() ==> final(self)@.wf(),
    {
        if self.is_blocked(t) {
            self.set_thread_state(t, ThreadState::Runnable, true);
        }
    }

    /// Wakes the threads `ts`, one after the other.
    pub fn unblock_threads(&mut self, ts: &Vec<ThreadId>)
        ensures
            final(self)@ == old(self)@.wake_all(ts@),
            old(self)@.wf() ==> final(self)@.wf(),
    {
        let mut i: usize = 0;
        proof {
            assert(ts@.subrange(0, ts.len() as int) =~= ts@);
        }
        while i < ts.len()
            invariant
                i <= ts.len(),
                self@.wake_all(ts@.subrange(i as int, ts.len() as int)) == old(self)@.wake_all(ts@),
                old(self)@.wf() ==> self@.wf(),
            decreases ts.len() - i,
        {
            proof {
                let rest = ts@.subrange(i as int, ts.len() as int);
                assert(rest[0] == ts@[i as int]);
                assert(rest.drop_first() =~= ts@.subrange(i + 1, ts.len() as int));
            }
            self.unblock_thread(ts[i]);
            i = i + 1;
        }
    }

    /// Adds a new thread to the table and returns its identity. The new
    /// thread is runnable and joinable, and its stack is empty.
    pub fn create_thread(&mut self) -> (r: InterpResult<ThreadId>)
        ensures
            (final(self)@, r) == old(self)@.create_thread(),
            old(self)@.wf() ==> final(self)@.wf(),
    {
        let n: usize = self.threads.len();
        if n >= u32::MAX as usize {
            return Err(InterpError::Unsupported(UnsupportedKind::TooManyThreads));
        }
        self.threads.push(Thread::new());
        proof {
            assert(self@.threads =~= old(self)@.threads.push(ThreadView::fresh()));
        }
        Ok(n as u32)
    }

    /// Makes thread `t` the active thread and returns the thread that was active.
    pub fn set_active_thread(&mut self, t: ThreadId) -> (previous: ThreadId)
        requires
            t < old(self)@.threads.len(),
        ensures
            final(self)@ == old(self)@.set_active_thread(t),
            previous == old(self)@.active_thread,
            old(self)@.wf() ==> final(self)@.wf(),
    {
        let previous: ThreadId = self.active_thread;
        self.active_thread = t;
        previous
    }

    /// Whether the active thread may join `target` and have the return
    /// value written to `retval`.
    fn join_check(&self, target: ThreadId, retval: &Option<PlaceTy>) -> (r: InterpResult<()>)
        ensures
            r == self@.join_check(target, *retval),
    {
        if target as usize >= self.threads.len() {
            return Err(InterpError::UndefinedBehavior(UbKind::InvalidThreadId));
        }
        match self.threads[target as usize].join_status {
            ThreadJoinStatus::Joinable => {},
            _ => {
                return Err(InterpError::UndefinedBehavior(UbKind::JoinNotJoinable));
            },
        }
        if target == self.active_thread {
            return Err(InterpError::UndefinedBehavior(UbKind::JoinSelf));
        }
        match retval {
            Some(p) => {
                if p.addr == 0 {
                    Err(InterpError::UndefinedBehavior(UbKind::NullDereference))
                } else if p.layout.size != POINTER_SIZE as u64 {
                    Err(
                        InterpError::UndefinedBehavior(
                            UbKind::PlaceSizeMismatch { place: p.layout.size, value: POINTER_SIZE },
                        ),
                    )
                } else {
                    Ok(())
                }
            },
            None => Ok(()),
        }
    }

    /// Delivers the outcome of a finished thread to the place `retval`.
    fn deliver(&mut self, outcome: ThreadOutcome, retval: Option<PlaceTy>)
        ensures
            final(self)@ == old(self)@.deliver(outcome, retval),
    {
        match (outcome, retval) {
            (ThreadOutcome::Returned(v), Some(p)) => {
                self.memory.insert(p.addr, v);
            },
            _ => {},
        }
    }

    /// The active thread joins `target`, and wants the value that the
    /// target returns stored at `retval`. A target that has finished already
    /// is joined at once. Otherwise the active thread blocks until the target
    /// finishes. Joining a thread that does not exist, that is detached or
    /// was joined before, or the active thread itself is a violation, and
    /// then nothing changes.
    pub fn join_thread(&mut self, target: ThreadId, retval: Option<PlaceTy>) -> (r: InterpResult<
        (),
    >)
        requires
            old(self)@.wf(),
        ensures
            (final(self)@, r) == old(self)@.join_thread(target, retval),
            final(self)@.wf(),
    {
        self.join_check(target, &retval)?;
        let i: usize = target as usize;
        let active: ThreadId = self.active_thread;
        match self.threads[i].state {
            ThreadState::Finished(outcome) => {
                self.deliver(outcome, retval);
                self.threads[i].join_status = ThreadJoinStatus::Joined;
                proof {
                    assert(self@.threads =~= old(self)@.join_thread(target, retval).0.threads);
                }
            },
            _ => {
                self.threads[i].join_status = ThreadJoinStatus::Joined;
                self.threads[i].joiner = Some(Joiner { thread: active, retval });
                proof {
                    assert(self@.threads =~= old(self)@.threads.update(
                        target as int,
                        ThreadView {
                            join_status: ThreadJoinStatus::Joined,
                            joiner: Some(Joiner { thread: active, retval }),
                            ..old(self)@.threads[target as int]
                        },
                    ));
                }
                self.block_thread(active, BlockReason::Join(target));
            },
        }
        Ok(())
    }

    /// Detaches thread `target`. Detaching a thread that does not exist,
    /// that is detached or was joined is a violation.
    pub fn detach_thread(&mut self, target: ThreadId) -> (r: InterpResult<()>)
        ensures
            (final(self)@, r) == old(self)@.detach_thread(target),
            old(self)@.wf() ==> final(self)@.wf(),
    {
        let i: usize = target as usize;
        if i >= self.threads.len() {
            return Err(InterpError::UndefinedBehavior(UbKind::InvalidThreadId));
        }
        match self.threads[i].join_status {
            ThreadJoinStatus::Joinable => {},
            _ => {
                return Err(InterpError::UndefinedBehavior(UbKind::DetachNotJoinable));
            },
        }
        self.threads[i].join_status = ThreadJoinStatus::Detached;
        proof {
            assert(self@.threads =~= old(self)@.detach_thread(target).0.threads);
        }
        Ok(())
    }

    /// The active thread finishes with `outcome`. The thread that waits to
    /// join it, if there is one, receives the outcome and becomes runnable.
    pub fn finish_active_thread(&mut self, outcome: ThreadOutcome) -> (r: InterpResult<()>)
        requires
            old(self)@.wf(),
        ensures
            (final(self)@, r) == old(self)@.finish_active_thread(outcome),
            final(self)@.wf(),
    {
        match outcome {
            ThreadOutcome::Returned(v) => {
                if v.size != POINTER_SIZE {
                    return Err(
                        InterpError::UndefinedBehavior(
                            UbKind::ScalarSizeMismatch { found: v.size, required: POINTER_SIZE },
                        ),
                    );
                }
            },
            ThreadOutcome::Panicked => {},
        }
        let a: usize = self.active_thread as usize;
        let joiner = self.threads[a].joiner;
        self.threads[a].state = ThreadState::Finished(outcome);
        self.threads[a].joiner = None;
        proof {
            assert(self@.threads =~= old(self)@.with_active(
                ThreadView {
                    state: ThreadState::Finished(outcome),
                    joiner: None,
                    ..old(self)@.active()
                },
            ).threads);
        }
        match joiner {
            Some(j) => {
                self.deliver(outcome, j.retval);
                let waits: bool = (j.thread as usize) < self.threads.len() && match self.threads[j.thread as usize].state {
                    ThreadState::Blocked(BlockReason::Join(target)) => target == self.active_thread,
                    _ => false,
                };
                if waits {
                    self.unblock_thread(j.thread);
                }
            },
            None => {},
        }
        Ok(())
    }

    /// The active thread asks to let another thread run.
    pub fn yield_active_thread(&mut self)
        ensures
            final(self)@ == old(self)@.yield_active_thread(),
    {
        self.yield_active_thread = true;
    }

    /// Whether thread `i` is runnable.
    fn is_runnable(&self, i: usize) -> (r: bool)
        requires
            i < self@.threads.len(),
        ensures
            r == (self@.threads[i as int].state is Runnable),
    {
        match self.threads[i].state {
            ThreadState::Runnable => true,
            _ => false,
        }
    }

    /// Whether every thread has finished.
    fn all_finished(&self) -> (r: bool)
        ensures
            r == self@.all_finished(),
    {
        let mut i: usize = 0;
        while i < self.threads.len()
            invariant
                i <= self.threads.len(),
                forall|j: int| 0 <= j < i ==> (#[trigger] self@.threads[j]).state is Finished,
            decreases self.threads.len() - i,
        {
            match self.threads[i].state {
                ThreadState::Finished(_) => {},
                _ => {
                    assert(!(self@.threads[i as int].state is Finished));
                    return false;
                },
            }
            i = i + 1;
        }
        true
    }

    /// Among all threads, the one that waits under the earliest deadline.
    fn earliest_timeout(&self) -> (r: Option<ThreadId>)
        requires
            self@.wf(),
        ensures
            r == self@.earliest_timeout(self@.threads.len()),
    {
        let n: usize = self.threads.len();
        let mut best: Option<(ThreadId, u64)> = None;
        let mut i: usize = 0;
        while i < n
            invariant
                i <= n,
                n == self@.threads.len(),
                n <= u32::MAX,
                match best {
                    Some((t, deadline)) => self@.earliest_timeout(i as nat) == Some(t) && t < i
                        && self@.threads[t as int].timeout is Some
                        && self@.threads[t as int].timeout->Some_0.deadline == deadline,
                    None => self@.earliest_timeout(i as nat) is None,
                },
            decreases n - i,
        {
            match self.timed_wait_of(i as u32) {
                None => {},
                Some((timeout, _, _)) => {
                    match best {
                        None => {
                            best = Some((i as u32, timeout.deadline));
                        },
                        Some((_, deadline)) => {
                            if timeout.deadline < deadline {
                                best = Some((i as u32, timeout.deadline));
                            }
                        },
                    }
                },
            }
            i = i + 1;
        }
        match best {
            Some((t, _)) => Some(t),
            None => None,
        }
    }

    /// Chooses the thread that runs next and makes it the active thread.
    /// The active thread goes on if it is runnable and has not yielded;
    /// otherwise the runnable thread with the least identity takes over.
    /// With no runnable thread, the wait under the earliest deadline times
    /// out and the simulated time moves on to that deadline. Without a
    /// deadline the result is `Stop` when all threads have finished, and a
    /// deadlock otherwise.
    pub fn schedule(&mut self) -> (r: InterpResult<SchedulingAction>)
        requires
            old(self)@.wf(),
        ensures
            (final(self)@, r) == old(self)@.schedule(),
            final(self)@.wf(),
    {
        let a: usize = self.active_thread as usize;
        let active_runnable: bool = self.is_runnable(a);
        if active_runnable && !self.yield_active_thread {
            return Ok(SchedulingAction::ExecuteStep);
        }
        let n: usize = self.threads.len();
        let mut i: usize = 0;
        while i < n && !(self.is_runnable(i) && i != a)
            invariant
                i <= n,
                n == self@.threads.len(),
                self@ == old(self)@,
                forall|j: int| 0 <= j < i ==> !(self@.threads[j].state is Runnable && j != a),
            decreases n - i,
        {
            i = i + 1;
        }
        proof {
            lemma_next_runnable(self@, 0, a as int, i as int);
        }
        self.yield_active_thread = false;
        if i < n {
            self.active_thread = i as u32;
            Ok(SchedulingAction::ExecuteStep)
        } else if active_runnable {
            Ok(SchedulingAction::ExecuteStep)
        } else {
            proof {
                assert(self@.threads == old(self)@.threads);
                lemma_earliest_timeout_depends_on_threads(self@, old(self)@, n as nat);
            }
            match self.earliest_timeout() {
                Some(t) => {
                    self.timeout_thread(t);
                    Ok(SchedulingAction::ExecuteTimeoutCallback)
                },
                None => {
                    assert(old(self)@.all_finished() == self@.all_finished());
                    if self.all_finished() {
                        Ok(SchedulingAction::Stop)
                    } else {
                        Err(InterpError::MachineStop(TerminationInfo::Deadlock))
                    }
                },
            }
        }
    }
}

} // verus!
