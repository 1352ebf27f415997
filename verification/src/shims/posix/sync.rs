//! The POSIX synchronization functions: each reads its arguments, acts on
//! the registry of synchronization objects, and yields the status that the
//! guest receives.

use vstd::prelude::*;
use crate::errors::{InterpError, InterpResult, UbKind};
use crate::eval_context::{MachineView, MiriEvalContext, TargetOs};
use crate::scalar::{OpTy, PlaceTy, Scalar, TyLayout};
use crate::sync::WaitOutcome;
use crate::thread::Timeout;
use crate::shims::foreign_items::{
    eval_libc_i32, libc_i32, lock_call_status, lock_call_status_of, lock_status, lock_status_of,
    CallStatus, LibcConst,
};
use crate::sync::mutex::{LockOutcome, MutexKind};

verus! {

/// The kind of mutex that the C library's constant `kind` names, if any.
pub open spec fn mutex_kind(os: TargetOs, kind: i32) -> Option<MutexKind> {
    if kind == libc_i32(os, LibcConst::PthreadMutexNormal) {
        Some(MutexKind::Normal)
    } else if kind == libc_i32(os, LibcConst::PthreadMutexRecursive) {
        Some(MutexKind::Recursive)
    } else if kind == libc_i32(os, LibcConst::PthreadMutexErrorcheck) {
        Some(MutexKind::ErrorCheck)
    } else {
        None
    }
}

/// The kind of mutex that the C library's constant `kind` names, if any.
pub fn mutex_kind_of(os: TargetOs, kind: i32) -> (r: Option<MutexKind>)
    ensures
        r == mutex_kind(os, kind),
{
    if kind == eval_libc_i32(os, LibcConst::PthreadMutexNormal) {
        Some(MutexKind::Normal)
    } else if kind == eval_libc_i32(os, LibcConst::PthreadMutexRecursive) {
        Some(MutexKind::Recursive)
    } else if kind == eval_libc_i32(os, LibcConst::PthreadMutexErrorcheck) {
        Some(MutexKind::ErrorCheck)
    } else {
        None
    }
}

/// What an operation without a status of its own returns to the guest:
/// 0 on success.
pub open spec fn status_of(r: (MachineView, InterpResult<()>)) -> (MachineView, InterpResult<i32>) {
    match r {
        (m, Ok(())) => (m, Ok(0)),
        (m, Err(e)) => (m, Err(e)),
    }
}

impl MachineView {
    /// What a call that asked for a lock, ready to block, came to.
    pub open spec fn locked(self, r: (MachineView, InterpResult<LockOutcome>)) -> (
        MachineView,
        InterpResult<CallStatus>,
    ) {
        match r {
            (m, Ok(out)) => (m, Ok(lock_call_status(self.target_os, out))),
            (m, Err(e)) => (m, Err(e)),
        }
    }

    /// What an attempt to acquire a lock without blocking returns to the guest.
    pub open spec fn tried(self, r: (MachineView, InterpResult<LockOutcome>)) -> (
        MachineView,
        InterpResult<i32>,
    ) {
        match r {
            (m, Ok(out)) => (m, Ok(lock_status(self.target_os, out))),
            (m, Err(e)) => (m, Err(e)),
        }
    }

    /// What a call of a wait came to: it blocks, or returns 0 after a
    /// signal and `ETIMEDOUT` after its deadline.
    pub open spec fn waited(self, r: (MachineView, InterpResult<WaitOutcome>)) -> (
        MachineView,
        InterpResult<CallStatus>,
    ) {
        match r {
            (m, Ok(WaitOutcome::Blocked)) => (m, Ok(CallStatus::Blocks)),
            (m, Ok(WaitOutcome::Signalled)) => (m, Ok(CallStatus::Returns(0))),
            (m, Ok(WaitOutcome::TimedOut)) => (
                m,
                Ok(CallStatus::Returns(libc_i32(self.target_os, LibcConst::Etimedout))),
            ),
            (m, Err(e)) => (m, Err(e)),
        }
    }

    pub open spec fn pthread_mutexattr_init(self, attr: OpTy) -> (MachineView, InterpResult<i32>) {
        match OpTy::spec_read_object_addr(attr) {
            Err(e) => (self, Err(e)),
            Ok(a) => (self.mutexattr_init(a), Ok(0)),
        }
    }

    /// Sets the kind of mutex in a record of attributes. A kind that the C
    /// library does not know is refused with `EINVAL`.
    pub open spec fn pthread_mutexattr_settype(self, attr: OpTy, kind: OpTy) -> (
        MachineView,
        InterpResult<i32>,
    ) {
        match OpTy::spec_read_object_addr(attr) {
            Err(e) => (self, Err(e)),
            Ok(a) => match OpTy::spec_read_i32(kind) {
                Err(e) => (self, Err(e)),
                Ok(k) => match mutex_kind(self.target_os, k) {
                    None => (self, Ok(libc_i32(self.target_os, LibcConst::Einval))),
                    Some(kind) => status_of(self.mutexattr_settype(a, kind)),
                },
            },
        }
    }

    pub open spec fn pthread_mutexattr_destroy(self, attr: OpTy) -> (
        MachineView,
        InterpResult<i32>,
    ) {
        match OpTy::spec_read_object_addr(attr) {
            Err(e) => (self, Err(e)),
            Ok(a) => status_of(self.mutexattr_destroy(a)),
        }
    }

    /// Initializes a mutex, with the attributes at `attr` unless `attr` is null.
    pub open spec fn pthread_mutex_init(self, mutex: OpTy, attr: OpTy) -> (
        MachineView,
        InterpResult<i32>,
    ) {
        match OpTy::spec_read_object_addr(mutex) {
            Err(e) => (self, Err(e)),
            Ok(m) => match OpTy::spec_read_optional_addr(attr) {
                Err(e) => (self, Err(e)),
                Ok(a) => status_of(self.mutex_init(m, a)),
            },
        }
    }

    /// `pthread_mutex_lock`: the call returns 0 only when it made the caller
    /// owner; a caller that has to wait is blocked at the call.
    pub open spec fn pthread_mutex_lock(self, mutex: OpTy) -> (
        MachineView,
        InterpResult<CallStatus>,
    ) {
        match OpTy::spec_read_object_addr(mutex) {
            Err(e) => (self, Err(e)),
            Ok(m) => self.locked(self.mutex_lock(m)),
        }
    }

    pub open spec fn pthread_mutex_trylock(self, mutex: OpTy) -> (MachineView, InterpResult<i32>) {
        match OpTy::spec_read_object_addr(mutex) {
            Err(e) => (self, Err(e)),
            Ok(m) => self.tried(self.mutex_trylock(m)),
        }
    }

    pub open spec fn pthread_mutex_unlock(self, mutex: OpTy) -> (MachineView, InterpResult<i32>) {
        match OpTy::spec_read_object_addr(mutex) {
            Err(e) => (self, Err(e)),
            Ok(m) => status_of(self.mutex_unlock(m)),
        }
    }

    pub open spec fn pthread_mutex_destroy(self, mutex: OpTy) -> (MachineView, InterpResult<i32>) {
        match OpTy::spec_read_object_addr(mutex) {
            Err(e) => (self, Err(e)),
            Ok(m) => status_of(self.mutex_destroy(m)),
        }
    }

    pub open spec fn pthread_rwlock_rdlock(self, rwlock: OpTy) -> (
        MachineView,
        InterpResult<CallStatus>,
    ) {
        match OpTy::spec_read_object_addr(rwlock) {
            Err(e) => (self, Err(e)),
            Ok(l) => (
                self.rwlock_read_lock(l).0,
                Ok(lock_call_status(self.target_os, self.rwlock_read_lock(l).1)),
            ),
        }
    }

    pub open spec fn pthread_rwlock_tryrdlock(self, rwlock: OpTy) -> (
        MachineView,
        InterpResult<i32>,
    ) {
        match OpTy::spec_read_object_addr(rwlock) {
            Err(e) => (self, Err(e)),
            Ok(l) => (
                self.rwlock_try_read_lock(l).0,
                Ok(lock_status(self.target_os, self.rwlock_try_read_lock(l).1)),
            ),
        }
    }

    pub open spec fn pthread_rwlock_wrlock(self, rwlock: OpTy) -> (
        MachineView,
        InterpResult<CallStatus>,
    ) {
        match OpTy::spec_read_object_addr(rwlock) {
            Err(e) => (self, Err(e)),
            Ok(l) => (
                self.rwlock_write_lock(l).0,
                Ok(lock_call_status(self.target_os, self.rwlock_write_lock(l).1)),
            ),
        }
    }

    pub open spec fn pthread_rwlock_trywrlock(self, rwlock: OpTy) -> (
        MachineView,
        InterpResult<i32>,
    ) {
        match OpTy::spec_read_object_addr(rwlock) {
            Err(e) => (self, Err(e)),
            Ok(l) => (
                self.rwlock_try_write_lock(l).0,
                Ok(lock_status(self.target_os, self.rwlock_try_write_lock(l).1)),
            ),
        }
    }

    pub open spec fn pthread_rwlock_unlock(self, rwlock: OpTy) -> (MachineView, InterpResult<i32>) {
        match OpTy::spec_read_object_addr(rwlock) {
            Err(e) => (self, Err(e)),
            Ok(l) => status_of(self.rwlock_unlock(l)),
        }
    }

    pub open spec fn pthread_rwlock_destroy(self, rwlock: OpTy) -> (MachineView, InterpResult<i32>) {
        match OpTy::spec_read_object_addr(rwlock) {
            Err(e) => (self, Err(e)),
            Ok(l) => status_of(self.rwlock_destroy(l)),
        }
    }

    pub open spec fn pthread_condattr_init(self, attr: OpTy) -> (MachineView, InterpResult<i32>) {
        match OpTy::spec_read_object_addr(attr) {
            Err(e) => (self, Err(e)),
            Ok(a) => (self.condattr_init(a), Ok(0)),
        }
    }

    pub open spec fn pthread_condattr_destroy(self, attr: OpTy) -> (
        MachineView,
        InterpResult<i32>,
    ) {
        match OpTy::spec_read_object_addr(attr) {
            Err(e) => (self, Err(e)),
            Ok(a) => status_of(self.condattr_destroy(a)),
        }
    }

    /// Initializes a condition variable, with the attributes at `attr`
    /// unless `attr` is null.
    pub open spec fn pthread_cond_init(self, cond: OpTy, attr: OpTy) -> (
        MachineView,
        InterpResult<i32>,
    ) {
        match OpTy::spec_read_object_addr(cond) {
            Err(e) => (self, Err(e)),
            Ok(c) => match OpTy::spec_read_optional_addr(attr) {
                Err(e) => (self, Err(e)),
                Ok(a) => status_of(self.cond_init(c, a)),
            },
        }
    }

    pub open spec fn pthread_cond_signal(self, cond: OpTy) -> (MachineView, InterpResult<i32>) {
        match OpTy::spec_read_object_addr(cond) {
            Err(e) => (self, Err(e)),
            Ok(c) => status_of(self.cond_signal(c)),
        }
    }

    pub open spec fn pthread_cond_broadcast(self, cond: OpTy) -> (MachineView, InterpResult<i32>) {
        match OpTy::spec_read_object_addr(cond) {
            Err(e) => (self, Err(e)),
            Ok(c) => status_of(self.cond_broadcast(c)),
        }
    }

    /// `pthread_cond_wait`: the call returns 0 only when the caller was
    /// signalled and holds the mutex again; until then the caller is blocked
    /// at the call.
    pub open spec fn pthread_cond_wait(self, cond: OpTy, mutex: OpTy) -> (
        MachineView,
        InterpResult<CallStatus>,
    ) {
        match OpTy::spec_read_object_addr(cond) {
            Err(e) => (self, Err(e)),
            Ok(c) => match OpTy::spec_read_object_addr(mutex) {
                Err(e) => (self, Err(e)),
                Ok(m) => self.waited(self.cond_wait(c, m, None)),
            },
        }
    }

    pub open spec fn pthread_cond_destroy(self, cond: OpTy) -> (MachineView, InterpResult<i32>) {
        match OpTy::spec_read_object_addr(cond) {
            Err(e) => (self, Err(e)),
            Ok(c) => status_of(self.cond_destroy(c)),
        }
    }
}

impl MiriEvalContext {
    /// `pthread_mutexattr_init`: creates a record of mutex attributes.
    pub fn pthread_mutexattr_init(&mut self, attr: &OpTy) -> (r: InterpResult<i32>)
        ensures
            (final(self)@, r) == old(self)@.pthread_mutexattr_init(*attr),
            old(self)@.wf() ==> final(self)@.wf(),
    {
        let a: u64 = attr.read_object_addr()?;
        self.mutexattr_init(a);
        Ok(0)
    }

    /// `pthread_mutexattr_settype`: sets the kind of mutex in a record of
    /// attributes. A kind that the C library does not know is refused with
    /// `EINVAL`.
    pub fn pthread_mutexattr_settype(&mut self, attr: &OpTy, kind: &OpTy) -> (r: InterpResult<i32>)
        ensures
            (final(self)@, r) == old(self)@.pthread_mutexattr_settype(*attr, *kind),
            old(self)@.wf() ==> final(self)@.wf(),
    {
        let a: u64 = attr.read_object_addr()?;
        let k: i32 = kind.read_i32()?;
        match mutex_kind_of(self.target_os, k) {
            None => Ok(eval_libc_i32(self.target_os, LibcConst::Einval)),
            Some(kind) => {
                self.mutexattr_settype(a, kind)?;
                Ok(0)
            },
        }
    }

    /// `pthread_mutexattr_destroy`: destroys a record of mutex attributes.
    pub fn pthread_mutexattr_destroy(&mut self, attr: &OpTy) -> (r: InterpResult<i32>)
        ensures
            (final(self)@, r) == old(self)@.pthread_mutexattr_destroy(*attr),
            old(self)@.wf() ==> final(self)@.wf(),
    {
        let a: u64 = attr.read_object_addr()?;
        self.mutexattr_destroy(a)?;
        Ok(0)
    }

    /// `pthread_mutex_init`: creates a free mutex, with the attributes at
    /// `attr` unless `attr` is null.
    pub fn pthread_mutex_init(&mut self, mutex: &OpTy, attr: &OpTy) -> (r: InterpResult<i32>)
        ensures
            (final(self)@, r) == old(self)@.pthread_mutex_init(*mutex, *attr),
            old(self)@.wf() ==> final(self)@.wf(),
    {
        let m: u64 = mutex.read_object_addr()?;
        let a: Option<u64> = attr.read_optional_addr()?;
        self.mutex_init(m, a)?;
        Ok(0)
    }

    /// `pthread_mutex_lock`: the active thread acquires the mutex or blocks
    /// on it; an error-checking mutex refuses its owner with `EDEADLK`.
    pub fn pthread_mutex_lock(&mut self, mutex: &OpTy) -> (r: InterpResult<CallStatus>)
        ensures
            (final(self)@, r) == old(self)@.pthread_mutex_lock(*mutex),
            old(self)@.wf() ==> final(self)@.wf(),
    {
        let m: u64 = mutex.read_object_addr()?;
        let out: LockOutcome = self.mutex_lock(m)?;
        Ok(lock_call_status_of(self.target_os, out))
    }

    /// `pthread_mutex_trylock`: as `pthread_mutex_lock`, with `EBUSY` in
    /// place of blocking.
    pub fn pthread_mutex_trylock(&mut self, mutex: &OpTy) -> (r: InterpResult<i32>)
        ensures
            (final(self)@, r) == old(self)@.pthread_mutex_trylock(*mutex),
            old(self)@.wf() ==> final(self)@.wf(),
    {
        let m: u64 = mutex.read_object_addr()?;
        let out: LockOutcome = self.mutex_trylock(m)?;
        Ok(lock_status_of(self.target_os, out))
    }

    /// `pthread_mutex_unlock`: the active thread gives the mutex up once.
    pub fn pthread_mutex_unlock(&mut self, mutex: &OpTy) -> (r: InterpResult<i32>)
        ensures
            (final(self)@, r) == old(self)@.pthread_mutex_unlock(*mutex),
            old(self)@.wf() ==> final(self)@.wf(),
    {
        let m: u64 = mutex.read_object_addr()?;
        self.mutex_unlock(m)?;
        Ok(0)
    }

    /// `pthread_mutex_destroy`: destroys a mutex that is not locked.
    pub fn pthread_mutex_destroy(&mut self, mutex: &OpTy) -> (r: InterpResult<i32>)
        ensures
            (final(self)@, r) == old(self)@.pthread_mutex_destroy(*mutex),
            old(self)@.wf() ==> final(self)@.wf(),
    {
        let m: u64 = mutex.read_object_addr()?;
        self.mutex_destroy(m)?;
        Ok(0)
    }

    /// `pthread_rwlock_rdlock`: the active thread acquires the lock as a
    /// reader, or blocks while a writer holds it.
    pub fn pthread_rwlock_rdlock(&mut self, rwlock: &OpTy) -> (r: InterpResult<CallStatus>)
        ensures
            (final(self)@, r) == old(self)@.pthread_rwlock_rdlock(*rwlock),
            old(self)@.wf() ==> final(self)@.wf(),
    {
        let l: u64 = rwlock.read_object_addr()?;
        let out: LockOutcome = self.rwlock_read_lock(l);
        Ok(lock_call_status_of(self.target_os, out))
    }

    /// `pthread_rwlock_tryrdlock`: as `pthread_rwlock_rdlock`, with `EBUSY`
    /// in place of blocking.
    pub fn pthread_rwlock_tryrdlock(&mut self, rwlock: &OpTy) -> (r: InterpResult<i32>)
        ensures
            (final(self)@, r) == old(self)@.pthread_rwlock_tryrdlock(*rwlock),
            old(self)@.wf() ==> final(self)@.wf(),
    {
        let l: u64 = rwlock.read_object_addr()?;
        let out: LockOutcome = self.rwlock_try_read_lock(l);
        Ok(lock_status_of(self.target_os, out))
    }

    /// `pthread_rwlock_wrlock`: the active thread acquires the lock as the
    /// writer, or blocks while anybody holds it.
    pub fn pthread_rwlock_wrlock(&mut self, rwlock: &OpTy) -> (r: InterpResult<CallStatus>)
        ensures
            (final(self)@, r) == old(self)@.pthread_rwlock_wrlock(*rwlock),
            old(self)@.wf() ==> final(self)@.wf(),
    {
        let l: u64 = rwlock.read_object_addr()?;
        let out: LockOutcome = self.rwlock_write_lock(l);
        Ok(lock_call_status_of(self.target_os, out))
    }

    /// `pthread_rwlock_trywrlock`: as `pthread_rwlock_wrlock`, with `EBUSY`
    /// in place of blocking.
    pub fn pthread_rwlock_trywrlock(&mut self, rwlock: &OpTy) -> (r: InterpResult<i32>)
        ensures
            (final(self)@, r) == old(self)@.pthread_rwlock_trywrlock(*rwlock),
            old(self)@.wf() ==> final(self)@.wf(),
    {
        let l: u64 = rwlock.read_object_addr()?;
        let out: LockOutcome = self.rwlock_try_write_lock(l);
        Ok(lock_status_of(self.target_os, out))
    }

    /// `pthread_rwlock_unlock`: the active thread gives up one hold on the lock.
    pub fn pthread_rwlock_unlock(&mut self, rwlock: &OpTy) -> (r: InterpResult<i32>)
        ensures
            (final(self)@, r) == old(self)@.pthread_rwlock_unlock(*rwlock),
            old(self)@.wf() ==> final(self)@.wf(),
    {
        let l: u64 = rwlock.read_object_addr()?;
        self.rwlock_unlock(l)?;
        Ok(0)
    }

    /// `pthread_rwlock_destroy`: destroys a lock that nobody holds.
    pub fn pthread_rwlock_destroy(&mut self, rwlock: &OpTy) -> (r: InterpResult<i32>)
        ensures
            (final(self)@, r) == old(self)@.pthread_rwlock_destroy(*rwlock),
            old(self)@.wf() ==> final(self)@.wf(),
    {
        let l: u64 = rwlock.read_object_addr()?;
        self.rwlock_destroy(l)?;
        Ok(0)
    }

    /// `pthread_condattr_init`: creates a record of condition variable attributes.
    pub fn pthread_condattr_init(&mut self, attr: &OpTy) -> (r: InterpResult<i32>)
        ensures
            (final(self)@, r) == old(self)@.pthread_condattr_init(*attr),
            old(self)@.wf() ==> final(self)@.wf(),
    {
        let a: u64 = attr.read_object_addr()?;
        self.condattr_init(a);
        Ok(0)
    }

    /// `pthread_condattr_destroy`: destroys a record of condition variable
    /// attributes.
    pub fn pthread_condattr_destroy(&mut self, attr: &OpTy) -> (r: InterpResult<i32>)
        ensures
            (final(self)@, r) == old(self)@.pthread_condattr_destroy(*attr),
            old(self)@.wf() ==> final(self)@.wf(),
    {
        let a: u64 = attr.read_object_addr()?;
        self.condattr_destroy(a)?;
        Ok(0)
    }

    /// `pthread_cond_init`: creates a condition variable, with the
    /// attributes at `attr` unless `attr` is null.
    pub fn pthread_cond_init(&mut self, cond: &OpTy, attr: &OpTy) -> (r: InterpResult<i32>)
        ensures
            (final(self)@, r) == old(self)@.pthread_cond_init(*cond, *attr),
            old(self)@.wf() ==> final(self)@.wf(),
    {
        let c: u64 = cond.read_object_addr()?;
        let a: Option<u64> = attr.read_optional_addr()?;
        self.cond_init(c, a)?;
        Ok(0)
    }

    /// `pthread_cond_signal`: wakes the thread that has waited longest.
    pub fn pthread_cond_signal(&mut self, cond: &OpTy) -> (r: InterpResult<i32>)
        ensures
            (final(self)@, r) == old(self)@.pthread_cond_signal(*cond),
            old(self)@.wf() ==> final(self)@.wf(),
    {
        let c: u64 = cond.read_object_addr()?;
        self.cond_signal(c)?;
        Ok(0)
    }

    /// `pthread_cond_broadcast`: wakes all threads that wait.
    pub fn pthread_cond_broadcast(&mut self, cond: &OpTy) -> (r: InterpResult<i32>)
        ensures
            (final(self)@, r) == old(self)@.pthread_cond_broadcast(*cond),
            old(self)@.wf() ==> final(self)@.wf(),
    {
        let c: u64 = cond.read_object_addr()?;
        self.cond_broadcast(c)?;
        Ok(0)
    }

    /// What a call of a wait came to.
    fn waited(&self, out: WaitOutcome) -> (r: CallStatus)
        ensures
            (self@, Ok::<CallStatus, InterpError>(r)) == self@.waited((self@, Ok(out))),
    {
        match out {
            WaitOutcome::Blocked => CallStatus::Blocks,
            WaitOutcome::Signalled => CallStatus::Returns(0),
            WaitOutcome::TimedOut => CallStatus::Returns(
                eval_libc_i32(self.target_os, LibcConst::Etimedout),
            ),
        }
    }

    /// `pthread_cond_wait`: the active thread releases the mutex and waits
    /// on the condition variable, blocked at the call. Woken by a signal, it
    /// makes the call again, which reacquires the mutex and then returns 0.
    pub fn pthread_cond_wait(&mut self, cond: &OpTy, mutex: &OpTy) -> (r: InterpResult<
        CallStatus,
    >)
        requires
            old(self)@.wf(),
        ensures
            (final(self)@, r) == old(self)@.pthread_cond_wait(*cond, *mutex),
            final(self)@.wf(),
    {
        let c: u64 = cond.read_object_addr()?;
        let m: u64 = mutex.read_object_addr()?;
        let out: WaitOutcome = self.cond_wait(c, m, None)?;
        Ok(self.waited(out))
    }

    /// `pthread_cond_destroy`: destroys a condition variable on which
    /// nobody waits.
    pub fn pthread_cond_destroy(&mut self, cond: &OpTy) -> (r: InterpResult<i32>)
        ensures
            (final(self)@, r) == old(self)@.pthread_cond_destroy(*cond),
            old(self)@.wf() ==> final(self)@.wf(),
    {
        let c: u64 = cond.read_object_addr()?;
        self.cond_destroy(c)?;
        Ok(0)
    }
}

/// The number of nanoseconds in a second.
pub const NANOS_PER_SEC: u64 = 1_000_000_000;

/// The point in time, in nanoseconds, that `sec` seconds and `nsec`
/// nanoseconds name; `None` if they name none. A time too late to be counted
/// is the latest that can.
pub open spec fn timespec_nanos(sec: i64, nsec: i64) -> Option<u64> {
    if sec < 0 || nsec < 0 || nsec >= NANOS_PER_SEC {
        None
    } else if sec * NANOS_PER_SEC + nsec > u64::MAX {
        Some(u64::MAX)
    } else {
        Some((sec * NANOS_PER_SEC + nsec) as u64)
    }
}

/// The point in time, in nanoseconds, that `sec` seconds and `nsec`
/// nanoseconds name.
pub fn timespec_to_nanos(sec: i64, nsec: i64) -> (r: Option<u64>)
    ensures
        r == timespec_nanos(sec, nsec),
{
    if sec < 0 || nsec < 0 || nsec >= NANOS_PER_SEC as i64 {
        None
    } else {
        let total: u128 = sec as u128 * NANOS_PER_SEC as u128 + nsec as u128;
        if total > u64::MAX as u128 {
            Some(u64::MAX)
        } else {
            Some(total as u64)
        }
    }
}

/// The place of a pointer-sized integer at `addr`.
pub open spec fn word_at(addr: u64) -> PlaceTy {
    PlaceTy { addr, layout: TyLayout { size: 8, pointee: None } }
}

impl MachineView {
    /// The pointer-sized signed integer stored at `addr`.
    pub open spec fn read_isize_at(self, addr: u64) -> InterpResult<i64> {
        match self.read_scalar_at(word_at(addr)) {
            Err(e) => Err(e),
            Ok(s) => Scalar::spec_to_machine_isize(s),
        }
    }

    /// The time that the `timespec` at `addr` names: its seconds are the
    /// pointer-sized integer at `addr`, its nanoseconds the one after it.
    pub open spec fn read_timespec(self, addr: u64) -> InterpResult<Option<u64>> {
        if addr > u64::MAX - 8 {
            Err(InterpError::UndefinedBehavior(UbKind::UninitializedRead))
        } else {
            match self.read_isize_at(addr) {
                Err(e) => Err(e),
                Ok(sec) => match self.read_isize_at((addr + 8) as u64) {
                    Err(e) => Err(e),
                    Ok(nsec) => Ok(timespec_nanos(sec, nsec)),
                },
            }
        }
    }

    /// `pthread_cond_timedwait`: as `pthread_cond_wait`, under the deadline
    /// that `abstime` names. A caller that comes to wait with an `abstime`
    /// that names no time does not wait, and the call returns `EINVAL`. The
    /// call of a thread whose deadline has passed returns `ETIMEDOUT` once
    /// the thread holds the mutex again.
    pub open spec fn pthread_cond_timedwait(self, cond: OpTy, mutex: OpTy, abstime: OpTy) -> (
        MachineView,
        InterpResult<CallStatus>,
    ) {
        match OpTy::spec_read_object_addr(cond) {
            Err(e) => (self, Err(e)),
            Ok(c) => match OpTy::spec_read_object_addr(mutex) {
                Err(e) => (self, Err(e)),
                Ok(m) => match OpTy::spec_deref(abstime) {
                    Err(e) => (self, Err(e)),
                    Ok(ts) => if self.active().resume is Some {
                        self.waited(self.cond_wait(c, m, None))
                    } else {
                        match self.read_timespec(ts.addr) {
                            Err(e) => (self, Err(e)),
                            Ok(None) => (
                                self,
                                Ok(
                                    CallStatus::Returns(
                                        libc_i32(self.target_os, LibcConst::Einval),
                                    ),
                                ),
                            ),
                            Ok(Some(deadline)) => self.waited(
                                self.cond_wait(c, m, Some(Timeout { deadline })),
                            ),
                        }
                    },
                },
            },
        }
    }
}

impl MiriEvalContext {
    /// The pointer-sized signed integer stored at `addr`.
    fn read_isize_at(&self, addr: u64) -> (r: InterpResult<i64>)
        ensures
            r == self@.read_isize_at(addr),
    {
        let s: Scalar = self.read_scalar_at(
            &PlaceTy { addr, layout: TyLayout { size: 8, pointee: None } },
        )?;
        s.to_machine_isize()
    }

    /// The time that the `timespec` at `addr` names, in nanoseconds.
    pub fn read_timespec(&self, addr: u64) -> (r: InterpResult<Option<u64>>)
        ensures
            r == self@.read_timespec(addr),
    {
        if addr > u64::MAX - 8 {
            return Err(InterpError::UndefinedBehavior(UbKind::UninitializedRead));
        }
        let sec: i64 = self.read_isize_at(addr)?;
        let nsec: i64 = self.read_isize_at(addr + 8)?;
        Ok(timespec_to_nanos(sec, nsec))
    }

    /// `pthread_cond_timedwait`: as `pthread_cond_wait`, but the wait also
    /// ends when the simulated time reaches the time that `abstime` names,
    /// and the call then returns `ETIMEDOUT`.
    pub fn pthread_cond_timedwait(&mut self, cond: &OpTy, mutex: &OpTy, abstime: &OpTy) -> (r:
        InterpResult<CallStatus>)
        requires
            old(self)@.wf(),
        ensures
            (final(self)@, r) == old(self)@.pthread_cond_timedwait(*cond, *mutex, *abstime),
            final(self)@.wf(),
    {
        let c: u64 = cond.read_object_addr()?;
        let m: u64 = mutex.read_object_addr()?;
        let ts: PlaceTy = abstime.deref_operand()?;
        if self.threads[self.active_thread as usize].resume.is_some() {
            let out: WaitOutcome = self.cond_wait(c, m, None)?;
            return Ok(self.waited(out));
        }
        match self.read_timespec(ts.addr)? {
            None => Ok(CallStatus::Returns(eval_libc_i32(self.target_os, LibcConst::Einval))),
            Some(deadline) => {
                let out: WaitOutcome = self.cond_wait(c, m, Some(Timeout { deadline }))?;
                Ok(self.waited(out))
            },
        }
    }
}

} // verus!
