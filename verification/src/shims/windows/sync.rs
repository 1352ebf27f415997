//! The slim reader/writer locks of Windows. Such a lock has no
//! initializing call: it comes into being, free, with the first attempt to
//! acquire it.

use vstd::prelude::*;
use crate::errors::{InterpError, InterpResult, UbKind, UnsupportedKind};
use crate::eval_context::{MachineView, MiriEvalContext};
use crate::scalar::OpTy;
use crate::sync::mutex::LockOutcome;
use crate::thread::ThreadId;

verus! {

broadcast use vstd::std_specs::hash::group_hash_axioms;

/// The result of an attempt to acquire a lock without blocking, as Windows
/// reports it: 1 if the caller got the lock, 0 otherwise.
pub open spec fn acquired(out: LockOutcome) -> u8 {
    if out == LockOutcome::Acquired {
        1
    } else {
        0
    }
}

impl MachineView {
    /// Whether the active thread holds the lock at `addr` as the writer.
    pub open spec fn is_writer(self, addr: u64) -> bool {
        self.sync.rwlocks.contains_key(addr) && self.sync.rwlocks[addr].writer == Some(
            self.active_thread,
        )
    }

    /// Whether the active thread holds the lock at `addr` as a reader.
    pub open spec fn is_reader(self, addr: u64) -> bool {
        self.sync.rwlocks.contains_key(addr) && self.sync.rwlocks[addr].readers.contains_key(
            self.active_thread,
        )
    }

    /// `AcquireSRWLockExclusive`: the active thread gets the lock as the
    /// writer, or is blocked at the call. The result says whether it got the
    /// lock.
    pub open spec fn acquire_srw_lock_exclusive(self, lock: OpTy) -> (
        MachineView,
        InterpResult<bool>,
    ) {
        match OpTy::spec_read_object_addr(lock) {
            Err(e) => (self, Err(e)),
            Ok(addr) => (
                self.rwlock_write_lock(addr).0,
                Ok(self.rwlock_write_lock(addr).1 != LockOutcome::Blocked),
            ),
        }
    }

    /// `TryAcquireSRWLockExclusive`.
    pub open spec fn try_acquire_srw_lock_exclusive(self, lock: OpTy) -> (
        MachineView,
        InterpResult<u8>,
    ) {
        match OpTy::spec_read_object_addr(lock) {
            Err(e) => (self, Err(e)),
            Ok(addr) => (
                self.rwlock_try_write_lock(addr).0,
                Ok(acquired(self.rwlock_try_write_lock(addr).1)),
            ),
        }
    }

    /// `ReleaseSRWLockExclusive`: the active thread, which must hold the
    /// lock as the writer, lets go of it.
    pub open spec fn release_srw_lock_exclusive(self, lock: OpTy) -> (
        MachineView,
        InterpResult<()>,
    ) {
        match OpTy::spec_read_object_addr(lock) {
            Err(e) => (self, Err(e)),
            Ok(addr) => if self.is_writer(addr) {
                self.rwlock_unlock(addr)
            } else {
                (self, Err(InterpError::UndefinedBehavior(UbKind::RwLockNotHeld)))
            },
        }
    }

    /// `AcquireSRWLockShared`: the active thread gets the lock as a reader,
    /// or is blocked at the call. The result says whether it got the lock.
    pub open spec fn acquire_srw_lock_shared(self, lock: OpTy) -> (
        MachineView,
        InterpResult<bool>,
    ) {
        match OpTy::spec_read_object_addr(lock) {
            Err(e) => (self, Err(e)),
            Ok(addr) => if self.rwlock_read_lock(addr).1 == LockOutcome::TooManyRecursions {
                (self, Err(InterpError::Unsupported(UnsupportedKind::TooManyRecursions)))
            } else {
                (
                    self.rwlock_read_lock(addr).0,
                    Ok(self.rwlock_read_lock(addr).1 != LockOutcome::Blocked),
                )
            },
        }
    }

    /// `TryAcquireSRWLockShared`.
    pub open spec fn try_acquire_srw_lock_shared(self, lock: OpTy) -> (
        MachineView,
        InterpResult<u8>,
    ) {
        match OpTy::spec_read_object_addr(lock) {
            Err(e) => (self, Err(e)),
            Ok(addr) => if self.rwlock_try_read_lock(addr).1 == LockOutcome::TooManyRecursions {
                (self, Ok(0))
            } else {
                (
                    self.rwlock_try_read_lock(addr).0,
                    Ok(acquired(self.rwlock_try_read_lock(addr).1)),
                )
            },
        }
    }

    /// `ReleaseSRWLockShared`: the active thread, which must hold the lock
    /// as a reader, gives up one such hold.
    pub open spec fn release_srw_lock_shared(self, lock: OpTy) -> (MachineView, InterpResult<()>) {
        match OpTy::spec_read_object_addr(lock) {
            Err(e) => (self, Err(e)),
            Ok(addr) => if self.is_reader(addr) {
                self.rwlock_unlock(addr)
            } else {
                (self, Err(InterpError::UndefinedBehavior(UbKind::RwLockNotHeld)))
            },
        }
    }
}

impl MiriEvalContext {
    /// Whether the active thread holds the lock at `addr` as the writer.
    fn is_writer(&self, addr: u64) -> (r: bool)
        ensures
            r == self@.is_writer(addr),
    {
        let t: ThreadId = self.active_thread;
        match self.sync.rwlocks.get(&addr) {
            None => false,
            Some(l) => match l.writer {
                Some(w) => w == t,
                None => false,
            },
        }
    }

    /// Whether the active thread holds the lock at `addr` as a reader.
    fn is_reader(&self, addr: u64) -> (r: bool)
        ensures
            r == self@.is_reader(addr),
    {
        let t: ThreadId = self.active_thread;
        match self.sync.rwlocks.get(&addr) {
            None => false,
            Some(l) => l.readers.contains_key(&t),
        }
    }

    /// How often the active thread holds the lock at `addr` as a reader, if
    /// no writer holds it.
    fn reader_holds(&self, addr: u64) -> (r: Option<u32>)
        ensures
            match r {
                Some(n) => self@.is_reader(addr) && self@.sync.rwlocks[addr].readers[self@.active_thread]
                    == n && self@.sync.rwlocks[addr].writer is None,
                None => !self@.is_reader(addr) || self@.sync.rwlocks[addr].writer is Some,
            },
    {
        let t: ThreadId = self.active_thread;
        match self.sync.rwlocks.get(&addr) {
            None => None,
            Some(l) => {
                if l.writer.is_some() {
                    None
                } else {
                    match l.readers.get(&t) {
                        Some(n) => Some(*n),
                        None => None,
                    }
                }
            },
        }
    }

    /// `AcquireSRWLockExclusive`.
    #[allow(non_snake_case)]
    pub fn AcquireSRWLockExclusive(&mut self, lock_op: &OpTy) -> (r: InterpResult<bool>)
        ensures
            (final(self)@, r) == old(self)@.acquire_srw_lock_exclusive(*lock_op),
            old(self)@.wf() ==> final(self)@.wf(),
    {
        let addr: u64 = lock_op.read_object_addr()?;
        let out: LockOutcome = self.rwlock_write_lock(addr);
        Ok(out != LockOutcome::Blocked)
    }

    /// `TryAcquireSRWLockExclusive`: 1 if the active thread got the lock as
    /// the writer, 0 if somebody holds it.
    #[allow(non_snake_case)]
    pub fn TryAcquireSRWLockExclusive(&mut self, lock_op: &OpTy) -> (r: InterpResult<u8>)
        ensures
            (final(self)@, r) == old(self)@.try_acquire_srw_lock_exclusive(*lock_op),
            old(self)@.wf() ==> final(self)@.wf(),
    {
        let addr: u64 = lock_op.read_object_addr()?;
        let out: LockOutcome = self.rwlock_try_write_lock(addr);
        Ok(if out == LockOutcome::Acquired { 1 } else { 0 })
    }

    /// `ReleaseSRWLockExclusive`. Releasing a lock that the active thread
    /// does not hold as the writer is a violation.
    #[allow(non_snake_case)]
    pub fn ReleaseSRWLockExclusive(&mut self, lock_op: &OpTy) -> (r: InterpResult<()>)
        ensures
            (final(self)@, r) == old(self)@.release_srw_lock_exclusive(*lock_op),
            old(self)@.wf() ==> final(self)@.wf(),
    {
        let addr: u64 = lock_op.read_object_addr()?;
        if self.is_writer(addr) {
            self.rwlock_unlock(addr)
        } else {
            Err(InterpError::UndefinedBehavior(UbKind::RwLockNotHeld))
        }
    }

    /// `AcquireSRWLockShared`.
    #[allow(non_snake_case)]
    pub fn AcquireSRWLockShared(&mut self, lock_op: &OpTy) -> (r: InterpResult<bool>)
        ensures
            (final(self)@, r) == old(self)@.acquire_srw_lock_shared(*lock_op),
            old(self)@.wf() ==> final(self)@.wf(),
    {
        let addr: u64 = lock_op.read_object_addr()?;
        match self.reader_holds(addr) {
            Some(n) => {
                if n == u32::MAX {
                    return Err(InterpError::Unsupported(UnsupportedKind::TooManyRecursions));
                }
            },
            None => {},
        }
        let out: LockOutcome = self.rwlock_read_lock(addr);
        Ok(out != LockOutcome::Blocked)
    }

    /// `TryAcquireSRWLockShared`: 1 if the active thread got the lock as a
    /// reader, 0 otherwise.
    #[allow(non_snake_case)]
    pub fn TryAcquireSRWLockShared(&mut self, lock_op: &OpTy) -> (r: InterpResult<u8>)
        ensures
            (final(self)@, r) == old(self)@.try_acquire_srw_lock_shared(*lock_op),
            old(self)@.wf() ==> final(self)@.wf(),
    {
        let addr: u64 = lock_op.read_object_addr()?;
        match self.reader_holds(addr) {
            Some(n) => {
                if n == u32::MAX {
                    return Ok(0);
                }
            },
            None => {},
        }
        let out: LockOutcome = self.rwlock_try_read_lock(addr);
        Ok(if out == LockOutcome::Acquired { 1 } else { 0 })
    }

    /// `ReleaseSRWLockShared`. Releasing a lock that the active thread does
    /// not hold as a reader is a violation.
    #[allow(non_snake_case)]
    pub fn ReleaseSRWLockShared(&mut self, lock_op: &OpTy) -> (r: InterpResult<()>)
        ensures
            (final(self)@, r) == old(self)@.release_srw_lock_shared(*lock_op),
            old(self)@.wf() ==> final(self)@.wf(),
    {
        let addr: u64 = lock_op.read_object_addr()?;
        if self.is_reader(addr) {
            self.rwlock_unlock(addr)
        } else {
            Err(InterpError::UndefinedBehavior(UbKind::RwLockNotHeld))
        }
    }
}

} // verus!
