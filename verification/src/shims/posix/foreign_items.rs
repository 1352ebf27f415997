//! The catalogue of POSIX functions: which function a name stands for, and
//! what a call of it does.

use vstd::prelude::*;
use crate::errors::{InterpError, InterpResult, UbKind, UnsupportedKind};
use crate::eval_context::{FnVal, MachineView, MemoryKind, MiriEvalContext, NUM_CPUS, PAGE_SIZE};
use crate::helpers::{check_abi, check_shim, spec_check_abi, spec_check_shim, str_equal};
use crate::scalar::{i32_bits, is_scalar_size, OpTy, PlaceTy, Scalar, POINTER_SIZE};
use crate::shims::dlsym::Dlsym;
use crate::shims::foreign_items::{
    check_dest,
    check_dest_size,
    eval_libc_i32,
    libc_i32,
    returned,
    CallStatus,
    EmulateByNameResult,
    HostCall,
    LibcConst,
};
use crate::shims::tls::{lemma_create_key_fresh, lemma_tls_wf_preserved, TlsKey};
use crate::thread::{Abi, BasicBlock, Instance};

verus! {

/// A function that acts on one object and returns a status: a
/// synchronization object, a record of attributes, or a thread.
#[derive(Clone, Copy, PartialEq, Eq, Debug, Structural)]
pub enum ObjectOp {
    MutexattrInit,
    MutexattrDestroy,
    MutexLock,
    MutexTrylock,
    MutexUnlock,
    MutexDestroy,
    RwlockRdlock,
    RwlockTryrdlock,
    RwlockWrlock,
    RwlockTrywrlock,
    RwlockUnlock,
    RwlockDestroy,
    CondattrInit,
    CondattrDestroy,
    CondSignal,
    CondBroadcast,
    CondDestroy,
    Detach,
}

/// A function that takes two arguments and returns a status.
#[derive(Clone, Copy, PartialEq, Eq, Debug, Structural)]
pub enum ObjectOp2 {
    MutexattrSettype,
    MutexInit,
    CondInit,
    CondWait,
    Join,
}

/// What a name of the catalogue stands for.
#[derive(Clone, Copy, PartialEq, Eq, Debug, Structural)]
pub enum PosixSymbol {
    /// A function of `arity` arguments that the host performs.
    Plain { call: HostCall, arity: usize },
    /// A function of any number of arguments that the host performs.
    Variadic { call: HostCall },
    Setenv,
    Read,
    Write,
    StrerrorR,
    PosixMemalign,
    Dlsym,
    Sysconf,
    KeyCreate,
    KeyDelete,
    GetSpecific,
    SetSpecific,
    Object(ObjectOp),
    Object2(ObjectOp2),
    CondTimedwait,
    Create,
    SelfId,
    SchedYield,
    Isatty,
    Atfork,
    /// `pthread_attr_getguardsize`, for callers in the standard library only.
    GetGuardSize,
    /// A function of `arity` arguments that does nothing and returns 0, for
    /// callers in the standard library only.
    Stub { arity: usize },
}

/// The function that `name` stands for in the catalogue, if it is there.
pub open spec fn posix_symbol(name: Seq<char>) -> Option<PosixSymbol> {
    if name == "getenv"@ {
        Some(PosixSymbol::Plain { call: HostCall::Getenv, arity: 1 })
    } else if name == "unsetenv"@ {
        Some(PosixSymbol::Plain { call: HostCall::Unsetenv, arity: 1 })
    } else if name == "setenv"@ {
        Some(PosixSymbol::Setenv)
    } else if name == "getcwd"@ {
        Some(PosixSymbol::Plain { call: HostCall::Getcwd, arity: 2 })
    } else if name == "chdir"@ {
        Some(PosixSymbol::Plain { call: HostCall::Chdir, arity: 1 })
    } else if name == "open"@ {
        Some(PosixSymbol::Variadic { call: HostCall::Open })
    } else if name == "open64"@ {
        Some(PosixSymbol::Variadic { call: HostCall::Open })
    } else if name == "fcntl"@ {
        Some(PosixSymbol::Variadic { call: HostCall::Fcntl })
    } else if name == "read"@ {
        Some(PosixSymbol::Read)
    } else if name == "write"@ {
        Some(PosixSymbol::Write)
    } else if name == "unlink"@ {
        Some(PosixSymbol::Plain { call: HostCall::Unlink, arity: 1 })
    } else if name == "symlink"@ {
        Some(PosixSymbol::Plain { call: HostCall::Symlink, arity: 2 })
    } else if name == "rename"@ {
        Some(PosixSymbol::Plain { call: HostCall::Rename, arity: 2 })
    } else if name == "mkdir"@ {
        Some(PosixSymbol::Plain { call: HostCall::Mkdir, arity: 2 })
    } else if name == "rmdir"@ {
        Some(PosixSymbol::Plain { call: HostCall::Rmdir, arity: 1 })
    } else if name == "closedir"@ {
        Some(PosixSymbol::Plain { call: HostCall::Closedir, arity: 1 })
    } else if name == "lseek"@ {
        Some(PosixSymbol::Plain { call: HostCall::Lseek64, arity: 3 })
    } else if name == "lseek64"@ {
        Some(PosixSymbol::Plain { call: HostCall::Lseek64, arity: 3 })
    } else if name == "fsync"@ {
        Some(PosixSymbol::Plain { call: HostCall::Fsync, arity: 1 })
    } else if name == "fdatasync"@ {
        Some(PosixSymbol::Plain { call: HostCall::Fdatasync, arity: 1 })
    } else if name == "readlink"@ {
        Some(PosixSymbol::Plain { call: HostCall::Readlink, arity: 3 })
    } else if name == "posix_memalign"@ {
        Some(PosixSymbol::PosixMemalign)
    } else if name == "dlsym"@ {
        Some(PosixSymbol::Dlsym)
    } else if name == "sysconf"@ {
        Some(PosixSymbol::Sysconf)
    } else if name == "pthread_key_create"@ {
        Some(PosixSymbol::KeyCreate)
    } else if name == "pthread_key_delete"@ {
        Some(PosixSymbol::KeyDelete)
    } else if name == "pthread_getspecific"@ {
        Some(PosixSymbol::GetSpecific)
    } else if name == "pthread_setspecific"@ {
        Some(PosixSymbol::SetSpecific)
    } else if name == "pthread_mutexattr_init"@ {
        Some(PosixSymbol::Object(ObjectOp::MutexattrInit))
    } else if name == "pthread_mutexattr_settype"@ {
        Some(PosixSymbol::Object2(ObjectOp2::MutexattrSettype))
    } else if name == "pthread_mutexattr_destroy"@ {
        Some(PosixSymbol::Object(ObjectOp::MutexattrDestroy))
    } else if name == "pthread_mutex_init"@ {
        Some(PosixSymbol::Object2(ObjectOp2::MutexInit))
    } else if name == "pthread_mutex_lock"@ {
        Some(PosixSymbol::Object(ObjectOp::MutexLock))
    } else if name == "pthread_mutex_trylock"@ {
        Some(PosixSymbol::Object(ObjectOp::MutexTrylock))
    } else if name == "pthread_mutex_unlock"@ {
        Some(PosixSymbol::Object(ObjectOp::MutexUnlock))
    } else if name == "pthread_mutex_destroy"@ {
        Some(PosixSymbol::Object(ObjectOp::MutexDestroy))
    } else if name == "pthread_rwlock_rdlock"@ {
        Some(PosixSymbol::Object(ObjectOp::RwlockRdlock))
    } else if name == "pthread_rwlock_tryrdlock"@ {
        Some(PosixSymbol::Object(ObjectOp::RwlockTryrdlock))
    } else if name == "pthread_rwlock_wrlock"@ {
        Some(PosixSymbol::Object(ObjectOp::RwlockWrlock))
    } else if name == "pthread_rwlock_trywrlock"@ {
        Some(PosixSymbol::Object(ObjectOp::RwlockTrywrlock))
    } else if name == "pthread_rwlock_unlock"@ {
        Some(PosixSymbol::Object(ObjectOp::RwlockUnlock))
    } else if name == "pthread_rwlock_destroy"@ {
        Some(PosixSymbol::Object(ObjectOp::RwlockDestroy))
    } else if name == "pthread_condattr_init"@ {
        Some(PosixSymbol::Object(ObjectOp::CondattrInit))
    } else if name == "pthread_condattr_destroy"@ {
        Some(PosixSymbol::Object(ObjectOp::CondattrDestroy))
    } else if name == "pthread_cond_init"@ {
        Some(PosixSymbol::Object2(ObjectOp2::CondInit))
    } else if name == "pthread_cond_signal"@ {
        Some(PosixSymbol::Object(ObjectOp::CondSignal))
    } else if name == "pthread_cond_broadcast"@ {
        Some(PosixSymbol::Object(ObjectOp::CondBroadcast))
    } else if name == "pthread_cond_wait"@ {
        Some(PosixSymbol::Object2(ObjectOp2::CondWait))
    } else if name == "pthread_cond_timedwait"@ {
        Some(PosixSymbol::CondTimedwait)
    } else if name == "pthread_cond_destroy"@ {
        Some(PosixSymbol::Object(ObjectOp::CondDestroy))
    } else if name == "pthread_create"@ {
        Some(PosixSymbol::Create)
    } else if name == "pthread_join"@ {
        Some(PosixSymbol::Object2(ObjectOp2::Join))
    } else if name == "pthread_detach"@ {
        Some(PosixSymbol::Object(ObjectOp::Detach))
    } else if name == "pthread_self"@ {
        Some(PosixSymbol::SelfId)
    } else if name == "sched_yield"@ {
        Some(PosixSymbol::SchedYield)
    } else if name == "nanosleep"@ {
        Some(PosixSymbol::Plain { call: HostCall::Nanosleep, arity: 2 })
    } else if name == "isatty"@ {
        Some(PosixSymbol::Isatty)
    } else if name == "pthread_atfork"@ {
        Some(PosixSymbol::Atfork)
    } else if name == "strerror_r"@ {
        Some(PosixSymbol::StrerrorR)
    } else if name == "__xpg_strerror_r"@ {
        Some(PosixSymbol::StrerrorR)
    } else if name == "pthread_attr_getguardsize"@ {
        Some(PosixSymbol::GetGuardSize)
    } else if name == "pthread_attr_init"@ {
        Some(PosixSymbol::Stub { arity: 1 })
    } else if name == "pthread_attr_destroy"@ {
        Some(PosixSymbol::Stub { arity: 1 })
    } else if name == "pthread_attr_setstacksize"@ {
        Some(PosixSymbol::Stub { arity: 2 })
    } else if name == "signal"@ {
        Some(PosixSymbol::Stub { arity: 2 })
    } else if name == "sigaltstack"@ {
        Some(PosixSymbol::Stub { arity: 2 })
    } else if name == "sigaction"@ {
        Some(PosixSymbol::Stub { arity: 3 })
    } else if name == "mprotect"@ {
        Some(PosixSymbol::Stub { arity: 3 })
    } else {
        None
    }
}

/// Looks `name` up in the catalogue.
pub fn lookup_posix_symbol(name: &str) -> (r: Option<PosixSymbol>)
    ensures
        r == posix_symbol(name@),
{
    if str_equal(name, "getenv") {
        Some(PosixSymbol::Plain { call: HostCall::Getenv, arity: 1 })
    } else if str_equal(name, "unsetenv") {
        Some(PosixSymbol::Plain { call: HostCall::Unsetenv, arity: 1 })
    } else if str_equal(name, "setenv") {
        Some(PosixSymbol::Setenv)
    } else if str_equal(name, "getcwd") {
        Some(PosixSymbol::Plain { call: HostCall::Getcwd, arity: 2 })
    } else if str_equal(name, "chdir") {
        Some(PosixSymbol::Plain { call: HostCall::Chdir, arity: 1 })
    } else if str_equal(name, "open") {
        Some(PosixSymbol::Variadic { call: HostCall::Open })
    } else if str_equal(name, "open64") {
        Some(PosixSymbol::Variadic { call: HostCall::Open })
    } else if str_equal(name, "fcntl") {
        Some(PosixSymbol::Variadic { call: HostCall::Fcntl })
    } else if str_equal(name, "read") {
        Some(PosixSymbol::Read)
    } else if str_equal(name, "write") {
        Some(PosixSymbol::Write)
    } else if str_equal(name, "unlink") {
        Some(PosixSymbol::Plain { call: HostCall::Unlink, arity: 1 })
    } else if str_equal(name, "symlink") {
        Some(PosixSymbol::Plain { call: HostCall::Symlink, arity: 2 })
    } else if str_equal(name, "rename") {
        Some(PosixSymbol::Plain { call: HostCall::Rename, arity: 2 })
    } else if str_equal(name, "mkdir") {
        Some(PosixSymbol::Plain { call: HostCall::Mkdir, arity: 2 })
    } else if str_equal(name, "rmdir") {
        Some(PosixSymbol::Plain { call: HostCall::Rmdir, arity: 1 })
    } else if str_equal(name, "closedir") {
        Some(PosixSymbol::Plain { call: HostCall::Closedir, arity: 1 })
    } else if str_equal(name, "lseek") {
        Some(PosixSymbol::Plain { call: HostCall::Lseek64, arity: 3 })
    } else if str_equal(name, "lseek64") {
        Some(PosixSymbol::Plain { call: HostCall::Lseek64, arity: 3 })
    } else if str_equal(name, "fsync") {
        Some(PosixSymbol::Plain { call: HostCall::Fsync, arity: 1 })
    } else if str_equal(name, "fdatasync") {
        Some(PosixSymbol::Plain { call: HostCall::Fdatasync, arity: 1 })
    } else if str_equal(name, "readlink") {
        Some(PosixSymbol::Plain { call: HostCall::Readlink, arity: 3 })
    } else if str_equal(name, "posix_memalign") {
        Some(PosixSymbol::PosixMemalign)
    } else if str_equal(name, "dlsym") {
        Some(PosixSymbol::Dlsym)
    } else if str_equal(name, "sysconf") {
        Some(PosixSymbol::Sysconf)
    } else if str_equal(name, "pthread_key_create") {
        Some(PosixSymbol::KeyCreate)
    } else if str_equal(name, "pthread_key_delete") {
        Some(PosixSymbol::KeyDelete)
    } else if str_equal(name, "pthread_getspecific") {
        Some(PosixSymbol::GetSpecific)
    } else if str_equal(name, "pthread_setspecific") {
        Some(PosixSymbol::SetSpecific)
    } else if str_equal(name, "pthread_mutexattr_init") {
        Some(PosixSymbol::Object(ObjectOp::MutexattrInit))
    } else if str_equal(name, "pthread_mutexattr_settype") {
        Some(PosixSymbol::Object2(ObjectOp2::MutexattrSettype))
    } else if str_equal(name, "pthread_mutexattr_destroy") {
        Some(PosixSymbol::Object(ObjectOp::MutexattrDestroy))
    } else if str_equal(name, "pthread_mutex_init") {
        Some(PosixSymbol::Object2(ObjectOp2::MutexInit))
    } else if str_equal(name, "pthread_mutex_lock") {
        Some(PosixSymbol::Object(ObjectOp::MutexLock))
    } else if str_equal(name, "pthread_mutex_trylock") {
        Some(PosixSymbol::Object(ObjectOp::MutexTrylock))
    } else if str_equal(name, "pthread_mutex_unlock") {
        Some(PosixSymbol::Object(ObjectOp::MutexUnlock))
    } else if str_equal(name, "pthread_mutex_destroy") {
        Some(PosixSymbol::Object(ObjectOp::MutexDestroy))
    } else if str_equal(name, "pthread_rwlock_rdlock") {
        Some(PosixSymbol::Object(ObjectOp::RwlockRdlock))
    } else if str_equal(name, "pthread_rwlock_tryrdlock") {
        Some(PosixSymbol::Object(ObjectOp::RwlockTryrdlock))
    } else if str_equal(name, "pthread_rwlock_wrlock") {
        Some(PosixSymbol::Object(ObjectOp::RwlockWrlock))
    } else if str_equal(name, "pthread_rwlock_trywrlock") {
        Some(PosixSymbol::Object(ObjectOp::RwlockTrywrlock))
    } else if str_equal(name, "pthread_rwlock_unlock") {
        Some(PosixSymbol::Object(ObjectOp::RwlockUnlock))
    } else if str_equal(name, "pthread_rwlock_destroy") {
        Some(PosixSymbol::Object(ObjectOp::RwlockDestroy))
    } else if str_equal(name, "pthread_condattr_init") {
        Some(PosixSymbol::Object(ObjectOp::CondattrInit))
    } else if str_equal(name, "pthread_condattr_destroy") {
        Some(PosixSymbol::Object(ObjectOp::CondattrDestroy))
    } else if str_equal(name, "pthread_cond_init") {
        Some(PosixSymbol::Object2(ObjectOp2::CondInit))
    } else if str_equal(name, "pthread_cond_signal") {
        Some(PosixSymbol::Object(ObjectOp::CondSignal))
    } else if str_equal(name, "pthread_cond_broadcast") {
        Some(PosixSymbol::Object(ObjectOp::CondBroadcast))
    } else if str_equal(name, "pthread_cond_wait") {
        Some(PosixSymbol::Object2(ObjectOp2::CondWait))
    } else if str_equal(name, "pthread_cond_timedwait") {
        Some(PosixSymbol::CondTimedwait)
    } else if str_equal(name, "pthread_cond_destroy") {
        Some(PosixSymbol::Object(ObjectOp::CondDestroy))
    } else if str_equal(name, "pthread_create") {
        Some(PosixSymbol::Create)
    } else if str_equal(name, "pthread_join") {
        Some(PosixSymbol::Object2(ObjectOp2::Join))
    } else if str_equal(name, "pthread_detach") {
        Some(PosixSymbol::Object(ObjectOp::Detach))
    } else if str_equal(name, "pthread_self") {
        Some(PosixSymbol::SelfId)
    } else if str_equal(name, "sched_yield") {
        Some(PosixSymbol::SchedYield)
    } else if str_equal(name, "nanosleep") {
        Some(PosixSymbol::Plain { call: HostCall::Nanosleep, arity: 2 })
    } else if str_equal(name, "isatty") {
        Some(PosixSymbol::Isatty)
    } else if str_equal(name, "pthread_atfork") {
        Some(PosixSymbol::Atfork)
    } else if str_equal(name, "strerror_r") {
        Some(PosixSymbol::StrerrorR)
    } else if str_equal(name, "__xpg_strerror_r") {
        Some(PosixSymbol::StrerrorR)
    } else if str_equal(name, "pthread_attr_getguardsize") {
        Some(PosixSymbol::GetGuardSize)
    } else if str_equal(name, "pthread_attr_init") {
        Some(PosixSymbol::Stub { arity: 1 })
    } else if str_equal(name, "pthread_attr_destroy") {
        Some(PosixSymbol::Stub { arity: 1 })
    } else if str_equal(name, "pthread_attr_setstacksize") {
        Some(PosixSymbol::Stub { arity: 2 })
    } else if str_equal(name, "signal") {
        Some(PosixSymbol::Stub { arity: 2 })
    } else if str_equal(name, "sigaltstack") {
        Some(PosixSymbol::Stub { arity: 2 })
    } else if str_equal(name, "sigaction") {
        Some(PosixSymbol::Stub { arity: 3 })
    } else if str_equal(name, "mprotect") {
        Some(PosixSymbol::Stub { arity: 3 })
    } else {
        None
    }
}

/// Whether `x` is a power of two.
pub open spec fn is_power_of_two(x: u64) -> bool {
    x != 0 && x & ((x - 1) as u64) == 0
}

/// The key that the operand holds: a scalar as wide as the operand's type.
pub open spec fn spec_read_key(op: OpTy) -> InterpResult<TlsKey> {
    match OpTy::spec_read_scalar(op) {
        Err(e) => Err(e),
        Ok(s) => if s.size as u64 == op.layout.size {
            Scalar::spec_to_bits(s, s.size)
        } else {
            Err(
                InterpError::UndefinedBehavior(
                    UbKind::PlaceSizeMismatch { place: op.layout.size, value: s.size },
                ),
            )
        },
    }
}

/// The thread-local storage key that the operand holds.
pub fn read_key(op: &OpTy) -> (r: InterpResult<TlsKey>)
    ensures
        r == spec_read_key(*op),
{
    let s: Scalar = op.read_scalar()?;
    if s.size as u64 == op.layout.size {
        s.to_bits(s.size)
    } else {
        Err(
            InterpError::UndefinedBehavior(
                UbKind::PlaceSizeMismatch { place: op.layout.size, value: s.size },
            ),
        )
    }
}

/// The destructor that the operand names: none if it is null, else the
/// guest function it points to.
pub open spec fn spec_read_dtor(m: MachineView, op: OpTy) -> InterpResult<Option<Instance>> {
    match OpTy::spec_read_pointer(op) {
        Err(e) => Err(e),
        Ok(ptr) => if ptr == 0 {
            Ok(None)
        } else {
            match m.get_fn_instance(ptr) {
                Err(e) => Err(e),
                Ok(f) => Ok(Some(f)),
            }
        },
    }
}

/// The arguments of `read` and `write`: a file descriptor, the address of
/// a buffer, and a number of bytes.
pub open spec fn spec_io_args(args: Seq<OpTy>) -> InterpResult<(i32, u64, u64)> {
    match OpTy::spec_read_i32(args[0]) {
        Err(e) => Err(e),
        Ok(fd) => match OpTy::spec_read_pointer(args[1]) {
            Err(e) => Err(e),
            Ok(buf) => match OpTy::spec_read_pointer(args[2]) {
                Err(e) => Err(e),
                Ok(count) => Ok((fd, buf, count)),
            },
        },
    }
}

/// The arguments of `read` and `write`.
pub fn io_args(args: &[OpTy]) -> (r: InterpResult<(i32, u64, u64)>)
    requires
        args@.len() == 3,
    ensures
        r == spec_io_args(args@),
{
    let fd: i32 = args[0].read_i32()?;
    let buf: u64 = args[1].read_pointer()?;
    let count: u64 = args[2].read_pointer()?;
    Ok((fd, buf, count))
}

impl MachineView {
    /// What a function on one object comes to.
    pub open spec fn object_op(self, op: ObjectOp, arg: OpTy) -> (
        MachineView,
        InterpResult<CallStatus>,
    ) {
        match op {
            ObjectOp::MutexattrInit => returned(self.pthread_mutexattr_init(arg)),
            ObjectOp::MutexattrDestroy => returned(self.pthread_mutexattr_destroy(arg)),
            ObjectOp::MutexLock => self.pthread_mutex_lock(arg),
            ObjectOp::MutexTrylock => returned(self.pthread_mutex_trylock(arg)),
            ObjectOp::MutexUnlock => returned(self.pthread_mutex_unlock(arg)),
            ObjectOp::MutexDestroy => returned(self.pthread_mutex_destroy(arg)),
            ObjectOp::RwlockRdlock => self.pthread_rwlock_rdlock(arg),
            ObjectOp::RwlockTryrdlock => returned(self.pthread_rwlock_tryrdlock(arg)),
            ObjectOp::RwlockWrlock => self.pthread_rwlock_wrlock(arg),
            ObjectOp::RwlockTrywrlock => returned(self.pthread_rwlock_trywrlock(arg)),
            ObjectOp::RwlockUnlock => returned(self.pthread_rwlock_unlock(arg)),
            ObjectOp::RwlockDestroy => returned(self.pthread_rwlock_destroy(arg)),
            ObjectOp::CondattrInit => returned(self.pthread_condattr_init(arg)),
            ObjectOp::CondattrDestroy => returned(self.pthread_condattr_destroy(arg)),
            ObjectOp::CondSignal => returned(self.pthread_cond_signal(arg)),
            ObjectOp::CondBroadcast => returned(self.pthread_cond_broadcast(arg)),
            ObjectOp::CondDestroy => returned(self.pthread_cond_destroy(arg)),
            ObjectOp::Detach => returned(self.pthread_detach(arg)),
        }
    }

    /// What a function of two arguments with a status comes to.
    pub open spec fn object_op2(self, op: ObjectOp2, first: OpTy, second: OpTy) -> (
        MachineView,
        InterpResult<CallStatus>,
    ) {
        match op {
            ObjectOp2::MutexattrSettype => returned(self.pthread_mutexattr_settype(first, second)),
            ObjectOp2::MutexInit => returned(self.pthread_mutex_init(first, second)),
            ObjectOp2::CondInit => returned(self.pthread_cond_init(first, second)),
            ObjectOp2::CondWait => self.pthread_cond_wait(first, second),
            ObjectOp2::Join => returned(self.pthread_join(first, second)),
        }
    }

    /// `posix_memalign(ret, align, size)`: sets `size` bytes aside at an
    /// address that is a multiple of `align` and stores the address where
    /// `ret` points; for no bytes it stores null. The alignment must be a
    /// power of two and not less than the size of a pointer.
    pub open spec fn posix_memalign(self, ret: OpTy, align: OpTy, size: OpTy) -> (
        MachineView,
        InterpResult<i32>,
    ) {
        match OpTy::spec_deref(ret) {
            Err(e) => (self, Err(e)),
            Ok(place) => match OpTy::spec_read_pointer(align) {
                Err(e) => (self, Err(e)),
                Ok(align) => match OpTy::spec_read_pointer(size) {
                    Err(e) => (self, Err(e)),
                    Ok(size) => if !is_power_of_two(align) {
                        (
                            self,
                            Err(
                                InterpError::UndefinedBehavior(
                                    UbKind::AlignmentNotPowerOfTwo { align },
                                ),
                            ),
                        )
                    } else if align < POINTER_SIZE {
                        (
                            self,
                            Err(InterpError::UndefinedBehavior(UbKind::AlignmentTooSmall { align })),
                        )
                    } else {
                        match check_dest(place, POINTER_SIZE) {
                            Err(e) => (self, Err(e)),
                            Ok(()) => if size == 0 {
                                (self.store(Scalar { data: 0, size: POINTER_SIZE }, place), Ok(0))
                            } else {
                                match self.allocate(size, align, MemoryKind::C) {
                                    (_, Err(e)) => (self, Err(e)),
                                    (m, Ok(ptr)) => (
                                        m.store(Scalar { data: ptr, size: POINTER_SIZE }, place),
                                        Ok(0),
                                    ),
                                }
                            },
                        }
                    },
                },
            },
        }
    }

    /// `sysconf(name)`: the size of a page, or the number of processors.
    /// Any other query is not supported.
    pub open spec fn sysconf(self, name: OpTy) -> InterpResult<u64> {
        match OpTy::spec_read_i32(name) {
            Err(e) => Err(e),
            Ok(name) => if name == libc_i32(self.target_os, LibcConst::ScPagesize) {
                Ok(PAGE_SIZE)
            } else if name == libc_i32(self.target_os, LibcConst::ScNprocessorsConf) || name
                == libc_i32(self.target_os, LibcConst::ScNprocessorsOnln) {
                Ok(NUM_CPUS)
            } else {
                Err(InterpError::Unsupported(UnsupportedKind::SysconfName { name }))
            },
        }
    }

    /// `dlsym(handle, symbol)`: the address of the function that the string
    /// at `symbol` names, which gets an address for the purpose; null if the
    /// target offers no such function.
    pub open spec fn dlsym(self, handle: OpTy, symbol: OpTy) -> (MachineView, InterpResult<u64>) {
        match OpTy::spec_read_pointer(handle) {
            Err(e) => (self, Err(e)),
            Ok(_) => match OpTy::spec_read_pointer(symbol) {
                Err(e) => (self, Err(e)),
                Ok(addr) => if !self.strings.contains_key(addr) {
                    (self, Err(InterpError::UndefinedBehavior(UbKind::UninitializedRead)))
                } else {
                    match Dlsym::spec_from_str(self.strings[addr], self.target_os) {
                        None => (self, Ok(0)),
                        Some(f) => self.create_fn_alloc_ptr(FnVal::Other(f)),
                    }
                },
            },
        }
    }

    /// `pthread_key_create(key, dtor)`: creates a key with the destructor
    /// `dtor` and stores it where `key` points. The key is as wide as the
    /// type that `key` points to.
    pub open spec fn pthread_key_create(self, key: OpTy, dtor: OpTy) -> (
        MachineView,
        InterpResult<i32>,
    ) {
        match OpTy::spec_deref(key) {
            Err(e) => (self, Err(e)),
            Ok(place) => match spec_read_dtor(self, dtor) {
                Err(e) => (self, Err(e)),
                Ok(dtor) => if !(place.layout.size == 1 || place.layout.size == 2
                    || place.layout.size == 4 || place.layout.size == 8) {
                    (
                        self,
                        Err(
                            InterpError::UndefinedBehavior(
                                UbKind::PlaceSizeMismatch { place: place.layout.size, value: 8 },
                            ),
                        ),
                    )
                } else {
                    match self.tls.create_key(dtor, place.layout.size) {
                        (_, Err(e)) => (self, Err(e)),
                        (tls, Ok(key)) => (
                            (MachineView { tls, ..self }).store(
                                Scalar { data: key, size: place.layout.size as u8 },
                                place,
                            ),
                            Ok(0),
                        ),
                    }
                },
            },
        }
    }

    /// `pthread_key_delete(key)`.
    pub open spec fn pthread_key_delete(self, key: OpTy) -> (MachineView, InterpResult<i32>) {
        match spec_read_key(key) {
            Err(e) => (self, Err(e)),
            Ok(key) => match self.tls.delete_key(key) {
                (_, Err(e)) => (self, Err(e)),
                (tls, Ok(())) => (MachineView { tls, ..self }, Ok(0)),
            },
        }
    }

    /// `pthread_getspecific(key)`: the value of the active thread under `key`.
    pub open spec fn pthread_getspecific(self, key: OpTy) -> InterpResult<Scalar> {
        match spec_read_key(key) {
            Err(e) => Err(e),
            Ok(key) => self.tls.load(key, self.active_thread),
        }
    }

    /// `pthread_setspecific(key, value)`: binds `key` to `value` for the
    /// active thread.
    pub open spec fn pthread_setspecific(self, key: OpTy, value: OpTy) -> (
        MachineView,
        InterpResult<i32>,
    ) {
        match spec_read_key(key) {
            Err(e) => (self, Err(e)),
            Ok(key) => match OpTy::spec_read_scalar(value) {
                Err(e) => (self, Err(e)),
                Ok(value) => match self.tls.store(key, self.active_thread, value) {
                    (_, Err(e)) => (self, Err(e)),
                    (tls, Ok(())) => (MachineView { tls, ..self }, Ok(0)),
                },
            },
        }
    }

    /// `isatty(fd)`: no file descriptor is a terminal. The status is 0 and
    /// the last error is `ENOTTY`.
    pub open spec fn isatty(self, fd: OpTy) -> (MachineView, InterpResult<i32>) {
        match OpTy::spec_read_i32(fd) {
            Err(e) => (self, Err(e)),
            Ok(_) => (
                self.set_last_error(
                    Scalar { data: i32_bits(libc_i32(self.target_os, LibcConst::Enotty)), size: 4 },
                ),
                Ok(0),
            ),
        }
    }

    /// `pthread_atfork(prepare, parent, child)`: nothing to do, as there is
    /// no forking.
    pub open spec fn pthread_atfork(self, args: Seq<OpTy>) -> (MachineView, InterpResult<i32>) {
        match OpTy::spec_read_pointer(args[0]) {
            Err(e) => (self, Err(e)),
            Ok(_) => match OpTy::spec_read_pointer(args[1]) {
                Err(e) => (self, Err(e)),
                Ok(_) => match OpTy::spec_read_pointer(args[2]) {
                    Err(e) => (self, Err(e)),
                    Ok(_) => (self, Ok(0)),
                },
            },
        }
    }

    /// `pthread_attr_getguardsize(attr, guard_size)`: the size of a page
    /// goes where `guard_size` points.
    pub open spec fn pthread_attr_getguardsize(self, guard_size: OpTy) -> (
        MachineView,
        InterpResult<i32>,
    ) {
        match OpTy::spec_deref(guard_size) {
            Err(e) => (self, Err(e)),
            Ok(place) => match check_dest(place, POINTER_SIZE) {
                Err(e) => (self, Err(e)),
                Ok(()) => (self.store(Scalar { data: PAGE_SIZE, size: POINTER_SIZE }, place), Ok(0)),
            },
        }
    }

    /// An emulated function that returns a pointer-sized value: as
    /// `shim_i32`, for a destination of the width of a pointer.
    pub open spec fn shim_usize(
        self,
        abi: Abi,
        args: Seq<OpTy>,
        n: nat,
        dest: PlaceTy,
        op: (MachineView, InterpResult<u64>),
    ) -> (MachineView, InterpResult<EmulateByNameResult>) {
        match spec_check_shim(abi, Abi::C, args, n) {
            Err(e) => (self, Err(e)),
            Ok(()) => match check_dest(dest, POINTER_SIZE) {
                Err(e) => (self, Err(e)),
                Ok(()) => match op {
                    (_, Err(e)) => (self, Err(e)),
                    (m, Ok(v)) => (
                        m.store(Scalar { data: v, size: POINTER_SIZE }, dest),
                        Ok(EmulateByNameResult::NeedsJumping),
                    ),
                },
            },
        }
    }

    /// What a call of the function `symbol` of the catalogue comes to.
    pub open spec fn emulate_posix_symbol(
        self,
        symbol: PosixSymbol,
        abi: Abi,
        args: Seq<OpTy>,
        dest: PlaceTy,
    ) -> (MachineView, InterpResult<EmulateByNameResult>) {
        match symbol {
            PosixSymbol::Plain { call, arity } => self.shim_host(
                abi,
                Abi::C,
                args,
                arity as nat,
                call,
            ),
            PosixSymbol::Variadic { call } => match spec_check_abi(abi, Abi::C) {
                Err(e) => (self, Err(e)),
                Ok(()) => (self, Ok(EmulateByNameResult::Host(call))),
            },
            PosixSymbol::Setenv => match spec_check_shim(abi, Abi::C, args, 3) {
                Err(e) => (self, Err(e)),
                Ok(()) => match OpTy::spec_read_i32(args[2]) {
                    Err(e) => (self, Err(e)),
                    Ok(_) => (self, Ok(EmulateByNameResult::Host(HostCall::Setenv))),
                },
            },
            PosixSymbol::Read => match spec_check_shim(abi, Abi::C, args, 3) {
                Err(e) => (self, Err(e)),
                Ok(()) => match spec_io_args(args) {
                    Err(e) => (self, Err(e)),
                    Ok((fd, buf, count)) => (
                        self,
                        Ok(EmulateByNameResult::Host(HostCall::Read { fd, buf, count })),
                    ),
                },
            },
            PosixSymbol::Write => match spec_check_shim(abi, Abi::C, args, 3) {
                Err(e) => (self, Err(e)),
                Ok(()) => match spec_io_args(args) {
                    Err(e) => (self, Err(e)),
                    Ok((fd, buf, count)) => (
                        self,
                        Ok(EmulateByNameResult::Host(HostCall::Write { fd, buf, count })),
                    ),
                },
            },
            PosixSymbol::StrerrorR => match spec_check_shim(abi, Abi::C, args, 3) {
                Err(e) => (self, Err(e)),
                Ok(()) => match OpTy::spec_read_scalar(args[0]) {
                    Err(e) => (self, Err(e)),
                    Ok(errnum) => match OpTy::spec_read_pointer(args[1]) {
                        Err(e) => (self, Err(e)),
                        Ok(buf) => match OpTy::spec_read_pointer(args[2]) {
                            Err(e) => (self, Err(e)),
                            Ok(buflen) => (
                                self,
                                Ok(
                                    EmulateByNameResult::Host(
                                        HostCall::StrerrorR { errnum, buf, buflen },
                                    ),
                                ),
                            ),
                        },
                    },
                },
            },
            PosixSymbol::PosixMemalign => self.shim_i32(
                abi,
                Abi::C,
                args,
                3,
                dest,
                self.posix_memalign(args[0], args[1], args[2]),
            ),
            PosixSymbol::Dlsym => self.shim_usize(abi, args, 2, dest, self.dlsym(args[0], args[1])),
            PosixSymbol::Sysconf => self.shim_usize(abi, args, 1, dest, (self, self.sysconf(args[0]))),
            PosixSymbol::KeyCreate => self.shim_i32(
                abi,
                Abi::C,
                args,
                2,
                dest,
                self.pthread_key_create(args[0], args[1]),
            ),
            PosixSymbol::KeyDelete => self.shim_i32(
                abi,
                Abi::C,
                args,
                1,
                dest,
                self.pthread_key_delete(args[0]),
            ),
            PosixSymbol::GetSpecific => match spec_check_shim(abi, Abi::C, args, 1) {
                Err(e) => (self, Err(e)),
                Ok(()) => match self.pthread_getspecific(args[0]) {
                    Err(e) => (self, Err(e)),
                    Ok(value) => match check_dest(dest, value.size) {
                        Err(e) => (self, Err(e)),
                        Ok(()) => (self.store(value, dest), Ok(EmulateByNameResult::NeedsJumping)),
                    },
                },
            },
            PosixSymbol::SetSpecific => self.shim_i32(
                abi,
                Abi::C,
                args,
                2,
                dest,
                self.pthread_setspecific(args[0], args[1]),
            ),
            PosixSymbol::Object(op) => self.shim_status(
                abi,
                Abi::C,
                args,
                1,
                dest,
                self.object_op(op, args[0]),
            ),
            PosixSymbol::Object2(op) => self.shim_status(
                abi,
                Abi::C,
                args,
                2,
                dest,
                self.object_op2(op, args[0], args[1]),
            ),
            PosixSymbol::CondTimedwait => self.shim_status(
                abi,
                Abi::C,
                args,
                3,
                dest,
                self.pthread_cond_timedwait(args[0], args[1], args[2]),
            ),
            PosixSymbol::Create => self.shim_i32(
                abi,
                Abi::C,
                args,
                4,
                dest,
                self.pthread_create(args[0], args[1], args[2], args[3]),
            ),
            PosixSymbol::SelfId => match spec_check_shim(abi, Abi::C, args, 0) {
                Err(e) => (self, Err(e)),
                Ok(()) => match self.pthread_self(dest) {
                    (_, Err(e)) => (self, Err(e)),
                    (m, Ok(())) => (m, Ok(EmulateByNameResult::NeedsJumping)),
                },
            },
            PosixSymbol::SchedYield => self.shim_i32(abi, Abi::C, args, 0, dest, self.sched_yield()),
            PosixSymbol::Isatty => self.shim_i32(abi, Abi::C, args, 1, dest, self.isatty(args[0])),
            PosixSymbol::Atfork => self.shim_i32(abi, Abi::C, args, 3, dest, self.pthread_atfork(args)),
            PosixSymbol::GetGuardSize => if !self.frame_in_std() {
                (self, Ok(EmulateByNameResult::NotSupported))
            } else {
                self.shim_i32(abi, Abi::C, args, 2, dest, self.pthread_attr_getguardsize(args[1]))
            },
            PosixSymbol::Stub { arity } => if !self.frame_in_std() {
                (self, Ok(EmulateByNameResult::NotSupported))
            } else {
                match spec_check_shim(abi, Abi::C, args, arity as nat) {
                    Err(e) => (self, Err(e)),
                    Ok(()) => match self.write_null(dest) {
                        (_, Err(e)) => (self, Err(e)),
                        (m, Ok(())) => (m, Ok(EmulateByNameResult::NeedsJumping)),
                    },
                }
            },
        }
    }

    /// What a call of the foreign function `name` comes to on a POSIX
    /// target. A name that the catalogue does not hold is not supported, and
    /// nothing changes.
    pub open spec fn emulate_posix(self, name: Seq<char>, abi: Abi, args: Seq<OpTy>, dest: PlaceTy)
        -> (MachineView, InterpResult<EmulateByNameResult>) {
        match posix_symbol(name) {
            None => (self, Ok(EmulateByNameResult::NotSupported)),
            Some(symbol) => self.emulate_posix_symbol(symbol, abi, args, dest),
        }
    }
}

impl MiriEvalContext {
    /// Carries out a function on one object and says what it came to.
    pub fn object_op(&mut self, op: ObjectOp, arg: &OpTy) -> (r: InterpResult<CallStatus>)
        ensures
            (final(self)@, r) == old(self)@.object_op(op, *arg),
            old(self)@.wf() ==> final(self)@.wf(),
    {
        let status: i32 = match op {
            ObjectOp::MutexLock => {
                return self.pthread_mutex_lock(arg);
            },
            ObjectOp::RwlockRdlock => {
                return self.pthread_rwlock_rdlock(arg);
            },
            ObjectOp::RwlockWrlock => {
                return self.pthread_rwlock_wrlock(arg);
            },
            ObjectOp::MutexattrInit => self.pthread_mutexattr_init(arg)?,
            ObjectOp::MutexattrDestroy => self.pthread_mutexattr_destroy(arg)?,
            ObjectOp::MutexTrylock => self.pthread_mutex_trylock(arg)?,
            ObjectOp::MutexUnlock => self.pthread_mutex_unlock(arg)?,
            ObjectOp::MutexDestroy => self.pthread_mutex_destroy(arg)?,
            ObjectOp::RwlockTryrdlock => self.pthread_rwlock_tryrdlock(arg)?,
            ObjectOp::RwlockTrywrlock => self.pthread_rwlock_trywrlock(arg)?,
            ObjectOp::RwlockUnlock => self.pthread_rwlock_unlock(arg)?,
            ObjectOp::RwlockDestroy => self.pthread_rwlock_destroy(arg)?,
            ObjectOp::CondattrInit => self.pthread_condattr_init(arg)?,
            ObjectOp::CondattrDestroy => self.pthread_condattr_destroy(arg)?,
            ObjectOp::CondSignal => self.pthread_cond_signal(arg)?,
            ObjectOp::CondBroadcast => self.pthread_cond_broadcast(arg)?,
            ObjectOp::CondDestroy => self.pthread_cond_destroy(arg)?,
            ObjectOp::Detach => self.pthread_detach(arg)?,
        };
        Ok(CallStatus::Returns(status))
    }

    /// Carries out a function of two arguments and says what it came to.
    pub fn object_op2(&mut self, op: ObjectOp2, first: &OpTy, second: &OpTy) -> (r: InterpResult<
        CallStatus,
    >)
        requires
            old(self)@.wf(),
        ensures
            (final(self)@, r) == old(self)@.object_op2(op, *first, *second),
            final(self)@.wf(),
    {
        let status: i32 = match op {
            ObjectOp2::CondWait => {
                return self.pthread_cond_wait(first, second);
            },
            ObjectOp2::MutexattrSettype => self.pthread_mutexattr_settype(first, second)?,
            ObjectOp2::MutexInit => self.pthread_mutex_init(first, second)?,
            ObjectOp2::CondInit => self.pthread_cond_init(first, second)?,
            ObjectOp2::Join => self.pthread_join(first, second)?,
        };
        Ok(CallStatus::Returns(status))
    }

    /// `posix_memalign(ret, align, size)`.
    pub fn posix_memalign(&mut self, ret: &OpTy, align: &OpTy, size: &OpTy) -> (r: InterpResult<
        i32,
    >)
        ensures
            (final(self)@, r) == old(self)@.posix_memalign(*ret, *align, *size),
            old(self)@.wf() ==> final(self)@.wf(),
    {
        let place: PlaceTy = ret.deref_operand()?;
        let align: u64 = align.read_pointer()?;
        let size: u64 = size.read_pointer()?;
        if !(align != 0 && align & (align - 1) == 0) {
            return Err(InterpError::UndefinedBehavior(UbKind::AlignmentNotPowerOfTwo { align }));
        }
        if align < POINTER_SIZE as u64 {
            return Err(InterpError::UndefinedBehavior(UbKind::AlignmentTooSmall { align }));
        }
        check_dest_size(&place, POINTER_SIZE)?;
        if size == 0 {
            self.store(Scalar::null_ptr(), &place);
        } else {
            let ptr: u64 = self.allocate(size, align, MemoryKind::C)?;
            self.store(Scalar::from_machine_usize(ptr), &place);
        }
        Ok(0)
    }

    /// `sysconf(name)`.
    pub fn sysconf(&self, name: &OpTy) -> (r: InterpResult<u64>)
        ensures
            r == self@.sysconf(*name),
    {
        let name: i32 = name.read_i32()?;
        if name == eval_libc_i32(self.target_os, LibcConst::ScPagesize) {
            Ok(PAGE_SIZE)
        } else if name == eval_libc_i32(self.target_os, LibcConst::ScNprocessorsConf) || name
            == eval_libc_i32(self.target_os, LibcConst::ScNprocessorsOnln) {
            Ok(NUM_CPUS)
        } else {
            Err(InterpError::Unsupported(UnsupportedKind::SysconfName { name }))
        }
    }

    /// `dlsym(handle, symbol)`.
    pub fn dlsym(&mut self, handle: &OpTy, symbol: &OpTy) -> (r: InterpResult<u64>)
        ensures
            (final(self)@, r) == old(self)@.dlsym(*handle, *symbol),
            old(self)@.wf() ==> final(self)@.wf(),
    {
        handle.read_pointer()?;
        let addr: u64 = symbol.read_pointer()?;
        let found: Option<Dlsym> = match self.strings.get(&addr) {
            None => {
                return Err(InterpError::UndefinedBehavior(UbKind::UninitializedRead));
            },
            Some(name) => Dlsym::from_str(name.as_str(), self.target_os),
        };
        match found {
            None => Ok(0),
            Some(f) => {
                self.create_fn_alloc_ptr(FnVal::Other(f))
            },
        }
    }

    /// The destructor that the operand names.
    fn read_dtor(&self, op: &OpTy) -> (r: InterpResult<Option<Instance>>)
        ensures
            r == spec_read_dtor(self@, *op),
    {
        let ptr: u64 = op.read_pointer()?;
        if ptr == 0 {
            Ok(None)
        } else {
            let f: Instance = self.get_fn_instance(ptr)?;
            Ok(Some(f))
        }
    }

    /// `pthread_key_create(key, dtor)`.
    pub fn pthread_key_create(&mut self, key: &OpTy, dtor: &OpTy) -> (r: InterpResult<i32>)
        ensures
            (final(self)@, r) == old(self)@.pthread_key_create(*key, *dtor),
            old(self)@.wf() ==> final(self)@.wf(),
    {
        let place: PlaceTy = key.deref_operand()?;
        let dtor: Option<Instance> = self.read_dtor(dtor)?;
        if !is_scalar_size(place.layout.size) {
            return Err(
                InterpError::UndefinedBehavior(
                    UbKind::PlaceSizeMismatch { place: place.layout.size, value: 8 },
                ),
            );
        }
        proof {
            if old(self)@.wf() {
                lemma_create_key_fresh(old(self)@.tls, dtor, place.layout.size);
            }
        }
        let key: TlsKey = self.tls.create_tls_key(dtor, place.layout.size)?;
        self.store(Scalar { data: key, size: place.layout.size as u8 }, &place);
        Ok(0)
    }

    /// `pthread_key_delete(key)`.
    pub fn pthread_key_delete(&mut self, key: &OpTy) -> (r: InterpResult<i32>)
        ensures
            (final(self)@, r) == old(self)@.pthread_key_delete(*key),
            old(self)@.wf() ==> final(self)@.wf(),
    {
        let key: TlsKey = read_key(key)?;
        proof {
            if old(self)@.wf() {
                lemma_tls_wf_preserved(old(self)@.tls, key, 0, Scalar { data: 0, size: 8 });
            }
        }
        self.tls.delete_tls_key(key)?;
        Ok(0)
    }

    /// `pthread_getspecific(key)`.
    pub fn pthread_getspecific(&self, key: &OpTy) -> (r: InterpResult<Scalar>)
        ensures
            r == self@.pthread_getspecific(*key),
    {
        let key: TlsKey = read_key(key)?;
        self.tls.load_tls(key, self.active_thread)
    }

    /// `pthread_setspecific(key, value)`.
    pub fn pthread_setspecific(&mut self, key: &OpTy, value: &OpTy) -> (r: InterpResult<i32>)
        ensures
            (final(self)@, r) == old(self)@.pthread_setspecific(*key, *value),
            old(self)@.wf() ==> final(self)@.wf(),
    {
        let key: TlsKey = read_key(key)?;
        let value: Scalar = value.read_scalar()?;
        proof {
            if old(self)@.wf() {
                lemma_tls_wf_preserved(old(self)@.tls, key, old(self)@.active_thread, value);
            }
        }
        self.tls.store_tls(key, self.active_thread, value)?;
        Ok(0)
    }

    /// `isatty(fd)`.
    pub fn isatty(&mut self, fd: &OpTy) -> (r: InterpResult<i32>)
        requires
            old(self)@.wf(),
        ensures
            (final(self)@, r) == old(self)@.isatty(*fd),
            final(self)@.wf(),
    {
        fd.read_i32()?;
        let enotty: i32 = eval_libc_i32(self.target_os, LibcConst::Enotty);
        self.set_last_error(Scalar::from_i32(enotty));
        Ok(0)
    }

    /// `pthread_atfork(prepare, parent, child)`.
    pub fn pthread_atfork(&self, args: &[OpTy]) -> (r: InterpResult<i32>)
        requires
            args@.len() == 3,
        ensures
            (self@, r) == self@.pthread_atfork(args@),
    {
        args[0].read_pointer()?;
        args[1].read_pointer()?;
        args[2].read_pointer()?;
        Ok(0)
    }

    /// `pthread_attr_getguardsize(attr, guard_size)`.
    pub fn pthread_attr_getguardsize(&mut self, guard_size: &OpTy) -> (r: InterpResult<i32>)
        ensures
            (final(self)@, r) == old(self)@.pthread_attr_getguardsize(*guard_size),
            old(self)@.wf() ==> final(self)@.wf(),
    {
        let place: PlaceTy = guard_size.deref_operand()?;
        check_dest_size(&place, POINTER_SIZE)?;
        self.store(Scalar::from_machine_usize(PAGE_SIZE), &place);
        Ok(0)
    }

    /// Returns the pointer-sized result of an emulated function to the guest.
    fn return_usize(&mut self, value: u64, dest: &PlaceTy) -> (r: InterpResult<
        EmulateByNameResult,
    >)
        ensures
            final(self)@ == old(self)@.store(Scalar { data: value, size: POINTER_SIZE }, *dest),
            r == Ok::<EmulateByNameResult, InterpError>(EmulateByNameResult::NeedsJumping),
            old(self)@.wf() ==> final(self)@.wf(),
    {
        self.store(Scalar::from_machine_usize(value), dest);
        Ok(EmulateByNameResult::NeedsJumping)
    }

    /// Emulates a call of a function that the host performs.
    fn emulate_posix_host(
        &mut self,
        symbol: PosixSymbol,
        abi: Abi,
        args: &[OpTy],
        dest: &PlaceTy,
    ) -> (r: InterpResult<EmulateByNameResult>)
        requires
            old(self)@.wf(),
            symbol is Plain || symbol is Variadic || symbol is Setenv || symbol is Read || symbol is Write || symbol is StrerrorR,
        ensures
            (final(self)@, r) == old(self)@.emulate_posix_symbol(symbol, abi, args@, *dest),
            final(self)@.wf(),
    {
        match symbol {
            PosixSymbol::Plain { call, arity } => {
                check_shim(abi, Abi::C, args, arity)?;
                Ok(EmulateByNameResult::Host(call))
            },
            PosixSymbol::Variadic { call } => {
                check_abi(abi, Abi::C)?;
                Ok(EmulateByNameResult::Host(call))
            },
            PosixSymbol::Setenv => {
                check_shim(abi, Abi::C, args, 3)?;
                args[2].read_i32()?;
                Ok(EmulateByNameResult::Host(HostCall::Setenv))
            },
            PosixSymbol::Read => {
                check_shim(abi, Abi::C, args, 3)?;
                let (fd, buf, count) = io_args(args)?;
                Ok(EmulateByNameResult::Host(HostCall::Read { fd, buf, count }))
            },
            PosixSymbol::Write => {
                check_shim(abi, Abi::C, args, 3)?;
                let (fd, buf, count) = io_args(args)?;
                Ok(EmulateByNameResult::Host(HostCall::Write { fd, buf, count }))
            },
            PosixSymbol::StrerrorR => {
                check_shim(abi, Abi::C, args, 3)?;
                let errnum: Scalar = args[0].read_scalar()?;
                let buf: u64 = args[1].read_pointer()?;
                let buflen: u64 = args[2].read_pointer()?;
                Ok(EmulateByNameResult::Host(HostCall::StrerrorR { errnum, buf, buflen }))
            },
            _ => Ok(EmulateByNameResult::NotSupported),
        }
    }

    /// Emulates a call of a function on memory, symbols or the system.
    fn emulate_posix_memory(
        &mut self,
        symbol: PosixSymbol,
        abi: Abi,
        args: &[OpTy],
        dest: &PlaceTy,
    ) -> (r: InterpResult<EmulateByNameResult>)
        requires
            old(self)@.wf(),
            symbol is PosixMemalign || symbol is Dlsym || symbol is Sysconf,
        ensures
            (final(self)@, r) == old(self)@.emulate_posix_symbol(symbol, abi, args@, *dest),
            final(self)@.wf(),
    {
        match symbol {
            PosixSymbol::PosixMemalign => {
                check_shim(abi, Abi::C, args, 3)?;
                check_dest_size(dest, 4)?;
                let status: i32 = self.posix_memalign(&args[0], &args[1], &args[2])?;
                self.return_i32(status, dest)
            },
            PosixSymbol::Dlsym => {
                check_shim(abi, Abi::C, args, 2)?;
                check_dest_size(dest, POINTER_SIZE)?;
                let ptr: u64 = self.dlsym(&args[0], &args[1])?;
                self.return_usize(ptr, dest)
            },
            PosixSymbol::Sysconf => {
                check_shim(abi, Abi::C, args, 1)?;
                check_dest_size(dest, POINTER_SIZE)?;
                let value: u64 = self.sysconf(&args[0])?;
                self.return_usize(value, dest)
            },
            _ => Ok(EmulateByNameResult::NotSupported),
        }
    }

    /// Emulates a call of a function on thread-local storage.
    fn emulate_posix_tls(
        &mut self,
        symbol: PosixSymbol,
        abi: Abi,
        args: &[OpTy],
        dest: &PlaceTy,
    ) -> (r: InterpResult<EmulateByNameResult>)
        requires
            old(self)@.wf(),
            symbol is KeyCreate || symbol is KeyDelete || symbol is GetSpecific || symbol is SetSpecific,
        ensures
            (final(self)@, r) == old(self)@.emulate_posix_symbol(symbol, abi, args@, *dest),
            final(self)@.wf(),
    {
        match symbol {
            PosixSymbol::KeyCreate => {
                check_shim(abi, Abi::C, args, 2)?;
                check_dest_size(dest, 4)?;
                let status: i32 = self.pthread_key_create(&args[0], &args[1])?;
                self.return_i32(status, dest)
            },
            PosixSymbol::KeyDelete => {
                check_shim(abi, Abi::C, args, 1)?;
                check_dest_size(dest, 4)?;
                let status: i32 = self.pthread_key_delete(&args[0])?;
                self.return_i32(status, dest)
            },
            PosixSymbol::GetSpecific => {
                check_shim(abi, Abi::C, args, 1)?;
                let value: Scalar = self.pthread_getspecific(&args[0])?;
                check_dest_size(dest, value.size)?;
                self.store(value, dest);
                Ok(EmulateByNameResult::NeedsJumping)
            },
            PosixSymbol::SetSpecific => {
                check_shim(abi, Abi::C, args, 2)?;
                check_dest_size(dest, 4)?;
                let status: i32 = self.pthread_setspecific(&args[0], &args[1])?;
                self.return_i32(status, dest)
            },
            _ => Ok(EmulateByNameResult::NotSupported),
        }
    }

    /// Emulates a call of a function on one object.
    fn emulate_posix_object1(
        &mut self,
        symbol: PosixSymbol,
        abi: Abi,
        args: &[OpTy],
        dest: &PlaceTy,
    ) -> (r: InterpResult<EmulateByNameResult>)
        requires
            old(self)@.wf(),
            symbol is Object,
        ensures
            (final(self)@, r) == old(self)@.emulate_posix_symbol(symbol, abi, args@, *dest),
            final(self)@.wf(),
    {
        match symbol {
            PosixSymbol::Object(op) => {
                check_shim(abi, Abi::C, args, 1)?;
                check_dest_size(dest, 4)?;
                let status: CallStatus = self.object_op(op, &args[0])?;
                self.return_status(status, dest)
            },
            _ => Ok(EmulateByNameResult::NotSupported),
        }
    }

    /// Emulates a call of a function of two arguments with a status.
    fn emulate_posix_object2(
        &mut self,
        symbol: PosixSymbol,
        abi: Abi,
        args: &[OpTy],
        dest: &PlaceTy,
    ) -> (r: InterpResult<EmulateByNameResult>)
        requires
            old(self)@.wf(),
            symbol is Object2,
        ensures
            (final(self)@, r) == old(self)@.emulate_posix_symbol(symbol, abi, args@, *dest),
            final(self)@.wf(),
    {
        match symbol {
            PosixSymbol::Object2(op) => {
                check_shim(abi, Abi::C, args, 2)?;
                check_dest_size(dest, 4)?;
                let status: CallStatus = self.object_op2(op, &args[0], &args[1])?;
                self.return_status(status, dest)
            },
            _ => Ok(EmulateByNameResult::NotSupported),
        }
    }

    /// Emulates a call of the timed wait.
    fn emulate_posix_timedwait(
        &mut self,
        symbol: PosixSymbol,
        abi: Abi,
        args: &[OpTy],
        dest: &PlaceTy,
    ) -> (r: InterpResult<EmulateByNameResult>)
        requires
            old(self)@.wf(),
            symbol is CondTimedwait,
        ensures
            (final(self)@, r) == old(self)@.emulate_posix_symbol(symbol, abi, args@, *dest),
            final(self)@.wf(),
    {
        match symbol {
            PosixSymbol::CondTimedwait => {
                check_shim(abi, Abi::C, args, 3)?;
                check_dest_size(dest, 4)?;
                let status: CallStatus = self.pthread_cond_timedwait(
                    &args[0],
                    &args[1],
                    &args[2],
                )?;
                self.return_status(status, dest)
            },
            _ => Ok(EmulateByNameResult::NotSupported),
        }
    }

    /// Emulates a call of a function on threads.
    fn emulate_posix_thread(
        &mut self,
        symbol: PosixSymbol,
        abi: Abi,
        args: &[OpTy],
        dest: &PlaceTy,
    ) -> (r: InterpResult<EmulateByNameResult>)
        requires
            old(self)@.wf(),
            symbol is Create || symbol is SelfId || symbol is SchedYield,
        ensures
            (final(self)@, r) == old(self)@.emulate_posix_symbol(symbol, abi, args@, *dest),
            final(self)@.wf(),
    {
        match symbol {
            PosixSymbol::Create => {
                check_shim(abi, Abi::C, args, 4)?;
                check_dest_size(dest, 4)?;
                let status: i32 = self.pthread_create(&args[0], &args[1], &args[2], &args[3])?;
                self.return_i32(status, dest)
            },
            PosixSymbol::SelfId => {
                check_shim(abi, Abi::C, args, 0)?;
                self.pthread_self(dest)?;
                Ok(EmulateByNameResult::NeedsJumping)
            },
            PosixSymbol::SchedYield => {
                check_shim(abi, Abi::C, args, 0)?;
                check_dest_size(dest, 4)?;
                let status: i32 = self.sched_yield()?;
                self.return_i32(status, dest)
            },
            _ => Ok(EmulateByNameResult::NotSupported),
        }
    }

    /// Emulates a call of one of the remaining functions.
    fn emulate_posix_misc(
        &mut self,
        symbol: PosixSymbol,
        abi: Abi,
        args: &[OpTy],
        dest: &PlaceTy,
    ) -> (r: InterpResult<EmulateByNameResult>)
        requires
            old(self)@.wf(),
            symbol is Isatty || symbol is Atfork || symbol is GetGuardSize || symbol is Stub,
        ensures
            (final(self)@, r) == old(self)@.emulate_posix_symbol(symbol, abi, args@, *dest),
            final(self)@.wf(),
    {
        match symbol {
            PosixSymbol::Isatty => {
                check_shim(abi, Abi::C, args, 1)?;
                check_dest_size(dest, 4)?;
                let status: i32 = self.isatty(&args[0])?;
                self.return_i32(status, dest)
            },
            PosixSymbol::Atfork => {
                check_shim(abi, Abi::C, args, 3)?;
                check_dest_size(dest, 4)?;
                let status: i32 = self.pthread_atfork(args)?;
                self.return_i32(status, dest)
            },
            PosixSymbol::GetGuardSize => {
                if !self.frame_in_std() {
                    return Ok(EmulateByNameResult::NotSupported);
                }
                check_shim(abi, Abi::C, args, 2)?;
                check_dest_size(dest, 4)?;
                let status: i32 = self.pthread_attr_getguardsize(&args[1])?;
                self.return_i32(status, dest)
            },
            PosixSymbol::Stub { arity } => {
                if !self.frame_in_std() {
                    return Ok(EmulateByNameResult::NotSupported);
                }
                check_shim(abi, Abi::C, args, arity)?;
                self.write_null(dest)?;
                Ok(EmulateByNameResult::NeedsJumping)
            },
            _ => Ok(EmulateByNameResult::NotSupported),
        }
    }

    /// Emulates a call of the function `symbol` of the catalogue.
    pub fn emulate_posix_symbol(
        &mut self,
        symbol: PosixSymbol,
        abi: Abi,
        args: &[OpTy],
        dest: &PlaceTy,
    ) -> (r: InterpResult<EmulateByNameResult>)
        requires
            old(self)@.wf(),
        ensures
            (final(self)@, r) == old(self)@.emulate_posix_symbol(symbol, abi, args@, *dest),
            final(self)@.wf(),
    {
        match symbol {
            PosixSymbol::Plain { .. }
            | PosixSymbol::Variadic { .. }
            | PosixSymbol::Setenv
            | PosixSymbol::Read
            | PosixSymbol::Write
            | PosixSymbol::StrerrorR => self.emulate_posix_host(symbol, abi, args, dest),
            PosixSymbol::PosixMemalign | PosixSymbol::Dlsym | PosixSymbol::Sysconf => {
                self.emulate_posix_memory(symbol, abi, args, dest)
            },
            PosixSymbol::KeyCreate
            | PosixSymbol::KeyDelete
            | PosixSymbol::GetSpecific
            | PosixSymbol::SetSpecific => self.emulate_posix_tls(symbol, abi, args, dest),
            PosixSymbol::Object(_) => self.emulate_posix_object1(symbol, abi, args, dest),
            PosixSymbol::Object2(_) => self.emulate_posix_object2(symbol, abi, args, dest),
            PosixSymbol::CondTimedwait => self.emulate_posix_timedwait(symbol, abi, args, dest),
            PosixSymbol::Create | PosixSymbol::SelfId | PosixSymbol::SchedYield => {
                self.emulate_posix_thread(symbol, abi, args, dest)
            },
            PosixSymbol::Isatty
            | PosixSymbol::Atfork
            | PosixSymbol::GetGuardSize
            | PosixSymbol::Stub { .. } => self.emulate_posix_misc(symbol, abi, args, dest),
        }
    }
}

/// The POSIX catalogue of foreign functions of an interpreter context.
pub trait EvalContextExt: View<V = MachineView> {
    /// Emulates a call of the foreign function `link_name` with the
    /// arguments `args`, made through the ABI `abi`, whose result goes to
    /// `dest` and whose caller resumes at `ret`. A call with the wrong ABI,
    /// the wrong number of arguments or arguments of the wrong type is a
    /// violation, and then nothing changes; so it is with every other failure.
    fn emulate_foreign_item_by_name(
        &mut self,
        link_name: &str,
        abi: Abi,
        args: &[OpTy],
        dest: &PlaceTy,
        ret: BasicBlock,
    ) -> (r: InterpResult<EmulateByNameResult>)
        requires
            old(self)@.wf(),
        ensures
            (final(self)@, r) == old(self)@.emulate_posix(link_name@, abi, args@, *dest),
            final(self)@.wf(),
    ;
}

impl EvalContextExt for MiriEvalContext {
    fn emulate_foreign_item_by_name(
        &mut self,
        link_name: &str,
        abi: Abi,
        args: &[OpTy],
        dest: &PlaceTy,
        ret: BasicBlock,
    ) -> (r: InterpResult<EmulateByNameResult>) {
        match lookup_posix_symbol(link_name) {
            None => Ok(EmulateByNameResult::NotSupported),
            Some(symbol) => self.emulate_posix_symbol(symbol, abi, args, dest),
        }
    }
}

/// An emulated function that returns a status changes nothing when it
/// fails, whatever it does when it succeeds.
pub proof fn lemma_shim_failure_changes_nothing(
    m: MachineView,
    abi: Abi,
    args: Seq<OpTy>,
    n: nat,
    dest: PlaceTy,
    status: (MachineView, InterpResult<i32>),
    value: (MachineView, InterpResult<u64>),
)
    ensures
        m.shim_i32(abi, Abi::C, args, n, dest, status).1 is Err ==> m.shim_i32(
            abi,
            Abi::C,
            args,
            n,
            dest,
            status,
        ).0 == m,
        m.shim_usize(abi, args, n, dest, value).1 is Err ==> m.shim_usize(abi, args, n, dest, value).0
            == m,
{
}

/// An emulated function that can block its caller changes nothing when it
/// fails.
pub proof fn lemma_shim_status_failure_changes_nothing(
    m: MachineView,
    abi: Abi,
    args: Seq<OpTy>,
    n: nat,
    dest: PlaceTy,
    op: (MachineView, InterpResult<CallStatus>),
)
    ensures
        m.shim_status(abi, Abi::C, args, n, dest, op).1 is Err ==> m.shim_status(
            abi,
            Abi::C,
            args,
            n,
            dest,
            op,
        ).0 == m,
{
}

/// Whatever a call of a function of the POSIX catalogue comes to, a failure
/// leaves the machine as it was.
pub proof fn lemma_posix_symbol_failure_changes_nothing(
    m: MachineView,
    symbol: PosixSymbol,
    abi: Abi,
    args: Seq<OpTy>,
    dest: PlaceTy,
)
    ensures
        m.emulate_posix_symbol(symbol, abi, args, dest).1 is Err ==> m.emulate_posix_symbol(
            symbol,
            abi,
            args,
            dest,
        ).0 == m,
{
    match symbol {
        PosixSymbol::PosixMemalign => {
            lemma_shim_failure_changes_nothing(
                m,
                abi,
                args,
                3,
                dest,
                m.posix_memalign(args[0], args[1], args[2]),
                (m, Ok(0)),
            );
        },
        PosixSymbol::Dlsym => {
            lemma_shim_failure_changes_nothing(
                m,
                abi,
                args,
                2,
                dest,
                (m, Ok(0)),
                m.dlsym(args[0], args[1]),
            );
        },
        PosixSymbol::Sysconf => {
            lemma_shim_failure_changes_nothing(
                m,
                abi,
                args,
                1,
                dest,
                (m, Ok(0)),
                (m, m.sysconf(args[0])),
            );
        },
        PosixSymbol::KeyCreate => {
            lemma_shim_failure_changes_nothing(
                m,
                abi,
                args,
                2,
                dest,
                m.pthread_key_create(args[0], args[1]),
                (m, Ok(0)),
            );
        },
        PosixSymbol::KeyDelete => {
            lemma_shim_failure_changes_nothing(
                m,
                abi,
                args,
                1,
                dest,
                m.pthread_key_delete(args[0]),
                (m, Ok(0)),
            );
        },
        PosixSymbol::SetSpecific => {
            lemma_shim_failure_changes_nothing(
                m,
                abi,
                args,
                2,
                dest,
                m.pthread_setspecific(args[0], args[1]),
                (m, Ok(0)),
            );
        },
        PosixSymbol::Object(op) => {
            lemma_shim_status_failure_changes_nothing(
                m,
                abi,
                args,
                1,
                dest,
                m.object_op(op, args[0]),
            );
        },
        PosixSymbol::Object2(op) => {
            lemma_shim_status_failure_changes_nothing(
                m,
                abi,
                args,
                2,
                dest,
                m.object_op2(op, args[0], args[1]),
            );
        },
        PosixSymbol::CondTimedwait => {
            lemma_shim_status_failure_changes_nothing(
                m,
                abi,
                args,
                3,
                dest,
                m.pthread_cond_timedwait(args[0], args[1], args[2]),
            );
        },
        PosixSymbol::Create => {
            lemma_shim_failure_changes_nothing(
                m,
                abi,
                args,
                4,
                dest,
                m.pthread_create(args[0], args[1], args[2], args[3]),
                (m, Ok(0)),
            );
        },
        PosixSymbol::SchedYield => {
            lemma_shim_failure_changes_nothing(m, abi, args, 0, dest, m.sched_yield(), (m, Ok(0)));
        },
        PosixSymbol::Isatty => {
            lemma_shim_failure_changes_nothing(
                m,
                abi,
                args,
                1,
                dest,
                m.isatty(args[0]),
                (m, Ok(0)),
            );
        },
        PosixSymbol::Atfork => {
            lemma_shim_failure_changes_nothing(
                m,
                abi,
                args,
                3,
                dest,
                m.pthread_atfork(args),
                (m, Ok(0)),
            );
        },
        PosixSymbol::GetGuardSize => {
            lemma_shim_failure_changes_nothing(
                m,
                abi,
                args,
                2,
                dest,
                m.pthread_attr_getguardsize(args[1]),
                (m, Ok(0)),
            );
        },
        _ => {},
    }
}

/// Whatever a call of a POSIX function comes to, a failure leaves the
/// machine as it was.
pub proof fn lemma_posix_failure_changes_nothing(
    m: MachineView,
    name: Seq<char>,
    abi: Abi,
    args: Seq<OpTy>,
    dest: PlaceTy,
)
    ensures
        m.emulate_posix(name, abi, args, dest).1 is Err ==> m.emulate_posix(name, abi, args, dest).0
            == m,
{
    match posix_symbol(name) {
        Some(symbol) => {
            lemma_posix_symbol_failure_changes_nothing(m, symbol, abi, args, dest);
        },
        None => {},
    }
}

} // verus!
