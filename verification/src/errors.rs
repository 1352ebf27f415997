//! The ways in which emulating a guest operation can fail.

use vstd::prelude::*;

verus! {

/// A contract of the emulated platform that the guest program violated.
/// Execution of the guest cannot continue after any of these.
#[derive(Clone, Copy, PartialEq, Eq, Debug, Structural)]
pub enum UbKind {
    /// A function was called through an ABI other than the one it is declared with.
    AbiMismatch,
    /// A function was called with the wrong number of arguments.
    WrongArgumentCount { got: u64, expected: u64 },
    /// A scalar of one width was used where another width is required.
    ScalarSizeMismatch { found: u8, required: u8 },
    /// A place of one width was used for a value of another width.
    PlaceSizeMismatch { place: u64, value: u8 },
    /// An argument that must be a raw pointer has another type.
    NotARawPointer,
    /// An uninitialized value was read.
    UninitializedRead,
    /// A frame that does not allow unwinding was asked to unwind.
    UnwindNotAllowed,
    /// A null pointer was dereferenced.
    NullDereference,
    /// A value that is not a function pointer was called.
    InvalidFunctionPointer,
    /// `posix_memalign` was asked for an alignment that is not a power of two.
    AlignmentNotPowerOfTwo { align: u64 },
    /// `posix_memalign` was asked for an alignment below the size of a pointer.
    AlignmentTooSmall { align: u64 },
    /// Memory was released that is not a live allocation of the given kind.
    InvalidFree,
    /// A lock, wait or signal operation named an address that holds no
    /// synchronization object.
    UninitializedSyncObject,
    /// A mutex was unlocked by a thread that does not own it.
    MutexNotOwner,
    /// A read-write lock was unlocked by a thread that holds it neither as
    /// reader nor as writer.
    RwLockNotHeld,
    /// A mutex was destroyed while locked.
    DestroyLockedMutex,
    /// A read-write lock was destroyed while held.
    DestroyLockedRwLock,
    /// A condition variable was destroyed while threads wait on it.
    DestroyAwaitedCondvar,
    /// A thread waited on a condition variable with a mutex it does not own.
    CondWaitMutexNotOwned,
    /// A thread-local storage key was used that does not exist.
    TlsKeyMissing { key: u64 },
    /// A thread identifier names no thread.
    InvalidThreadId,
    /// A thread was joined that is detached or already joined.
    JoinNotJoinable,
    /// A thread tried to join itself.
    JoinSelf,
    /// A thread was detached that is detached or already joined.
    DetachNotJoinable,
}

/// A feature of the platform that this runtime does not emulate. The guest
/// did nothing wrong, but execution cannot continue.
#[derive(Clone, Copy, PartialEq, Eq, Debug, Structural)]
pub enum UnsupportedKind {
    /// `sysconf` was queried for a name that has no emulated answer.
    SysconfName { name: i32 },
    /// `BCryptGenRandom` was called without the system-preferred-RNG flag.
    BcryptFlags,
    /// `BCryptGenRandom` was called with a non-null algorithm handle.
    BcryptAlgorithm,
    /// The key does not fit into the guest's key type.
    TlsKeySpaceExhausted,
    /// A thread waited on a condition variable with a mutex it holds more than once.
    CondWaitRecursiveMutex,
    /// Threads cannot be created on Windows targets.
    WindowsCreateThread,
    /// The guest address space is exhausted.
    OutOfAddressSpace,
    /// No more threads can be created.
    TooManyThreads,
    /// A lock is held as often as can be counted.
    TooManyRecursions,
    /// A foreign function was called that no catalogue holds.
    ForeignFunction,
}

/// A reason for which the machine as a whole stops.
#[derive(Clone, Copy, PartialEq, Eq, Debug, Structural)]
pub enum TerminationInfo {
    /// No thread can make progress.
    Deadlock,
}

/// Why an emulated operation did not complete.
#[derive(Clone, Copy, PartialEq, Eq, Debug, Structural)]
pub enum InterpError {
    UndefinedBehavior(UbKind),
    Unsupported(UnsupportedKind),
    MachineStop(TerminationInfo),
}

pub type InterpResult<T> = Result<T, InterpError>;

impl InterpError {
    /// Whether the error is a violation committed by the guest program.
    pub fn is_undefined_behavior(&self) -> (r: bool)
        ensures
            r == (*self is UndefinedBehavior),
    {
        match self {
            InterpError::UndefinedBehavior(_) => true,
            _ => false,
        }
    }

    /// Whether the error reports a feature that is not emulated.
    pub fn is_unsupported(&self) -> (r: bool)
        ensures
            r == (*self is Unsupported),
    {
        match self {
            InterpError::Unsupported(_) => true,
            _ => false,
        }
    }
}

} // verus!
