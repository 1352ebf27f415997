//! What the catalogues of foreign functions have in common: the results of
//! an emulation, the constants of the C library, and the steps with which an
//! emulated function returns its result to the guest.

use vstd::prelude::*;
use vstd::string::*;
use crate::errors::{InterpError, InterpResult, UbKind, UnsupportedKind};
use crate::eval_context::{Allocation, MachineView, MemoryKind, MiriEvalContext, TargetOs};
use crate::shims::panic::EvalContextExt;
use crate::shims::windows::foreign_items::windows_symbol;
use crate::thread::{BasicBlock, FrameLoc, FrameView, StackPopUnwind, ThreadView};
use crate::helpers::{check_shim, spec_check_shim};
use crate::scalar::{fits, fits_in, i32_bits, is_scalar_size, OpTy, PlaceTy, Scalar};
use crate::sync::mutex::LockOutcome;
use crate::thread::Abi;

verus! {

/// A foreign function that this runtime does not carry out itself, because
/// it acts on the host: the environment, files, time, randomness. The call
/// has passed the checks on its ABI and its arguments; whoever embeds the
/// runtime performs it and writes its result to the call's destination.
#[derive(Clone, Copy, PartialEq, Eq, Debug, Structural)]
pub enum HostCall {
    Getenv,
    Unsetenv,
    Setenv,
    Getcwd,
    Chdir,
    Open,
    Fcntl,
    Read { fd: i32, buf: u64, count: u64 },
    Write { fd: i32, buf: u64, count: u64 },
    Unlink,
    Symlink,
    Rename,
    Mkdir,
    Rmdir,
    Closedir,
    Lseek64,
    Fsync,
    Fdatasync,
    Readlink,
    Nanosleep,
    StrerrorR { errnum: Scalar, buf: u64, buflen: u64 },
    GetEnvironmentVariableW,
    SetEnvironmentVariableW,
    GetEnvironmentStringsW,
    FreeEnvironmentStringsW,
    GetCurrentDirectoryW,
    SetCurrentDirectoryW,
    GetSystemTimeAsFileTime,
    QueryPerformanceCounter,
    QueryPerformanceFrequency,
    /// Fill `len` bytes at `ptr` with random data; the call then returns `status`.
    GenRandom { ptr: u64, len: u64, status: Scalar },
}

/// What the emulation of a foreign function came to.
#[derive(Clone, Copy, PartialEq, Eq, Debug, Structural)]
pub enum EmulateByNameResult {
    /// The function was emulated; the caller has to jump to the return block.
    NeedsJumping,
    /// The function was emulated and control has been passed on already.
    AlreadyJumped,
    /// The caller is blocked at the call: nothing was stored for it, it
    /// stays at the call, and makes the call again when it runs.
    Blocked,
    /// The call is in order, and the host has to perform it.
    Host(HostCall),
    /// The catalogue does not hold the function.
    NotSupported,
}

/// A constant of the target's C library.
#[derive(Clone, Copy, PartialEq, Eq, Debug, Structural)]
pub enum LibcConst {
    Eperm,
    Eagain,
    Ebusy,
    Einval,
    Enotty,
    Erange,
    Edeadlk,
    Etimedout,
    PthreadMutexNormal,
    PthreadMutexRecursive,
    PthreadMutexErrorcheck,
    ScPagesize,
    ScNprocessorsConf,
    ScNprocessorsOnln,
}

/// The value of a constant of the C library on the target. Targets other
/// than macOS have the values of Linux.
pub open spec fn libc_i32(os: TargetOs, c: LibcConst) -> i32 {
    if os == TargetOs::MacOs {
        match c {
            LibcConst::Eperm => 1,
            LibcConst::Eagain => 35,
            LibcConst::Ebusy => 16,
            LibcConst::Einval => 22,
            LibcConst::Enotty => 25,
            LibcConst::Erange => 34,
            LibcConst::Edeadlk => 11,
            LibcConst::Etimedout => 60,
            LibcConst::PthreadMutexNormal => 0,
            LibcConst::PthreadMutexErrorcheck => 1,
            LibcConst::PthreadMutexRecursive => 2,
            LibcConst::ScPagesize => 29,
            LibcConst::ScNprocessorsConf => 57,
            LibcConst::ScNprocessorsOnln => 58,
        }
    } else {
        match c {
            LibcConst::Eperm => 1,
            LibcConst::Eagain => 11,
            LibcConst::Ebusy => 16,
            LibcConst::Einval => 22,
            LibcConst::Enotty => 25,
            LibcConst::Erange => 34,
            LibcConst::Edeadlk => 35,
            LibcConst::Etimedout => 110,
            LibcConst::PthreadMutexNormal => 0,
            LibcConst::PthreadMutexRecursive => 1,
            LibcConst::PthreadMutexErrorcheck => 2,
            LibcConst::ScPagesize => 30,
            LibcConst::ScNprocessorsConf => 83,
            LibcConst::ScNprocessorsOnln => 84,
        }
    }
}

/// The value of a constant of the C library on the target.
pub fn eval_libc_i32(os: TargetOs, c: LibcConst) -> (r: i32)
    ensures
        r == libc_i32(os, c),
        r >= 0,
{
    if os == TargetOs::MacOs {
        match c {
            LibcConst::Eperm => 1,
            LibcConst::Eagain => 35,
            LibcConst::Ebusy => 16,
            LibcConst::Einval => 22,
            LibcConst::Enotty => 25,
            LibcConst::Erange => 34,
            LibcConst::Edeadlk => 11,
            LibcConst::Etimedout => 60,
            LibcConst::PthreadMutexNormal => 0,
            LibcConst::PthreadMutexErrorcheck => 1,
            LibcConst::PthreadMutexRecursive => 2,
            LibcConst::ScPagesize => 29,
            LibcConst::ScNprocessorsConf => 57,
            LibcConst::ScNprocessorsOnln => 58,
        }
    } else {
        match c {
            LibcConst::Eperm => 1,
            LibcConst::Eagain => 11,
            LibcConst::Ebusy => 16,
            LibcConst::Einval => 22,
            LibcConst::Enotty => 25,
            LibcConst::Erange => 34,
            LibcConst::Edeadlk => 35,
            LibcConst::Etimedout => 110,
            LibcConst::PthreadMutexNormal => 0,
            LibcConst::PthreadMutexRecursive => 1,
            LibcConst::PthreadMutexErrorcheck => 2,
            LibcConst::ScPagesize => 30,
            LibcConst::ScNprocessorsConf => 83,
            LibcConst::ScNprocessorsOnln => 84,
        }
    }
}

/// What a call that can block its caller came to.
#[derive(Clone, Copy, PartialEq, Eq, Debug, Structural)]
pub enum CallStatus {
    /// The call is over and returns the given status to the guest.
    Returns(i32),
    /// The caller is blocked at the call, which has no status yet.
    Blocks,
}

/// The status that a call which tried to acquire a lock returns to the
/// guest when it is over: 0 when the caller got the lock, and an error
/// number otherwise. A call that blocks is not over; it counts as 0 here.
pub open spec fn lock_status(os: TargetOs, out: LockOutcome) -> i32 {
    match out {
        LockOutcome::Acquired => 0,
        LockOutcome::Blocked => 0,
        LockOutcome::Busy => libc_i32(os, LibcConst::Ebusy),
        LockOutcome::AlreadyLockedByCaller => libc_i32(os, LibcConst::Edeadlk),
        LockOutcome::TooManyRecursions => libc_i32(os, LibcConst::Eagain),
    }
}

/// The status that a call which tried to acquire a lock returns to the guest.
pub fn lock_status_of(os: TargetOs, out: LockOutcome) -> (r: i32)
    ensures
        r == lock_status(os, out),
{
    match out {
        LockOutcome::Acquired => 0,
        LockOutcome::Blocked => 0,
        LockOutcome::Busy => eval_libc_i32(os, LibcConst::Ebusy),
        LockOutcome::AlreadyLockedByCaller => eval_libc_i32(os, LibcConst::Edeadlk),
        LockOutcome::TooManyRecursions => eval_libc_i32(os, LibcConst::Eagain),
    }
}

/// What a call that asked for a lock, ready to block, came to: it blocks
/// where the lock says so, and returns its status otherwise.
pub open spec fn lock_call_status(os: TargetOs, out: LockOutcome) -> CallStatus {
    if out == LockOutcome::Blocked {
        CallStatus::Blocks
    } else {
        CallStatus::Returns(lock_status(os, out))
    }
}

/// What a call that asked for a lock, ready to block, came to.
pub fn lock_call_status_of(os: TargetOs, out: LockOutcome) -> (r: CallStatus)
    ensures
        r == lock_call_status(os, out),
{
    if out == LockOutcome::Blocked {
        CallStatus::Blocks
    } else {
        CallStatus::Returns(lock_status_of(os, out))
    }
}

/// A call that is over with the status of `r`.
pub open spec fn returned(r: (MachineView, InterpResult<i32>)) -> (
    MachineView,
    InterpResult<CallStatus>,
) {
    match r {
        (m, Ok(status)) => (m, Ok(CallStatus::Returns(status))),
        (m, Err(e)) => (m, Err(e)),
    }
}

/// Whether a value of `size` bytes can be stored at `dest`: the place must
/// not be null and must be `size` bytes wide.
pub open spec fn check_dest(dest: PlaceTy, size: u8) -> InterpResult<()> {
    if dest.addr == 0 {
        Err(InterpError::UndefinedBehavior(UbKind::NullDereference))
    } else if dest.layout.size != size {
        Err(
            InterpError::UndefinedBehavior(
                UbKind::PlaceSizeMismatch { place: dest.layout.size, value: size },
            ),
        )
    } else {
        Ok(())
    }
}

/// Checks that a value of `size` bytes can be stored at `dest`.
pub fn check_dest_size(dest: &PlaceTy, size: u8) -> (r: InterpResult<()>)
    ensures
        r == check_dest(*dest, size),
{
    if dest.addr == 0 {
        Err(InterpError::UndefinedBehavior(UbKind::NullDereference))
    } else if dest.layout.size != size as u64 {
        Err(
            InterpError::UndefinedBehavior(
                UbKind::PlaceSizeMismatch { place: dest.layout.size, value: size },
            ),
        )
    } else {
        Ok(())
    }
}

/// Whether the unsigned integer `v` can be stored at `dest`: the place must
/// not be null, must have the width of a scalar, and must be wide enough.
pub open spec fn check_dest_uint(dest: PlaceTy, v: u64) -> InterpResult<()> {
    if dest.addr == 0 {
        Err(InterpError::UndefinedBehavior(UbKind::NullDereference))
    } else if !(dest.layout.size == 1 || dest.layout.size == 2 || dest.layout.size == 4
        || dest.layout.size == 8) || !fits(v, dest.layout.size as u8) {
        Err(
            InterpError::UndefinedBehavior(
                UbKind::PlaceSizeMismatch { place: dest.layout.size, value: 8 },
            ),
        )
    } else {
        Ok(())
    }
}

/// Checks that the unsigned integer `v` can be stored at `dest`.
pub fn check_dest_fits(dest: &PlaceTy, v: u64) -> (r: InterpResult<()>)
    ensures
        r == check_dest_uint(*dest, v),
{
    if dest.addr == 0 {
        Err(InterpError::UndefinedBehavior(UbKind::NullDereference))
    } else if !is_scalar_size(dest.layout.size) || !fits_in(v, dest.layout.size as u8) {
        Err(
            InterpError::UndefinedBehavior(
                UbKind::PlaceSizeMismatch { place: dest.layout.size, value: 8 },
            ),
        )
    } else {
        Ok(())
    }
}

impl MachineView {
    /// The machine with `value` stored at `dest`, whatever was there.
    pub open spec fn store(self, value: Scalar, dest: PlaceTy) -> MachineView {
        MachineView { memory: self.memory.insert(dest.addr, value), ..self }
    }

    /// An emulated function that returns a 32-bit status. The call must
    /// use the ABI `exp_abi` and pass `n` arguments, and the destination must
    /// take a 32-bit value. `op` is what the function itself comes to: the
    /// machine after it and its status. Only when all of this succeeds does
    /// anything change: the machine is as the function left it, with the
    /// status at the destination.
    pub open spec fn shim_i32(
        self,
        abi: Abi,
        exp_abi: Abi,
        args: Seq<OpTy>,
        n: nat,
        dest: PlaceTy,
        op: (MachineView, InterpResult<i32>),
    ) -> (MachineView, InterpResult<EmulateByNameResult>) {
        match spec_check_shim(abi, exp_abi, args, n) {
            Err(e) => (self, Err(e)),
            Ok(()) => match check_dest(dest, 4) {
                Err(e) => (self, Err(e)),
                Ok(()) => match op {
                    (_, Err(e)) => (self, Err(e)),
                    (m, Ok(status)) => (
                        m.store(Scalar { data: i32_bits(status), size: 4 }, dest),
                        Ok(EmulateByNameResult::NeedsJumping),
                    ),
                },
            },
        }
    }

    /// An emulated function that returns a 32-bit status and can block
    /// its caller: as `shim_i32`, but where the function blocks the caller
    /// nothing is stored at the destination, and the caller stays at the
    /// call.
    pub open spec fn shim_status(
        self,
        abi: Abi,
        exp_abi: Abi,
        args: Seq<OpTy>,
        n: nat,
        dest: PlaceTy,
        op: (MachineView, InterpResult<CallStatus>),
    ) -> (MachineView, InterpResult<EmulateByNameResult>) {
        match spec_check_shim(abi, exp_abi, args, n) {
            Err(e) => (self, Err(e)),
            Ok(()) => match check_dest(dest, 4) {
                Err(e) => (self, Err(e)),
                Ok(()) => match op {
                    (_, Err(e)) => (self, Err(e)),
                    (m, Ok(CallStatus::Blocks)) => (m, Ok(EmulateByNameResult::Blocked)),
                    (m, Ok(CallStatus::Returns(status))) => (
                        m.store(Scalar { data: i32_bits(status), size: 4 }, dest),
                        Ok(EmulateByNameResult::NeedsJumping),
                    ),
                },
            },
        }
    }

    /// An emulated function that the host has to perform: the call must use
    /// the ABI `exp_abi` and pass `n` arguments. Nothing changes.
    pub open spec fn shim_host(
        self,
        abi: Abi,
        exp_abi: Abi,
        args: Seq<OpTy>,
        n: nat,
        call: HostCall,
    ) -> (MachineView, InterpResult<EmulateByNameResult>) {
        match spec_check_shim(abi, exp_abi, args, n) {
            Err(e) => (self, Err(e)),
            Ok(()) => (self, Ok(EmulateByNameResult::Host(call))),
        }
    }
}

impl MiriEvalContext {
    /// Stores `value` at `dest`, which is known to take it.
    pub fn store(&mut self, value: Scalar, dest: &PlaceTy)
        ensures
            final(self)@ == old(self)@.store(value, *dest),
            old(self)@.wf() ==> final(self)@.wf(),
    {
        self.memory.insert(dest.addr, value);
    }

    /// Returns the 32-bit status of an emulated function to the guest.
    pub fn return_i32(&mut self, status: i32, dest: &PlaceTy) -> (r: InterpResult<
        EmulateByNameResult,
    >)
        ensures
            final(self)@ == old(self)@.store(Scalar { data: i32_bits(status), size: 4 }, *dest),
            r == Ok::<EmulateByNameResult, InterpError>(EmulateByNameResult::NeedsJumping),
            old(self)@.wf() ==> final(self)@.wf(),
    {
        self.store(Scalar::from_i32(status), dest);
        Ok(EmulateByNameResult::NeedsJumping)
    }
}

impl MiriEvalContext {
    /// Ends an emulated function that can block its caller: returns its
    /// status to the guest, or leaves the caller at the call.
    pub fn return_status(&mut self, status: CallStatus, dest: &PlaceTy) -> (r: InterpResult<
        EmulateByNameResult,
    >)
        ensures
            final(self)@ == match status {
                CallStatus::Blocks => old(self)@,
                CallStatus::Returns(s) => old(self)@.store(
                    Scalar { data: i32_bits(s), size: 4 },
                    *dest,
                ),
            },
            r == Ok::<EmulateByNameResult, InterpError>(
                match status {
                    CallStatus::Blocks => EmulateByNameResult::Blocked,
                    CallStatus::Returns(_) => EmulateByNameResult::NeedsJumping,
                },
            ),
            old(self)@.wf() ==> final(self)@.wf(),
    {
        match status {
            CallStatus::Blocks => Ok(EmulateByNameResult::Blocked),
            CallStatus::Returns(s) => self.return_i32(s, dest),
        }
    }
}

/// Checks the call of an emulated function that the host has to perform.
pub fn host_shim(abi: Abi, exp_abi: Abi, args: &[OpTy], n: usize, call: HostCall) -> (r:
    InterpResult<EmulateByNameResult>)
    ensures
        r == match spec_check_shim(abi, exp_abi, args@, n as nat) {
            Err(e) => Err(e),
            Ok(()) => Ok(EmulateByNameResult::Host(call)),
        },
{
    check_shim(abi, exp_abi, args, n)?;
    Ok(EmulateByNameResult::Host(call))
}

/// The alignment of every allocation from a heap.
pub const HEAP_ALIGN: u64 = 16;

impl MachineView {
    /// Sets `size` bytes aside from the heap of the given kind and yields
    /// their address; for no bytes, null. With `zero_init` the allocation is
    /// recorded as filled with zeros.
    pub open spec fn malloc(self, size: u64, zero_init: bool, kind: MemoryKind) -> (
        MachineView,
        InterpResult<u64>,
    ) {
        if size == 0 {
            (self, Ok(0))
        } else {
            match self.allocate(size, HEAP_ALIGN, kind) {
                (_, Err(e)) => (self, Err(e)),
                (m, Ok(ptr)) => (
                    MachineView {
                        allocations: m.allocations.insert(
                            ptr,
                            Allocation { size, kind, zeroed: zero_init },
                        ),
                        ..m
                    },
                    Ok(ptr),
                ),
            }
        }
    }

    /// Gives the allocation at `ptr` back to the heap of the given kind;
    /// nothing happens for null.
    pub open spec fn free(self, ptr: u64, kind: MemoryKind) -> (MachineView, InterpResult<()>) {
        if ptr == 0 {
            (self, Ok(()))
        } else {
            self.deallocate(ptr, kind)
        }
    }

    /// Replaces the allocation at `old_ptr` by one of `new_size` bytes and
    /// yields its address. Null for `old_ptr` makes this an allocation, and
    /// no bytes make it a release, which yields null.
    pub open spec fn realloc(self, old_ptr: u64, new_size: u64, kind: MemoryKind) -> (
        MachineView,
        InterpResult<u64>,
    ) {
        if old_ptr == 0 {
            self.malloc(new_size, false, kind)
        } else if new_size == 0 {
            match self.deallocate(old_ptr, kind) {
                (m, Ok(())) => (m, Ok(0)),
                (_, Err(e)) => (self, Err(e)),
            }
        } else {
            match self.deallocate(old_ptr, kind) {
                (_, Err(e)) => (self, Err(e)),
                (released, Ok(())) => match released.allocate(new_size, HEAP_ALIGN, kind) {
                    (_, Err(e)) => (self, Err(e)),
                    (m, Ok(ptr)) => (m, Ok(ptr)),
                },
            }
        }
    }

    /// A foreign function that is not supported: the guest panics with a
    /// message if the machine is set up so, and otherwise the interpretation
    /// fails with `kind`.
    pub open spec fn handle_unsupported(self, msg: Seq<char>, kind: UnsupportedKind) -> (
        MachineView,
        InterpResult<()>,
    ) {
        if self.panic_on_unsupported {
            self.start_panic(msg, StackPopUnwind::Skip)
        } else {
            (self, Err(InterpError::Unsupported(kind)))
        }
    }
}

impl MiriEvalContext {
    /// Allocates `size` bytes from the heap of the given kind.
    pub fn malloc(&mut self, size: u64, zero_init: bool, kind: MemoryKind) -> (r: InterpResult<u64>)
        ensures
            (final(self)@, r) == old(self)@.malloc(size, zero_init, kind),
            old(self)@.wf() ==> final(self)@.wf(),
    {
        if size == 0 {
            Ok(0)
        } else {
            let ptr: u64 = self.allocate(size, HEAP_ALIGN, kind)?;
            self.allocations.insert(ptr, Allocation { size, kind, zeroed: zero_init });
            Ok(ptr)
        }
    }

    /// Releases the allocation at `ptr`; nothing happens for null.
    pub fn free(&mut self, ptr: u64, kind: MemoryKind) -> (r: InterpResult<()>)
        ensures
            (final(self)@, r) == old(self)@.free(ptr, kind),
            old(self)@.wf() ==> final(self)@.wf(),
    {
        if ptr == 0 {
            Ok(())
        } else {
            self.deallocate(ptr, kind)
        }
    }

    /// Replaces the allocation at `old_ptr` by one of `new_size` bytes.
    pub fn realloc(&mut self, old_ptr: u64, new_size: u64, kind: MemoryKind) -> (r: InterpResult<
        u64,
    >)
        ensures
            (final(self)@, r) == old(self)@.realloc(old_ptr, new_size, kind),
            old(self)@.wf() ==> final(self)@.wf(),
    {
        if old_ptr == 0 {
            self.malloc(new_size, false, kind)
        } else if new_size == 0 {
            self.deallocate(old_ptr, kind)?;
            Ok(0)
        } else {
            let replaced: Allocation = match self.allocations.get(&old_ptr) {
                Some(a) => *a,
                None => {
                    return Err(InterpError::UndefinedBehavior(UbKind::InvalidFree));
                },
            };
            self.deallocate(old_ptr, kind)?;
            match self.allocate(new_size, HEAP_ALIGN, kind) {
                Ok(ptr) => Ok(ptr),
                Err(e) => {
                    self.allocations.insert(old_ptr, replaced);
                    proof {
                        assert(self@.allocations =~= old(self)@.allocations);
                    }
                    Err(e)
                },
            }
        }
    }

    /// Reacts to a foreign function that is not supported.
    pub fn handle_unsupported(&mut self, msg: &str, kind: UnsupportedKind) -> (r: InterpResult<()>)
        requires
            old(self)@.wf(),
        ensures
            (final(self)@, r) == old(self)@.handle_unsupported(msg@, kind),
            final(self)@.wf(),
    {
        if self.panic_on_unsupported {
            self.start_panic(msg, StackPopUnwind::Skip)
        } else {
            Err(InterpError::Unsupported(kind))
        }
    }
}

impl MachineView {
    /// The function of the top frame of the active thread continues at the
    /// start of `block`.
    pub open spec fn go_to_block(self, block: BasicBlock) -> MachineView {
        let stack = self.active().stack;
        if stack.len() == 0 {
            self
        } else {
            self.with_active(
                ThreadView {
                    stack: stack.update(
                        stack.len() - 1,
                        FrameView { loc: FrameLoc::Block(block), ..stack.last() },
                    ),
                    ..self.active()
                },
            )
        }
    }

    /// What the catalogue of the target makes of a call of `name`.
    #[verifier::opaque]
    pub open spec fn emulate_by_name(
        self,
        name: Seq<char>,
        abi: Abi,
        args: Seq<OpTy>,
        dest: PlaceTy,
    ) -> (MachineView, InterpResult<EmulateByNameResult>) {
        if self.target_os == TargetOs::Windows {
            self.emulate_windows(name, abi, args, dest)
        } else {
            self.emulate_posix(name, abi, args, dest)
        }
    }

    /// A call of the foreign function `name`. The catalogue of the target
    /// emulates it. After a function that was emulated in full, the caller
    /// resumes at `ret`. A caller that the function blocks stays at the
    /// call. A function that the host has to perform is handed back, and
    /// the caller does not resume yet. A function that the catalogue does
    /// not hold is not supported. On failure nothing has changed.
    pub open spec fn emulate_foreign_item(
        self,
        name: Seq<char>,
        abi: Abi,
        args: Seq<OpTy>,
        dest: PlaceTy,
        ret: BasicBlock,
    ) -> (MachineView, InterpResult<Option<HostCall>>) {
        match self.emulate_by_name(name, abi, args, dest) {
            (_, Err(e)) => (self, Err(e)),
            (m, Ok(EmulateByNameResult::NeedsJumping)) => (m.go_to_block(ret), Ok(None)),
            (m, Ok(EmulateByNameResult::AlreadyJumped)) => (m, Ok(None)),
            (m, Ok(EmulateByNameResult::Blocked)) => (m, Ok(None)),
            (m, Ok(EmulateByNameResult::Host(call))) => (m, Ok(Some(call))),
            (m, Ok(EmulateByNameResult::NotSupported)) => match m.handle_unsupported(
                "can't call foreign function: "@ + name,
                UnsupportedKind::ForeignFunction,
            ) {
                (_, Err(e)) => (self, Err(e)),
                (panicking, Ok(())) => (panicking, Ok(None)),
            },
        }
    }
}

impl MiriEvalContext {
    /// Lets the function of the top frame of the active thread continue at
    /// the start of `block`.
    pub fn go_to_block(&mut self, block: BasicBlock)
        requires
            old(self)@.wf(),
        ensures
            final(self)@ == old(self)@.go_to_block(block),
            final(self)@.wf(),
    {
        let a: usize = self.active_thread as usize;
        let n: usize = self.threads[a].stack.len();
        if n > 0 {
            self.threads[a].stack[n - 1].loc = FrameLoc::Block(block);
            proof {
                let stack = old(self)@.active().stack;
                assert(self.threads[a as int]@.stack =~= stack.update(
                    n - 1,
                    FrameView { loc: FrameLoc::Block(block), ..stack.last() },
                ));
                assert(self@.threads =~= old(self)@.go_to_block(block).threads);
            }
        }
    }

    /// Emulates a call of the foreign function `link_name` through the
    /// catalogue of the target. On failure nothing has changed.
    pub fn emulate_by_name(
        &mut self,
        link_name: &str,
        abi: Abi,
        args: &[OpTy],
        dest: &PlaceTy,
        ret: BasicBlock,
    ) -> (r: InterpResult<EmulateByNameResult>)
        requires
            old(self)@.wf(),
            old(self)@.target_os == TargetOs::Windows ==> old(self)@.ready_for(
                windows_symbol(link_name@),
            ),
        ensures
            (final(self)@, r) == old(self)@.emulate_by_name(link_name@, abi, args@, *dest),
            r is Err ==> final(self)@ == old(self)@,
            final(self)@.wf(),
    {
        proof {
            reveal(MachineView::emulate_by_name);
            crate::shims::posix::foreign_items::lemma_posix_failure_changes_nothing(
                old(self)@,
                link_name@,
                abi,
                args@,
                *dest,
            );
            crate::shims::windows::foreign_items::lemma_windows_failure_changes_nothing(
                old(self)@,
                link_name@,
                abi,
                args@,
                *dest,
            );
        }
        if self.target_os == TargetOs::Windows {
            crate::shims::windows::foreign_items::EvalContextExt::emulate_foreign_item_by_name(
                self,
                link_name,
                abi,
                args,
                dest,
                ret,
            )
        } else {
            crate::shims::posix::foreign_items::EvalContextExt::emulate_foreign_item_by_name(
                self,
                link_name,
                abi,
                args,
                dest,
                ret,
            )
        }
    }

    /// Emulates a call of the foreign function `link_name` with the
    /// arguments `args`, made through the ABI `abi`, whose result goes to
    /// `dest` and whose caller resumes at `ret`. The catalogue of the target
    /// is the one to emulate the function. Where the function was emulated in
    /// full, the caller is set to resume at `ret` and the result is `None`.
    /// Where the function blocks the caller, the caller stays at the call,
    /// to make it again when it runs, and the result is `None` too.
    /// Where the host has to perform the function, the result names what it
    /// has to do; the caller is to resume at `ret` once the host has done it.
    pub fn emulate_foreign_item(
        &mut self,
        link_name: &str,
        abi: Abi,
        args: &[OpTy],
        dest: &PlaceTy,
        ret: BasicBlock,
    ) -> (r: InterpResult<Option<HostCall>>)
        requires
            old(self)@.wf(),
            old(self)@.target_os == TargetOs::Windows ==> old(self)@.ready_for(
                windows_symbol(link_name@),
            ),
        ensures
            (final(self)@, r) == old(self)@.emulate_foreign_item(link_name@, abi, args@, *dest, ret),
            final(self)@.wf(),
    {
        match self.emulate_by_name(link_name, abi, args, dest, ret)? {
            EmulateByNameResult::NeedsJumping => {
                self.go_to_block(ret);
                Ok(None)
            },
            EmulateByNameResult::AlreadyJumped => Ok(None),
            EmulateByNameResult::Blocked => Ok(None),
            EmulateByNameResult::Host(call) => Ok(Some(call)),
            EmulateByNameResult::NotSupported => {
                let mut msg: String = "can't call foreign function: ".to_owned();
                msg.append(link_name);
                let handled = self.handle_unsupported(
                    msg.as_str(),
                    UnsupportedKind::ForeignFunction,
                );
                proof {
                    lemma_not_supported_changes_nothing(old(self)@, link_name@, abi, args@, *dest);
                }
                handled?;
                Ok(None)
            },
        }
    }
}

/// A call of a function that the catalogue does not support changes nothing.
pub proof fn lemma_not_supported_changes_nothing(
    m: MachineView,
    name: Seq<char>,
    abi: Abi,
    args: Seq<OpTy>,
    dest: PlaceTy,
)
    ensures
        m.emulate_by_name(name, abi, args, dest).1 == Ok::<EmulateByNameResult, InterpError>(
            EmulateByNameResult::NotSupported,
        ) ==> m.emulate_by_name(name, abi, args, dest).0 == m,
{
    reveal(MachineView::emulate_by_name);
    match crate::shims::posix::foreign_items::posix_symbol(name) {
        Some(symbol) => {
            lemma_posix_not_supported(m, symbol, abi, args, dest);
        },
        None => {},
    }
    match windows_symbol(name) {
        Some(symbol) => {
            lemma_windows_not_supported(m, symbol, abi, args, dest);
        },
        None => {},
    }
}

/// A function of the POSIX catalogue that is not supported for the caller
/// changes nothing.
pub proof fn lemma_posix_not_supported(
    m: MachineView,
    symbol: crate::shims::posix::foreign_items::PosixSymbol,
    abi: Abi,
    args: Seq<OpTy>,
    dest: PlaceTy,
)
    ensures
        m.emulate_posix_symbol(symbol, abi, args, dest).1 == Ok::<
            EmulateByNameResult,
            InterpError,
        >(EmulateByNameResult::NotSupported) ==> m.emulate_posix_symbol(symbol, abi, args, dest).0
            == m,
{
}

/// A function of the Windows catalogue that is not supported for the caller
/// changes nothing.
pub proof fn lemma_windows_not_supported(
    m: MachineView,
    symbol: crate::shims::windows::foreign_items::WindowsSymbol,
    abi: Abi,
    args: Seq<OpTy>,
    dest: PlaceTy,
)
    ensures
        m.emulate_windows_symbol(symbol, abi, args, dest).1 == Ok::<
            EmulateByNameResult,
            InterpError,
        >(EmulateByNameResult::NotSupported) ==> m.emulate_windows_symbol(
            symbol,
            abi,
            args,
            dest,
        ).0 == m,
{
}

} // verus!
