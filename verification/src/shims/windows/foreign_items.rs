//! The catalogue of Windows functions: which function a name stands for,
//! and what a call of it does.

use vstd::prelude::*;
use crate::errors::{InterpError, InterpResult, UbKind, UnsupportedKind};
use crate::eval_context::{FnVal, MachineView, MemoryKind, MiriEvalContext, NUM_CPUS};
use crate::helpers::{check_shim, spec_check_shim, str_equal};
use crate::scalar::{i64_bits, is_scalar_size, OpTy, PlaceTy, Scalar, POINTER_SIZE};
use crate::shims::dlsym::Dlsym;
use crate::shims::foreign_items::{check_dest, check_dest_size, EmulateByNameResult, HostCall};
use crate::shims::tls::{lemma_create_key_fresh, lemma_tls_wf_preserved, TlsKey};
use crate::thread::{Abi, BasicBlock};

verus! {

/// A function on a slim reader/writer lock that returns nothing.
#[derive(Clone, Copy, PartialEq, Eq, Debug, Structural)]
pub enum SrwOp {
    AcquireExclusive,
    ReleaseExclusive,
    AcquireShared,
    ReleaseShared,
}

/// What a name of the catalogue stands for.
#[derive(Clone, Copy, PartialEq, Eq, Debug, Structural)]
pub enum WindowsSymbol {
    /// A function of `arity` arguments that the host performs.
    Plain { call: HostCall, arity: usize },
    HeapAlloc,
    HeapFree,
    HeapReAlloc,
    SetLastError,
    GetLastError,
    GetSystemInfo,
    TlsAlloc,
    TlsGetValue,
    TlsSetValue,
    GetCommandLineW,
    Srw(SrwOp),
    /// `TryAcquireSRWLockExclusive` or `TryAcquireSRWLockShared`.
    TrySrw { exclusive: bool },
    GetProcAddress,
    SystemFunction036,
    BCryptGenRandom,
    /// A query on a console, which always fails.
    ConsoleQuery,
    SwitchToThread,
    GetStdHandle,
    CreateThread,
    /// A function of `arity` arguments that returns a pointer-sized 1, for
    /// callers in the standard library only.
    StdOne { arity: usize },
    /// For callers in the standard library only.
    SetConsoleTextAttribute,
    /// For callers in the standard library only.
    SetThreadStackGuarantee,
    /// A function on a critical section that returns nothing, for callers in
    /// the standard library only.
    CriticalSection,
    /// For callers in the standard library only.
    TryEnterCriticalSection,
}

/// The function that `name` stands for in the catalogue, if it is there.
pub open spec fn windows_symbol(name: Seq<char>) -> Option<WindowsSymbol> {
    if name == "GetEnvironmentVariableW"@ {
        Some(WindowsSymbol::Plain { call: HostCall::GetEnvironmentVariableW, arity: 3 })
    } else if name == "SetEnvironmentVariableW"@ {
        Some(WindowsSymbol::Plain { call: HostCall::SetEnvironmentVariableW, arity: 2 })
    } else if name == "GetEnvironmentStringsW"@ {
        Some(WindowsSymbol::Plain { call: HostCall::GetEnvironmentStringsW, arity: 0 })
    } else if name == "FreeEnvironmentStringsW"@ {
        Some(WindowsSymbol::Plain { call: HostCall::FreeEnvironmentStringsW, arity: 1 })
    } else if name == "GetCurrentDirectoryW"@ {
        Some(WindowsSymbol::Plain { call: HostCall::GetCurrentDirectoryW, arity: 2 })
    } else if name == "SetCurrentDirectoryW"@ {
        Some(WindowsSymbol::Plain { call: HostCall::SetCurrentDirectoryW, arity: 1 })
    } else if name == "HeapAlloc"@ {
        Some(WindowsSymbol::HeapAlloc)
    } else if name == "HeapFree"@ {
        Some(WindowsSymbol::HeapFree)
    } else if name == "HeapReAlloc"@ {
        Some(WindowsSymbol::HeapReAlloc)
    } else if name == "SetLastError"@ {
        Some(WindowsSymbol::SetLastError)
    } else if name == "GetLastError"@ {
        Some(WindowsSymbol::GetLastError)
    } else if name == "GetSystemInfo"@ {
        Some(WindowsSymbol::GetSystemInfo)
    } else if name == "TlsAlloc"@ {
        Some(WindowsSymbol::TlsAlloc)
    } else if name == "TlsGetValue"@ {
        Some(WindowsSymbol::TlsGetValue)
    } else if name == "TlsSetValue"@ {
        Some(WindowsSymbol::TlsSetValue)
    } else if name == "GetCommandLineW"@ {
        Some(WindowsSymbol::GetCommandLineW)
    } else if name == "GetSystemTimeAsFileTime"@ {
        Some(WindowsSymbol::Plain { call: HostCall::GetSystemTimeAsFileTime, arity: 1 })
    } else if name == "QueryPerformanceCounter"@ {
        Some(WindowsSymbol::Plain { call: HostCall::QueryPerformanceCounter, arity: 1 })
    } else if name == "QueryPerformanceFrequency"@ {
        Some(WindowsSymbol::Plain { call: HostCall::QueryPerformanceFrequency, arity: 1 })
    } else if name == "AcquireSRWLockExclusive"@ {
        Some(WindowsSymbol::Srw(SrwOp::AcquireExclusive))
    } else if name == "ReleaseSRWLockExclusive"@ {
        Some(WindowsSymbol::Srw(SrwOp::ReleaseExclusive))
    } else if name == "TryAcquireSRWLockExclusive"@ {
        Some(WindowsSymbol::TrySrw { exclusive: true })
    } else if name == "AcquireSRWLockShared"@ {
        Some(WindowsSymbol::Srw(SrwOp::AcquireShared))
    } else if name == "ReleaseSRWLockShared"@ {
        Some(WindowsSymbol::Srw(SrwOp::ReleaseShared))
    } else if name == "TryAcquireSRWLockShared"@ {
        Some(WindowsSymbol::TrySrw { exclusive: false })
    } else if name == "GetProcAddress"@ {
        Some(WindowsSymbol::GetProcAddress)
    } else if name == "SystemFunction036"@ {
        Some(WindowsSymbol::SystemFunction036)
    } else if name == "BCryptGenRandom"@ {
        Some(WindowsSymbol::BCryptGenRandom)
    } else if name == "GetConsoleScreenBufferInfo"@ {
        Some(WindowsSymbol::ConsoleQuery)
    } else if name == "GetConsoleMode"@ {
        Some(WindowsSymbol::ConsoleQuery)
    } else if name == "SwitchToThread"@ {
        Some(WindowsSymbol::SwitchToThread)
    } else if name == "GetStdHandle"@ {
        Some(WindowsSymbol::GetStdHandle)
    } else if name == "CreateThread"@ {
        Some(WindowsSymbol::CreateThread)
    } else if name == "GetProcessHeap"@ {
        Some(WindowsSymbol::StdOne { arity: 0 })
    } else if name == "GetModuleHandleA"@ {
        Some(WindowsSymbol::StdOne { arity: 1 })
    } else if name == "SetConsoleTextAttribute"@ {
        Some(WindowsSymbol::SetConsoleTextAttribute)
    } else if name == "AddVectoredExceptionHandler"@ {
        Some(WindowsSymbol::StdOne { arity: 2 })
    } else if name == "SetThreadStackGuarantee"@ {
        Some(WindowsSymbol::SetThreadStackGuarantee)
    } else if name == "InitializeCriticalSection"@ {
        Some(WindowsSymbol::CriticalSection)
    } else if name == "EnterCriticalSection"@ {
        Some(WindowsSymbol::CriticalSection)
    } else if name == "LeaveCriticalSection"@ {
        Some(WindowsSymbol::CriticalSection)
    } else if name == "DeleteCriticalSection"@ {
        Some(WindowsSymbol::CriticalSection)
    } else if name == "TryEnterCriticalSection"@ {
        Some(WindowsSymbol::TryEnterCriticalSection)
    } else {
        None
    }
}

/// Looks `name` up in the catalogue.
pub fn lookup_windows_symbol(name: &str) -> (r: Option<WindowsSymbol>)
    ensures
        r == windows_symbol(name@),
{
    if str_equal(name, "GetEnvironmentVariableW") {
        Some(WindowsSymbol::Plain { call: HostCall::GetEnvironmentVariableW, arity: 3 })
    } else if str_equal(name, "SetEnvironmentVariableW") {
        Some(WindowsSymbol::Plain { call: HostCall::SetEnvironmentVariableW, arity: 2 })
    } else if str_equal(name, "GetEnvironmentStringsW") {
        Some(WindowsSymbol::Plain { call: HostCall::GetEnvironmentStringsW, arity: 0 })
    } else if str_equal(name, "FreeEnvironmentStringsW") {
        Some(WindowsSymbol::Plain { call: HostCall::FreeEnvironmentStringsW, arity: 1 })
    } else if str_equal(name, "GetCurrentDirectoryW") {
        Some(WindowsSymbol::Plain { call: HostCall::GetCurrentDirectoryW, arity: 2 })
    } else if str_equal(name, "SetCurrentDirectoryW") {
        Some(WindowsSymbol::Plain { call: HostCall::SetCurrentDirectoryW, arity: 1 })
    } else if str_equal(name, "HeapAlloc") {
        Some(WindowsSymbol::HeapAlloc)
    } else if str_equal(name, "HeapFree") {
        Some(WindowsSymbol::HeapFree)
    } else if str_equal(name, "HeapReAlloc") {
        Some(WindowsSymbol::HeapReAlloc)
    } else if str_equal(name, "SetLastError") {
        Some(WindowsSymbol::SetLastError)
    } else if str_equal(name, "GetLastError") {
        Some(WindowsSymbol::GetLastError)
    } else if str_equal(name, "GetSystemInfo") {
        Some(WindowsSymbol::GetSystemInfo)
    } else if str_equal(name, "TlsAlloc") {
        Some(WindowsSymbol::TlsAlloc)
    } else if str_equal(name, "TlsGetValue") {
        Some(WindowsSymbol::TlsGetValue)
    } else if str_equal(name, "TlsSetValue") {
        Some(WindowsSymbol::TlsSetValue)
    } else if str_equal(name, "GetCommandLineW") {
        Some(WindowsSymbol::GetCommandLineW)
    } else if str_equal(name, "GetSystemTimeAsFileTime") {
        Some(WindowsSymbol::Plain { call: HostCall::GetSystemTimeAsFileTime, arity: 1 })
    } else if str_equal(name, "QueryPerformanceCounter") {
        Some(WindowsSymbol::Plain { call: HostCall::QueryPerformanceCounter, arity: 1 })
    } else if str_equal(name, "QueryPerformanceFrequency") {
        Some(WindowsSymbol::Plain { call: HostCall::QueryPerformanceFrequency, arity: 1 })
    } else if str_equal(name, "AcquireSRWLockExclusive") {
        Some(WindowsSymbol::Srw(SrwOp::AcquireExclusive))
    } else if str_equal(name, "ReleaseSRWLockExclusive") {
        Some(WindowsSymbol::Srw(SrwOp::ReleaseExclusive))
    } else if str_equal(name, "TryAcquireSRWLockExclusive") {
        Some(WindowsSymbol::TrySrw { exclusive: true })
    } else if str_equal(name, "AcquireSRWLockShared") {
        Some(WindowsSymbol::Srw(SrwOp::AcquireShared))
    } else if str_equal(name, "ReleaseSRWLockShared") {
        Some(WindowsSymbol::Srw(SrwOp::ReleaseShared))
    } else if str_equal(name, "TryAcquireSRWLockShared") {
        Some(WindowsSymbol::TrySrw { exclusive: false })
    } else if str_equal(name, "GetProcAddress") {
        Some(WindowsSymbol::GetProcAddress)
    } else if str_equal(name, "SystemFunction036") {
        Some(WindowsSymbol::SystemFunction036)
    } else if str_equal(name, "BCryptGenRandom") {
        Some(WindowsSymbol::BCryptGenRandom)
    } else if str_equal(name, "GetConsoleScreenBufferInfo") {
        Some(WindowsSymbol::ConsoleQuery)
    } else if str_equal(name, "GetConsoleMode") {
        Some(WindowsSymbol::ConsoleQuery)
    } else if str_equal(name, "SwitchToThread") {
        Some(WindowsSymbol::SwitchToThread)
    } else if str_equal(name, "GetStdHandle") {
        Some(WindowsSymbol::GetStdHandle)
    } else if str_equal(name, "CreateThread") {
        Some(WindowsSymbol::CreateThread)
    } else if str_equal(name, "GetProcessHeap") {
        Some(WindowsSymbol::StdOne { arity: 0 })
    } else if str_equal(name, "GetModuleHandleA") {
        Some(WindowsSymbol::StdOne { arity: 1 })
    } else if str_equal(name, "SetConsoleTextAttribute") {
        Some(WindowsSymbol::SetConsoleTextAttribute)
    } else if str_equal(name, "AddVectoredExceptionHandler") {
        Some(WindowsSymbol::StdOne { arity: 2 })
    } else if str_equal(name, "SetThreadStackGuarantee") {
        Some(WindowsSymbol::SetThreadStackGuarantee)
    } else if str_equal(name, "InitializeCriticalSection") {
        Some(WindowsSymbol::CriticalSection)
    } else if str_equal(name, "EnterCriticalSection") {
        Some(WindowsSymbol::CriticalSection)
    } else if str_equal(name, "LeaveCriticalSection") {
        Some(WindowsSymbol::CriticalSection)
    } else if str_equal(name, "DeleteCriticalSection") {
        Some(WindowsSymbol::CriticalSection)
    } else if str_equal(name, "TryEnterCriticalSection") {
        Some(WindowsSymbol::TryEnterCriticalSection)
    } else {
        None
    }
}

/// The flag of `HeapAlloc` that asks for memory filled with zeros.
pub const HEAP_ZERO_MEMORY: u32 = 0x0000_0008;

/// The flag of `BCryptGenRandom` that selects the system-preferred
/// generator.
pub const BCRYPT_USE_SYSTEM_PREFERRED_RNG: u32 = 2;

/// The size of the record that `GetSystemInfo` fills in.
pub const SYSTEM_INFO_SIZE: u64 = 48;

/// The offset of the number of processors in that record.
pub const SYSTEM_INFO_PROCESSORS: u64 = 32;

/// The fields of the record that `GetSystemInfo` fills in, other than the
/// number of processors: the offset and the width of each.
pub open spec fn system_info_fields() -> Seq<(u64, u8)> {
    seq![
        (0u64, 2u8),
        (2u64, 2u8),
        (4u64, 4u8),
        (8u64, 8u8),
        (16u64, 8u8),
        (24u64, 8u8),
        (36u64, 4u8),
        (40u64, 4u8),
        (44u64, 2u8),
        (46u64, 2u8),
    ]
}

/// The arguments of the heap functions: a handle to the heap and flags,
/// which are read and otherwise not looked at, except for one flag.
pub open spec fn spec_heap_flags(args: Seq<OpTy>) -> InterpResult<u32> {
    match OpTy::spec_read_machine_isize(args[0]) {
        Err(e) => Err(e),
        Ok(_) => OpTy::spec_read_u32(args[1]),
    }
}

/// The flags of a call of a heap function.
pub fn heap_flags(args: &[OpTy]) -> (r: InterpResult<u32>)
    requires
        args@.len() >= 2,
    ensures
        r == spec_heap_flags(args@),
{
    args[0].read_machine_isize()?;
    args[1].read_u32()
}

impl MachineView {
    /// The machine with zeros in the first `n` of the fields of the record
    /// at `addr` that `GetSystemInfo` fills in.
    pub open spec fn zero_fields(self, addr: u64, n: nat) -> MachineView
        decreases n,
    {
        if n == 0 {
            self
        } else {
            let (offset, size) = system_info_fields()[n - 1];
            let m = self.zero_fields(addr, (n - 1) as nat);
            MachineView {
                memory: m.memory.insert((addr + offset) as u64, Scalar { data: 0, size }),
                ..m
            }
        }
    }

    /// `GetSystemInfo(info)`: every field of the record at `info` becomes
    /// zero, but for the number of processors.
    pub open spec fn get_system_info(self, info: OpTy) -> (MachineView, InterpResult<()>) {
        match OpTy::spec_deref(info) {
            Err(e) => (self, Err(e)),
            Ok(place) => if place.layout.size != SYSTEM_INFO_SIZE {
                (
                    self,
                    Err(
                        InterpError::UndefinedBehavior(
                            UbKind::PlaceSizeMismatch { place: place.layout.size, value: 8 },
                        ),
                    ),
                )
            } else if place.addr > u64::MAX - SYSTEM_INFO_SIZE {
                (self, Err(InterpError::UndefinedBehavior(UbKind::NullDereference)))
            } else {
                let m = self.zero_fields(place.addr, system_info_fields().len());
                (
                    MachineView {
                        memory: m.memory.insert(
                            (place.addr + SYSTEM_INFO_PROCESSORS) as u64,
                            Scalar { data: NUM_CPUS, size: 4 },
                        ),
                        ..m
                    },
                    Ok(()),
                )
            },
        }
    }

    /// `HeapAlloc(heap, flags, size)`.
    pub open spec fn heap_alloc(self, args: Seq<OpTy>) -> (MachineView, InterpResult<u64>) {
        match spec_heap_flags(args) {
            Err(e) => (self, Err(e)),
            Ok(flags) => match OpTy::spec_read_pointer(args[2]) {
                Err(e) => (self, Err(e)),
                Ok(size) => self.malloc(size, flags & HEAP_ZERO_MEMORY != 0, MemoryKind::WinHeap),
            },
        }
    }

    /// `HeapFree(heap, flags, ptr)`: the status is 1.
    pub open spec fn heap_free(self, args: Seq<OpTy>) -> (MachineView, InterpResult<i32>) {
        match spec_heap_flags(args) {
            Err(e) => (self, Err(e)),
            Ok(_) => match OpTy::spec_read_pointer(args[2]) {
                Err(e) => (self, Err(e)),
                Ok(ptr) => match self.free(ptr, MemoryKind::WinHeap) {
                    (_, Err(e)) => (self, Err(e)),
                    (m, Ok(())) => (m, Ok(1)),
                },
            },
        }
    }

    /// `HeapReAlloc(heap, flags, ptr, size)`.
    pub open spec fn heap_realloc(self, args: Seq<OpTy>) -> (MachineView, InterpResult<u64>) {
        match spec_heap_flags(args) {
            Err(e) => (self, Err(e)),
            Ok(_) => match OpTy::spec_read_pointer(args[2]) {
                Err(e) => (self, Err(e)),
                Ok(ptr) => match OpTy::spec_read_pointer(args[3]) {
                    Err(e) => (self, Err(e)),
                    Ok(size) => self.realloc(ptr, size, MemoryKind::WinHeap),
                },
            },
        }
    }

    /// `TlsAlloc()`: a new key without destructor, as wide as the destination.
    pub open spec fn tls_alloc(self, dest: PlaceTy) -> (MachineView, InterpResult<()>) {
        if dest.addr == 0 {
            (self, Err(InterpError::UndefinedBehavior(UbKind::NullDereference)))
        } else if !(dest.layout.size == 1 || dest.layout.size == 2 || dest.layout.size == 4
            || dest.layout.size == 8) {
            (
                self,
                Err(
                    InterpError::UndefinedBehavior(
                        UbKind::PlaceSizeMismatch { place: dest.layout.size, value: 8 },
                    ),
                ),
            )
        } else {
            match self.tls.create_key(None, dest.layout.size) {
                (_, Err(e)) => (self, Err(e)),
                (tls, Ok(key)) => (
                    (MachineView { tls, ..self }).store(
                        Scalar { data: key, size: dest.layout.size as u8 },
                        dest,
                    ),
                    Ok(()),
                ),
            }
        }
    }

    /// `TlsGetValue(key)`: the value of the active thread under `key`.
    pub open spec fn tls_get_value(self, key: OpTy) -> InterpResult<Scalar> {
        match OpTy::spec_read_u32(key) {
            Err(e) => Err(e),
            Ok(key) => self.tls.load(key as u64, self.active_thread),
        }
    }

    /// `TlsSetValue(key, value)`: the status is 1.
    pub open spec fn tls_set_value(self, key: OpTy, value: OpTy) -> (
        MachineView,
        InterpResult<i32>,
    ) {
        match OpTy::spec_read_u32(key) {
            Err(e) => (self, Err(e)),
            Ok(key) => match OpTy::spec_read_scalar(value) {
                Err(e) => (self, Err(e)),
                Ok(value) => match self.tls.store(key as u64, self.active_thread, value) {
                    (_, Err(e)) => (self, Err(e)),
                    (tls, Ok(())) => (MachineView { tls, ..self }, Ok(1)),
                },
            },
        }
    }

    /// `GetProcAddress(module, name)`: as `dlsym`.
    pub open spec fn get_proc_address(self, module: OpTy, name: OpTy) -> (
        MachineView,
        InterpResult<u64>,
    ) {
        match OpTy::spec_read_machine_isize(module) {
            Err(e) => (self, Err(e)),
            Ok(_) => match OpTy::spec_read_pointer(name) {
                Err(e) => (self, Err(e)),
                Ok(addr) => if !self.strings.contains_key(addr) {
                    (self, Err(InterpError::UndefinedBehavior(UbKind::UninitializedRead)))
                } else {
                    match Dlsym::spec_from_str(self.strings[addr], self.target_os) {
                        None => (self, Ok(0)),
                        Some(f) => self.create_fn_alloc_ptr(FnVal::Other(f)),
                    }
                },
            },
        }
    }

    /// `SystemFunction036(ptr, len)`: the host fills the buffer with random
    /// bytes, and the call returns true.
    pub open spec fn system_function_036(args: Seq<OpTy>) -> InterpResult<HostCall> {
        match OpTy::spec_read_pointer(args[0]) {
            Err(e) => Err(e),
            Ok(ptr) => match OpTy::spec_read_u32(args[1]) {
                Err(e) => Err(e),
                Ok(len) => Ok(
                    HostCall::GenRandom { ptr, len: len as u64, status: Scalar { data: 1, size: 1 } },
                ),
            },
        }
    }

    /// `BCryptGenRandom(algorithm, ptr, len, flags)`: supported only with
    /// the flag for the system-preferred generator and a null algorithm. The
    /// host fills the buffer, and the call returns the status of success.
    pub open spec fn bcrypt_gen_random(args: Seq<OpTy>) -> InterpResult<HostCall> {
        match OpTy::spec_read_scalar(args[0]) {
            Err(e) => Err(e),
            Ok(algorithm) => match OpTy::spec_read_pointer(args[1]) {
                Err(e) => Err(e),
                Ok(ptr) => match OpTy::spec_read_u32(args[2]) {
                    Err(e) => Err(e),
                    Ok(len) => match OpTy::spec_read_u32(args[3]) {
                        Err(e) => Err(e),
                        Ok(flags) => if flags != BCRYPT_USE_SYSTEM_PREFERRED_RNG {
                            Err(InterpError::Unsupported(UnsupportedKind::BcryptFlags))
                        } else {
                            match Scalar::spec_to_machine_usize(algorithm) {
                                Err(e) => Err(e),
                                Ok(a) => if a != 0 {
                                    Err(InterpError::Unsupported(UnsupportedKind::BcryptAlgorithm))
                                } else {
                                    Ok(
                                        HostCall::GenRandom {
                                            ptr,
                                            len: len as u64,
                                            status: Scalar { data: 0, size: 4 },
                                        },
                                    )
                                },
                            }
                        },
                    },
                },
            },
        }
    }

    /// A query on a console: the handle and the place for the answer are
    /// checked, and the query fails.
    pub open spec fn console_query(args: Seq<OpTy>) -> InterpResult<()> {
        match OpTy::spec_read_machine_isize(args[0]) {
            Err(e) => Err(e),
            Ok(_) => match OpTy::spec_deref(args[1]) {
                Err(e) => Err(e),
                Ok(_) => Ok(()),
            },
        }
    }

    /// What a function on a slim reader/writer lock comes to. The result
    /// says whether the call is over; it is not when it blocks its caller.
    pub open spec fn srw_op(self, op: SrwOp, lock: OpTy) -> (MachineView, InterpResult<bool>) {
        match op {
            SrwOp::AcquireExclusive => self.acquire_srw_lock_exclusive(lock),
            SrwOp::ReleaseExclusive => match self.release_srw_lock_exclusive(lock) {
                (m, Ok(())) => (m, Ok(true)),
                (m, Err(e)) => (m, Err(e)),
            },
            SrwOp::AcquireShared => self.acquire_srw_lock_shared(lock),
            SrwOp::ReleaseShared => match self.release_srw_lock_shared(lock) {
                (m, Ok(())) => (m, Ok(true)),
                (m, Err(e)) => (m, Err(e)),
            },
        }
    }

    /// An emulated function that returns nothing and can block its caller:
    /// a caller that it blocks stays at the call.
    pub open spec fn shim_lock(
        self,
        abi: Abi,
        args: Seq<OpTy>,
        n: nat,
        op: (MachineView, InterpResult<bool>),
    ) -> (MachineView, InterpResult<EmulateByNameResult>) {
        match spec_check_shim(abi, Abi::System, args, n) {
            Err(e) => (self, Err(e)),
            Ok(()) => match op {
                (_, Err(e)) => (self, Err(e)),
                (m, Ok(true)) => (m, Ok(EmulateByNameResult::NeedsJumping)),
                (m, Ok(false)) => (m, Ok(EmulateByNameResult::Blocked)),
            },
        }
    }

    /// An emulated function that stores `value` at the destination after a
    /// check of the call; nothing else changes.
    pub open spec fn shim_value(self, abi: Abi, args: Seq<OpTy>, n: nat, dest: PlaceTy, value: Scalar)
        -> (MachineView, InterpResult<EmulateByNameResult>) {
        match spec_check_shim(abi, Abi::System, args, n) {
            Err(e) => (self, Err(e)),
            Ok(()) => match check_dest(dest, value.size) {
                Err(e) => (self, Err(e)),
                Ok(()) => (self.store(value, dest), Ok(EmulateByNameResult::NeedsJumping)),
            },
        }
    }

    /// An emulated function whose result `op` is stored at the destination.
    pub open spec fn shim_result(
        self,
        abi: Abi,
        args: Seq<OpTy>,
        n: nat,
        dest: PlaceTy,
        size: u8,
        op: (MachineView, InterpResult<Scalar>),
    ) -> (MachineView, InterpResult<EmulateByNameResult>) {
        match spec_check_shim(abi, Abi::System, args, n) {
            Err(e) => (self, Err(e)),
            Ok(()) => match check_dest(dest, size) {
                Err(e) => (self, Err(e)),
                Ok(()) => match op {
                    (_, Err(e)) => (self, Err(e)),
                    (m, Ok(value)) => (m.store(value, dest), Ok(EmulateByNameResult::NeedsJumping)),
                },
            },
        }
    }

    /// An emulated function that returns nothing.
    pub open spec fn shim_unit(
        self,
        abi: Abi,
        args: Seq<OpTy>,
        n: nat,
        op: (MachineView, InterpResult<()>),
    ) -> (MachineView, InterpResult<EmulateByNameResult>) {
        match spec_check_shim(abi, Abi::System, args, n) {
            Err(e) => (self, Err(e)),
            Ok(()) => match op {
                (_, Err(e)) => (self, Err(e)),
                (m, Ok(())) => (m, Ok(EmulateByNameResult::NeedsJumping)),
            },
        }
    }

    /// An emulated function that the host performs once `call` has been
    /// worked out of the arguments.
    pub open spec fn shim_host_call(
        self,
        abi: Abi,
        args: Seq<OpTy>,
        n: nat,
        call: InterpResult<HostCall>,
    ) -> (MachineView, InterpResult<EmulateByNameResult>) {
        match spec_check_shim(abi, Abi::System, args, n) {
            Err(e) => (self, Err(e)),
            Ok(()) => match call {
                Err(e) => (self, Err(e)),
                Ok(call) => (self, Ok(EmulateByNameResult::Host(call))),
            },
        }
    }
}

/// A scalar result, made of a machine and a plain value.
pub open spec fn as_scalar(r: (MachineView, InterpResult<u64>), size: u8) -> (
    MachineView,
    InterpResult<Scalar>,
) {
    match r {
        (m, Ok(v)) => (m, Ok(Scalar { data: v, size })),
        (m, Err(e)) => (m, Err(e)),
    }
}

/// A 32-bit status as a scalar result.
pub open spec fn status_scalar(r: (MachineView, InterpResult<i32>)) -> (
    MachineView,
    InterpResult<Scalar>,
) {
    match r {
        (m, Ok(v)) => (m, Ok(Scalar { data: crate::scalar::i32_bits(v), size: 4 })),
        (m, Err(e)) => (m, Err(e)),
    }
}

/// A byte as a scalar result.
pub open spec fn byte_scalar(r: (MachineView, InterpResult<u8>)) -> (
    MachineView,
    InterpResult<Scalar>,
) {
    match r {
        (m, Ok(v)) => (m, Ok(Scalar { data: v as u64, size: 1 })),
        (m, Err(e)) => (m, Err(e)),
    }
}

impl MachineView {
    /// What a call of the function `symbol` of the catalogue comes to.
    pub open spec fn emulate_windows_symbol(
        self,
        symbol: WindowsSymbol,
        abi: Abi,
        args: Seq<OpTy>,
        dest: PlaceTy,
    ) -> (MachineView, InterpResult<EmulateByNameResult>) {
        match symbol {
            WindowsSymbol::Plain { call, arity } => self.shim_host(
                abi,
                Abi::System,
                args,
                arity as nat,
                call,
            ),
            WindowsSymbol::HeapAlloc => self.shim_result(
                abi,
                args,
                3,
                dest,
                POINTER_SIZE,
                as_scalar(self.heap_alloc(args), POINTER_SIZE),
            ),
            WindowsSymbol::HeapFree => self.shim_result(
                abi,
                args,
                3,
                dest,
                4,
                status_scalar(self.heap_free(args)),
            ),
            WindowsSymbol::HeapReAlloc => self.shim_result(
                abi,
                args,
                4,
                dest,
                POINTER_SIZE,
                as_scalar(self.heap_realloc(args), POINTER_SIZE),
            ),
            WindowsSymbol::SetLastError => self.shim_unit(
                abi,
                args,
                1,
                match OpTy::spec_read_scalar(args[0]) {
                    Err(e) => (self, Err(e)),
                    Ok(error) => (self.set_last_error(error), Ok(())),
                },
            ),
            WindowsSymbol::GetLastError => self.shim_value(
                abi,
                args,
                0,
                dest,
                self.active().last_error,
            ),
            WindowsSymbol::GetSystemInfo => self.shim_unit(
                abi,
                args,
                1,
                self.get_system_info(args[0]),
            ),
            WindowsSymbol::TlsAlloc => self.shim_unit(abi, args, 0, self.tls_alloc(dest)),
            WindowsSymbol::TlsGetValue => self.shim_result(
                abi,
                args,
                1,
                dest,
                POINTER_SIZE,
                match self.tls_get_value(args[0]) {
                    Err(e) => (self, Err(e)),
                    Ok(v) => if v.size == POINTER_SIZE {
                        (self, Ok(v))
                    } else {
                        (
                            self,
                            Err(
                                InterpError::UndefinedBehavior(
                                    UbKind::ScalarSizeMismatch { found: v.size, required: POINTER_SIZE },
                                ),
                            ),
                        )
                    },
                },
            ),
            WindowsSymbol::TlsSetValue => self.shim_result(
                abi,
                args,
                2,
                dest,
                4,
                status_scalar(self.tls_set_value(args[0], args[1])),
            ),
            WindowsSymbol::GetCommandLineW => self.shim_value(
                abi,
                args,
                0,
                dest,
                Scalar { data: self.cmd_line->Some_0, size: POINTER_SIZE },
            ),
            WindowsSymbol::Srw(op) => self.shim_lock(abi, args, 1, self.srw_op(op, args[0])),
            WindowsSymbol::TrySrw { exclusive } => self.shim_result(
                abi,
                args,
                1,
                dest,
                1,
                byte_scalar(
                    if exclusive {
                        self.try_acquire_srw_lock_exclusive(args[0])
                    } else {
                        self.try_acquire_srw_lock_shared(args[0])
                    },
                ),
            ),
            WindowsSymbol::GetProcAddress => self.shim_result(
                abi,
                args,
                2,
                dest,
                POINTER_SIZE,
                as_scalar(self.get_proc_address(args[0], args[1]), POINTER_SIZE),
            ),
            WindowsSymbol::SystemFunction036 => self.shim_host_call(
                abi,
                args,
                2,
                MachineView::system_function_036(args),
            ),
            WindowsSymbol::BCryptGenRandom => self.shim_host_call(
                abi,
                args,
                4,
                MachineView::bcrypt_gen_random(args),
            ),
            WindowsSymbol::ConsoleQuery => self.shim_unit(
                abi,
                args,
                2,
                match MachineView::console_query(args) {
                    Err(e) => (self, Err(e)),
                    Ok(()) => self.write_null(dest),
                },
            ),
            WindowsSymbol::SwitchToThread => self.shim_unit(abi, args, 0, self.write_null(dest)),
            WindowsSymbol::GetStdHandle => self.shim_result(
                abi,
                args,
                1,
                dest,
                POINTER_SIZE,
                match OpTy::spec_read_i32(args[0]) {
                    Err(e) => (self, Err(e)),
                    Ok(which) => (
                        self,
                        Ok(Scalar { data: i64_bits(which as i64), size: POINTER_SIZE }),
                    ),
                },
            ),
            WindowsSymbol::CreateThread => match spec_check_shim(abi, Abi::System, args, 6) {
                Err(e) => (self, Err(e)),
                Ok(()) => match self.handle_unsupported(
                    "unsupported Miri functionality: can't create threads on Windows"@,
                    UnsupportedKind::WindowsCreateThread,
                ) {
                    (_, Err(e)) => (self, Err(e)),
                    (m, Ok(())) => (m, Ok(EmulateByNameResult::AlreadyJumped)),
                },
            },
            WindowsSymbol::StdOne { arity } => if !self.frame_in_std() {
                (self, Ok(EmulateByNameResult::NotSupported))
            } else {
                self.shim_value(abi, args, arity as nat, dest, Scalar { data: 1, size: POINTER_SIZE })
            },
            WindowsSymbol::SetConsoleTextAttribute => if !self.frame_in_std() {
                (self, Ok(EmulateByNameResult::NotSupported))
            } else {
                self.shim_unit(abi, args, 2, self.write_null(dest))
            },
            WindowsSymbol::SetThreadStackGuarantee => if !self.frame_in_std() {
                (self, Ok(EmulateByNameResult::NotSupported))
            } else {
                self.shim_value(abi, args, 1, dest, Scalar { data: 1, size: 4 })
            },
            WindowsSymbol::CriticalSection => if !self.frame_in_std() {
                (self, Ok(EmulateByNameResult::NotSupported))
            } else {
                self.shim_unit(abi, args, 1, (self, Ok(())))
            },
            WindowsSymbol::TryEnterCriticalSection => if !self.frame_in_std() {
                (self, Ok(EmulateByNameResult::NotSupported))
            } else {
                self.shim_value(abi, args, 1, dest, Scalar { data: 1, size: 4 })
            },
        }
    }

    /// What a call of the foreign function `name` comes to on a Windows
    /// target. A name that the catalogue does not hold is not supported, and
    /// nothing changes.
    pub open spec fn emulate_windows(self, name: Seq<char>, abi: Abi, args: Seq<OpTy>, dest: PlaceTy)
        -> (MachineView, InterpResult<EmulateByNameResult>) {
        match windows_symbol(name) {
            None => (self, Ok(EmulateByNameResult::NotSupported)),
            Some(symbol) => self.emulate_windows_symbol(symbol, abi, args, dest),
        }
    }

    /// What the machine must be like for a call of `symbol`: a call of
    /// `GetCommandLineW` needs a machine that knows its command line, and the
    /// functions on critical sections, which are for a guest with one thread,
    /// need that there is one thread only.
    pub open spec fn ready_for(self, symbol: Option<WindowsSymbol>) -> bool {
        &&& symbol == Some(WindowsSymbol::GetCommandLineW) ==> self.cmd_line is Some
        &&& (symbol == Some(WindowsSymbol::CriticalSection) || symbol == Some(
            WindowsSymbol::TryEnterCriticalSection,
        )) && self.frame_in_std() ==> self.threads.len() == 1
    }
}

impl MiriEvalContext {
    /// `GetSystemInfo(info)`.
    pub fn get_system_info(&mut self, info: &OpTy) -> (r: InterpResult<()>)
        ensures
            (final(self)@, r) == old(self)@.get_system_info(*info),
            old(self)@.wf() ==> final(self)@.wf(),
    {
        let place: PlaceTy = info.deref_operand()?;
        if place.layout.size != SYSTEM_INFO_SIZE {
            return Err(
                InterpError::UndefinedBehavior(
                    UbKind::PlaceSizeMismatch { place: place.layout.size, value: 8 },
                ),
            );
        }
        if place.addr > u64::MAX - SYSTEM_INFO_SIZE {
            return Err(InterpError::UndefinedBehavior(UbKind::NullDereference));
        }
        let fields: Vec<(u64, u8)> = vec![
            (0u64, 2u8),
            (2u64, 2u8),
            (4u64, 4u8),
            (8u64, 8u8),
            (16u64, 8u8),
            (24u64, 8u8),
            (36u64, 4u8),
            (40u64, 4u8),
            (44u64, 2u8),
            (46u64, 2u8),
        ];
        assert(fields@ =~= system_info_fields());
        let mut i: usize = 0;
        while i < fields.len()
            invariant
                i <= fields.len(),
                fields@ == system_info_fields(),
                place.addr <= u64::MAX - SYSTEM_INFO_SIZE,
                self@ == old(self)@.zero_fields(place.addr, i as nat),
                old(self)@.wf() ==> self@.wf(),
            decreases fields.len() - i,
        {
            let (offset, size) = fields[i];
            assert(offset < SYSTEM_INFO_SIZE);
            self.memory.insert(place.addr + offset, Scalar { data: 0, size });
            i = i + 1;
        }
        self.memory.insert(place.addr + SYSTEM_INFO_PROCESSORS, Scalar::from_u32(NUM_CPUS as u32));
        Ok(())
    }

    /// `HeapAlloc(heap, flags, size)`.
    pub fn heap_alloc(&mut self, args: &[OpTy]) -> (r: InterpResult<u64>)
        requires
            args@.len() == 3,
        ensures
            (final(self)@, r) == old(self)@.heap_alloc(args@),
            old(self)@.wf() ==> final(self)@.wf(),
    {
        let flags: u32 = heap_flags(args)?;
        let size: u64 = args[2].read_pointer()?;
        let zero_init: bool = flags & HEAP_ZERO_MEMORY != 0;
        self.malloc(size, zero_init, MemoryKind::WinHeap)
    }

    /// `HeapFree(heap, flags, ptr)`.
    pub fn heap_free(&mut self, args: &[OpTy]) -> (r: InterpResult<i32>)
        requires
            args@.len() == 3,
        ensures
            (final(self)@, r) == old(self)@.heap_free(args@),
            old(self)@.wf() ==> final(self)@.wf(),
    {
        heap_flags(args)?;
        let ptr: u64 = args[2].read_pointer()?;
        self.free(ptr, MemoryKind::WinHeap)?;
        Ok(1)
    }

    /// `HeapReAlloc(heap, flags, ptr, size)`.
    pub fn heap_realloc(&mut self, args: &[OpTy]) -> (r: InterpResult<u64>)
        requires
            args@.len() == 4,
        ensures
            (final(self)@, r) == old(self)@.heap_realloc(args@),
            old(self)@.wf() ==> final(self)@.wf(),
    {
        heap_flags(args)?;
        let ptr: u64 = args[2].read_pointer()?;
        let size: u64 = args[3].read_pointer()?;
        self.realloc(ptr, size, MemoryKind::WinHeap)
    }

    /// `TlsAlloc()`.
    pub fn tls_alloc(&mut self, dest: &PlaceTy) -> (r: InterpResult<()>)
        ensures
            (final(self)@, r) == old(self)@.tls_alloc(*dest),
            old(self)@.wf() ==> final(self)@.wf(),
    {
        if dest.addr == 0 {
            return Err(InterpError::UndefinedBehavior(UbKind::NullDereference));
        }
        if !is_scalar_size(dest.layout.size) {
            return Err(
                InterpError::UndefinedBehavior(
                    UbKind::PlaceSizeMismatch { place: dest.layout.size, value: 8 },
                ),
            );
        }
        proof {
            if old(self)@.wf() {
                lemma_create_key_fresh(old(self)@.tls, None, dest.layout.size);
            }
        }
        let key: TlsKey = self.tls.create_tls_key(None, dest.layout.size)?;
        self.store(Scalar { data: key, size: dest.layout.size as u8 }, dest);
        Ok(())
    }

    /// `TlsGetValue(key)`.
    pub fn tls_get_value(&self, key: &OpTy) -> (r: InterpResult<Scalar>)
        ensures
            r == self@.tls_get_value(*key),
    {
        let key: u32 = key.read_u32()?;
        self.tls.load_tls(key as u64, self.active_thread)
    }

    /// `TlsSetValue(key, value)`.
    pub fn tls_set_value(&mut self, key: &OpTy, value: &OpTy) -> (r: InterpResult<i32>)
        ensures
            (final(self)@, r) == old(self)@.tls_set_value(*key, *value),
            old(self)@.wf() ==> final(self)@.wf(),
    {
        let key: u32 = key.read_u32()?;
        let value: Scalar = value.read_scalar()?;
        proof {
            if old(self)@.wf() {
                lemma_tls_wf_preserved(old(self)@.tls, key as u64, old(self)@.active_thread, value);
            }
        }
        self.tls.store_tls(key as u64, self.active_thread, value)?;
        Ok(1)
    }

    /// `GetProcAddress(module, name)`.
    pub fn get_proc_address(&mut self, module: &OpTy, name: &OpTy) -> (r: InterpResult<u64>)
        ensures
            (final(self)@, r) == old(self)@.get_proc_address(*module, *name),
            old(self)@.wf() ==> final(self)@.wf(),
    {
        module.read_machine_isize()?;
        let addr: u64 = name.read_pointer()?;
        let found: Option<Dlsym> = match self.strings.get(&addr) {
            None => {
                return Err(InterpError::UndefinedBehavior(UbKind::UninitializedRead));
            },
            Some(name) => Dlsym::from_str(name.as_str(), self.target_os),
        };
        match found {
            None => Ok(0),
            Some(f) => self.create_fn_alloc_ptr(FnVal::Other(f)),
        }
    }

    /// Carries out a function on a slim reader/writer lock, and says
    /// whether the call is over.
    pub fn srw_op(&mut self, op: SrwOp, lock: &OpTy) -> (r: InterpResult<bool>)
        ensures
            (final(self)@, r) == old(self)@.srw_op(op, *lock),
            old(self)@.wf() ==> final(self)@.wf(),
    {
        match op {
            SrwOp::AcquireExclusive => self.AcquireSRWLockExclusive(lock),
            SrwOp::ReleaseExclusive => {
                self.ReleaseSRWLockExclusive(lock)?;
                Ok(true)
            },
            SrwOp::AcquireShared => self.AcquireSRWLockShared(lock),
            SrwOp::ReleaseShared => {
                self.ReleaseSRWLockShared(lock)?;
                Ok(true)
            },
        }
    }

    /// Emulates a call of a function whose work the host does.
    fn emulate_windows_host(
        &mut self,
        symbol: WindowsSymbol,
        abi: Abi,
        args: &[OpTy],
        dest: &PlaceTy,
    ) -> (r: InterpResult<EmulateByNameResult>)
        requires
            old(self)@.wf(),
            symbol is Plain || symbol is SystemFunction036 || symbol is BCryptGenRandom,
        ensures
            (final(self)@, r) == old(self)@.emulate_windows_symbol(symbol, abi, args@, *dest),
            final(self)@.wf(),
    {
        match symbol {
            WindowsSymbol::Plain { call, arity } => {
                check_shim(abi, Abi::System, args, arity)?;
                Ok(EmulateByNameResult::Host(call))
            },
            WindowsSymbol::SystemFunction036 => {
                check_shim(abi, Abi::System, args, 2)?;
                let ptr: u64 = args[0].read_pointer()?;
                let len: u32 = args[1].read_u32()?;
                Ok(
                    EmulateByNameResult::Host(
                        HostCall::GenRandom { ptr, len: len as u64, status: Scalar::from_bool(true) },
                    ),
                )
            },
            WindowsSymbol::BCryptGenRandom => {
                check_shim(abi, Abi::System, args, 4)?;
                let algorithm: Scalar = args[0].read_scalar()?;
                let ptr: u64 = args[1].read_pointer()?;
                let len: u32 = args[2].read_u32()?;
                let flags: u32 = args[3].read_u32()?;
                if flags != BCRYPT_USE_SYSTEM_PREFERRED_RNG {
                    return Err(InterpError::Unsupported(UnsupportedKind::BcryptFlags));
                }
                if algorithm.to_machine_usize()? != 0 {
                    return Err(InterpError::Unsupported(UnsupportedKind::BcryptAlgorithm));
                }
                Ok(
                    EmulateByNameResult::Host(
                        HostCall::GenRandom { ptr, len: len as u64, status: Scalar::from_i32(0) },
                    ),
                )
            },
            _ => Ok(EmulateByNameResult::NotSupported),
        }
    }

    /// Emulates a call of a function on memory or symbols.
    fn emulate_windows_memory(
        &mut self,
        symbol: WindowsSymbol,
        abi: Abi,
        args: &[OpTy],
        dest: &PlaceTy,
    ) -> (r: InterpResult<EmulateByNameResult>)
        requires
            old(self)@.wf(),
            symbol is HeapAlloc || symbol is HeapFree || symbol is HeapReAlloc
                || symbol is GetSystemInfo || symbol is GetProcAddress,
        ensures
            (final(self)@, r) == old(self)@.emulate_windows_symbol(symbol, abi, args@, *dest),
            final(self)@.wf(),
    {
        match symbol {
            WindowsSymbol::HeapAlloc => {
                check_shim(abi, Abi::System, args, 3)?;
                check_dest_size(dest, POINTER_SIZE)?;
                let ptr: u64 = self.heap_alloc(args)?;
                self.store(Scalar::from_machine_usize(ptr), dest);
                Ok(EmulateByNameResult::NeedsJumping)
            },
            WindowsSymbol::HeapFree => {
                check_shim(abi, Abi::System, args, 3)?;
                check_dest_size(dest, 4)?;
                let status: i32 = self.heap_free(args)?;
                self.store(Scalar::from_i32(status), dest);
                Ok(EmulateByNameResult::NeedsJumping)
            },
            WindowsSymbol::HeapReAlloc => {
                check_shim(abi, Abi::System, args, 4)?;
                check_dest_size(dest, POINTER_SIZE)?;
                let ptr: u64 = self.heap_realloc(args)?;
                self.store(Scalar::from_machine_usize(ptr), dest);
                Ok(EmulateByNameResult::NeedsJumping)
            },
            WindowsSymbol::GetSystemInfo => {
                check_shim(abi, Abi::System, args, 1)?;
                self.get_system_info(&args[0])?;
                Ok(EmulateByNameResult::NeedsJumping)
            },
            WindowsSymbol::GetProcAddress => {
                check_shim(abi, Abi::System, args, 2)?;
                check_dest_size(dest, POINTER_SIZE)?;
                let ptr: u64 = self.get_proc_address(&args[0], &args[1])?;
                self.store(Scalar::from_machine_usize(ptr), dest);
                Ok(EmulateByNameResult::NeedsJumping)
            },
            _ => Ok(EmulateByNameResult::NotSupported),
        }
    }

    /// Emulates a call of a function on thread-local storage.
    fn emulate_windows_tls(
        &mut self,
        symbol: WindowsSymbol,
        abi: Abi,
        args: &[OpTy],
        dest: &PlaceTy,
    ) -> (r: InterpResult<EmulateByNameResult>)
        requires
            old(self)@.wf(),
            symbol is TlsAlloc || symbol is TlsGetValue || symbol is TlsSetValue,
        ensures
            (final(self)@, r) == old(self)@.emulate_windows_symbol(symbol, abi, args@, *dest),
            final(self)@.wf(),
    {
        match symbol {
            WindowsSymbol::TlsAlloc => {
                check_shim(abi, Abi::System, args, 0)?;
                self.tls_alloc(dest)?;
                Ok(EmulateByNameResult::NeedsJumping)
            },
            WindowsSymbol::TlsGetValue => {
                check_shim(abi, Abi::System, args, 1)?;
                check_dest_size(dest, POINTER_SIZE)?;
                let value: Scalar = self.tls_get_value(&args[0])?;
                if value.size != POINTER_SIZE {
                    return Err(
                        InterpError::UndefinedBehavior(
                            UbKind::ScalarSizeMismatch { found: value.size, required: POINTER_SIZE },
                        ),
                    );
                }
                self.store(value, dest);
                Ok(EmulateByNameResult::NeedsJumping)
            },
            WindowsSymbol::TlsSetValue => {
                check_shim(abi, Abi::System, args, 2)?;
                check_dest_size(dest, 4)?;
                let status: i32 = self.tls_set_value(&args[0], &args[1])?;
                self.store(Scalar::from_i32(status), dest);
                Ok(EmulateByNameResult::NeedsJumping)
            },
            _ => Ok(EmulateByNameResult::NotSupported),
        }
    }

    /// Emulates a call of a function on the state of the process.
    fn emulate_windows_process(
        &mut self,
        symbol: WindowsSymbol,
        abi: Abi,
        args: &[OpTy],
        dest: &PlaceTy,
    ) -> (r: InterpResult<EmulateByNameResult>)
        requires
            old(self)@.wf(),
            old(self)@.ready_for(Some(symbol)),
            symbol is SetLastError || symbol is GetLastError || symbol is GetCommandLineW
                || symbol is ConsoleQuery || symbol is SwitchToThread || symbol is GetStdHandle
                || symbol is CreateThread,
        ensures
            (final(self)@, r) == old(self)@.emulate_windows_symbol(symbol, abi, args@, *dest),
            final(self)@.wf(),
    {
        match symbol {
            WindowsSymbol::SetLastError => {
                check_shim(abi, Abi::System, args, 1)?;
                let error: Scalar = args[0].read_scalar()?;
                self.set_last_error(error);
                Ok(EmulateByNameResult::NeedsJumping)
            },
            WindowsSymbol::GetLastError => {
                check_shim(abi, Abi::System, args, 0)?;
                let last_error: Scalar = self.get_last_error();
                check_dest_size(dest, last_error.size)?;
                self.store(last_error, dest);
                Ok(EmulateByNameResult::NeedsJumping)
            },
            WindowsSymbol::GetCommandLineW => {
                check_shim(abi, Abi::System, args, 0)?;
                check_dest_size(dest, POINTER_SIZE)?;
                let cmd_line: u64 = self.cmd_line.unwrap();
                self.store(Scalar::from_machine_usize(cmd_line), dest);
                Ok(EmulateByNameResult::NeedsJumping)
            },
            WindowsSymbol::ConsoleQuery => {
                check_shim(abi, Abi::System, args, 2)?;
                args[0].read_machine_isize()?;
                args[1].deref_operand()?;
                self.write_null(dest)?;
                Ok(EmulateByNameResult::NeedsJumping)
            },
            WindowsSymbol::SwitchToThread => {
                check_shim(abi, Abi::System, args, 0)?;
                self.write_null(dest)?;
                Ok(EmulateByNameResult::NeedsJumping)
            },
            WindowsSymbol::GetStdHandle => {
                check_shim(abi, Abi::System, args, 1)?;
                check_dest_size(dest, POINTER_SIZE)?;
                let which: i32 = args[0].read_i32()?;
                self.store(Scalar::from_machine_isize(which as i64), dest);
                Ok(EmulateByNameResult::NeedsJumping)
            },
            WindowsSymbol::CreateThread => {
                check_shim(abi, Abi::System, args, 6)?;
                self.handle_unsupported(
                    "unsupported Miri functionality: can't create threads on Windows",
                    UnsupportedKind::WindowsCreateThread,
                )?;
                Ok(EmulateByNameResult::AlreadyJumped)
            },
            _ => Ok(EmulateByNameResult::NotSupported),
        }
    }

    /// Emulates a call of a function on a slim reader/writer lock.
    fn emulate_windows_srw(
        &mut self,
        symbol: WindowsSymbol,
        abi: Abi,
        args: &[OpTy],
        dest: &PlaceTy,
    ) -> (r: InterpResult<EmulateByNameResult>)
        requires
            old(self)@.wf(),
            symbol is Srw || symbol is TrySrw,
        ensures
            (final(self)@, r) == old(self)@.emulate_windows_symbol(symbol, abi, args@, *dest),
            final(self)@.wf(),
    {
        match symbol {
            WindowsSymbol::Srw(op) => {
                check_shim(abi, Abi::System, args, 1)?;
                if self.srw_op(op, &args[0])? {
                    Ok(EmulateByNameResult::NeedsJumping)
                } else {
                    Ok(EmulateByNameResult::Blocked)
                }
            },
            WindowsSymbol::TrySrw { exclusive } => {
                check_shim(abi, Abi::System, args, 1)?;
                check_dest_size(dest, 1)?;
                let ret: u8 = if exclusive {
                    self.TryAcquireSRWLockExclusive(&args[0])?
                } else {
                    self.TryAcquireSRWLockShared(&args[0])?
                };
                self.store(Scalar::from_u8(ret), dest);
                Ok(EmulateByNameResult::NeedsJumping)
            },
            _ => Ok(EmulateByNameResult::NotSupported),
        }
    }

    /// Emulates a call of a function that is there for the standard library only.
    fn emulate_windows_std(
        &mut self,
        symbol: WindowsSymbol,
        abi: Abi,
        args: &[OpTy],
        dest: &PlaceTy,
    ) -> (r: InterpResult<EmulateByNameResult>)
        requires
            old(self)@.wf(),
            symbol is StdOne || symbol is SetConsoleTextAttribute
                || symbol is SetThreadStackGuarantee || symbol is CriticalSection
                || symbol is TryEnterCriticalSection,
        ensures
            (final(self)@, r) == old(self)@.emulate_windows_symbol(symbol, abi, args@, *dest),
            final(self)@.wf(),
    {
        if !self.frame_in_std() {
            return Ok(EmulateByNameResult::NotSupported);
        }
        match symbol {
            WindowsSymbol::StdOne { arity } => {
                check_shim(abi, Abi::System, args, arity)?;
                check_dest_size(dest, POINTER_SIZE)?;
                self.store(Scalar::from_machine_usize(1), dest);
                Ok(EmulateByNameResult::NeedsJumping)
            },
            WindowsSymbol::SetConsoleTextAttribute => {
                check_shim(abi, Abi::System, args, 2)?;
                self.write_null(dest)?;
                Ok(EmulateByNameResult::NeedsJumping)
            },
            WindowsSymbol::SetThreadStackGuarantee => {
                check_shim(abi, Abi::System, args, 1)?;
                check_dest_size(dest, 4)?;
                self.store(Scalar::from_u32(1), dest);
                Ok(EmulateByNameResult::NeedsJumping)
            },
            WindowsSymbol::CriticalSection => {
                check_shim(abi, Abi::System, args, 1)?;
                Ok(EmulateByNameResult::NeedsJumping)
            },
            WindowsSymbol::TryEnterCriticalSection => {
                check_shim(abi, Abi::System, args, 1)?;
                check_dest_size(dest, 4)?;
                self.store(Scalar::from_i32(1), dest);
                Ok(EmulateByNameResult::NeedsJumping)
            },
            _ => Ok(EmulateByNameResult::NotSupported),
        }
    }

    /// Emulates a call of the function `symbol` of the catalogue.
    pub fn emulate_windows_symbol(
        &mut self,
        symbol: WindowsSymbol,
        abi: Abi,
        args: &[OpTy],
        dest: &PlaceTy,
    ) -> (r: InterpResult<EmulateByNameResult>)
        requires
            old(self)@.wf(),
            old(self)@.ready_for(Some(symbol)),
        ensures
            (final(self)@, r) == old(self)@.emulate_windows_symbol(symbol, abi, args@, *dest),
            final(self)@.wf(),
    {
        match symbol {
            WindowsSymbol::Plain { .. }
            | WindowsSymbol::SystemFunction036
            | WindowsSymbol::BCryptGenRandom => self.emulate_windows_host(symbol, abi, args, dest),
            WindowsSymbol::HeapAlloc
            | WindowsSymbol::HeapFree
            | WindowsSymbol::HeapReAlloc
            | WindowsSymbol::GetSystemInfo
            | WindowsSymbol::GetProcAddress => self.emulate_windows_memory(symbol, abi, args, dest),
            WindowsSymbol::TlsAlloc | WindowsSymbol::TlsGetValue | WindowsSymbol::TlsSetValue => {
                self.emulate_windows_tls(symbol, abi, args, dest)
            },
            WindowsSymbol::SetLastError
            | WindowsSymbol::GetLastError
            | WindowsSymbol::GetCommandLineW
            | WindowsSymbol::ConsoleQuery
            | WindowsSymbol::SwitchToThread
            | WindowsSymbol::GetStdHandle
            | WindowsSymbol::CreateThread => self.emulate_windows_process(symbol, abi, args, dest),
            WindowsSymbol::Srw(_) | WindowsSymbol::TrySrw { .. } => {
                self.emulate_windows_srw(symbol, abi, args, dest)
            },
            WindowsSymbol::StdOne { .. }
            | WindowsSymbol::SetConsoleTextAttribute
            | WindowsSymbol::SetThreadStackGuarantee
            | WindowsSymbol::CriticalSection
            | WindowsSymbol::TryEnterCriticalSection => {
                self.emulate_windows_std(symbol, abi, args, dest)
            },
        }
    }
}

/// The Windows catalogue of foreign functions of an interpreter context.
pub trait EvalContextExt: View<V = MachineView> {
    /// Emulates a call of the foreign function `link_name` with the
    /// arguments `args`, made through the ABI `abi`, whose result goes to
    /// `dest`. A call with the wrong ABI, the wrong number of arguments or
    /// arguments of the wrong type is a violation, and then nothing changes;
    /// so it is with every other failure.
    fn emulate_foreign_item_by_name(
        &mut self,
        link_name: &str,
        abi: Abi,
        args: &[OpTy],
        dest: &PlaceTy,
        ret: BasicBlock,
    ) -> (r: InterpResult<EmulateByNameResult>)
        requires
            old(self)@.wf(),
            old(self)@.ready_for(windows_symbol(link_name@)),
        ensures
            (final(self)@, r) == old(self)@.emulate_windows(link_name@, abi, args@, *dest),
            final(self)@.wf(),
    ;
}

impl EvalContextExt for MiriEvalContext {
    fn emulate_foreign_item_by_name(
        &mut self,
        link_name: &str,
        abi: Abi,
        args: &[OpTy],
        dest: &PlaceTy,
        ret: BasicBlock,
    ) -> (r: InterpResult<EmulateByNameResult>) {
        match lookup_windows_symbol(link_name) {
            None => Ok(EmulateByNameResult::NotSupported),
            Some(symbol) => self.emulate_windows_symbol(symbol, abi, args, dest),
        }
    }
}

/// Filling in the record of `GetSystemInfo` changes guest memory and
/// nothing else.
pub proof fn lemma_zero_fields_changes_memory_only(m: MachineView, addr: u64, n: nat)
    ensures
        m.zero_fields(addr, n) == (MachineView { memory: m.zero_fields(addr, n).memory, ..m }),
    decreases n,
{
    if n > 0 {
        lemma_zero_fields_changes_memory_only(m, addr, (n - 1) as nat);
    }
}

/// An emulated function changes nothing when it fails, whatever it does
/// when it succeeds.
pub proof fn lemma_windows_shim_failure_changes_nothing(
    m: MachineView,
    abi: Abi,
    args: Seq<OpTy>,
    n: nat,
    dest: PlaceTy,
    size: u8,
    result: (MachineView, InterpResult<Scalar>),
    unit: (MachineView, InterpResult<()>),
)
    ensures
        m.shim_result(abi, args, n, dest, size, result).1 is Err ==> m.shim_result(
            abi,
            args,
            n,
            dest,
            size,
            result,
        ).0 == m,
        m.shim_unit(abi, args, n, unit).1 is Err ==> m.shim_unit(abi, args, n, unit).0 == m,
{
}

/// Whatever a call of a function of the Windows catalogue comes to, a
/// failure leaves the machine as it was.
pub proof fn lemma_windows_symbol_failure_changes_nothing(
    m: MachineView,
    symbol: WindowsSymbol,
    abi: Abi,
    args: Seq<OpTy>,
    dest: PlaceTy,
)
    ensures
        m.emulate_windows_symbol(symbol, abi, args, dest).1 is Err ==> m.emulate_windows_symbol(
            symbol,
            abi,
            args,
            dest,
        ).0 == m,
{
    let none: (MachineView, InterpResult<Scalar>) = (m, Ok(Scalar { data: 0, size: 1 }));
    let nothing: (MachineView, InterpResult<()>) = (m, Ok(()));
    match symbol {
        WindowsSymbol::HeapAlloc => {
            lemma_windows_shim_failure_changes_nothing(
                m,
                abi,
                args,
                3,
                dest,
                POINTER_SIZE,
                as_scalar(m.heap_alloc(args), POINTER_SIZE),
                nothing,
            );
        },
        WindowsSymbol::HeapFree => {
            lemma_windows_shim_failure_changes_nothing(
                m,
                abi,
                args,
                3,
                dest,
                4,
                status_scalar(m.heap_free(args)),
                nothing,
            );
        },
        WindowsSymbol::HeapReAlloc => {
            lemma_windows_shim_failure_changes_nothing(
                m,
                abi,
                args,
                4,
                dest,
                POINTER_SIZE,
                as_scalar(m.heap_realloc(args), POINTER_SIZE),
                nothing,
            );
        },
        WindowsSymbol::GetSystemInfo => {
            lemma_windows_shim_failure_changes_nothing(
                m,
                abi,
                args,
                1,
                dest,
                1,
                none,
                m.get_system_info(args[0]),
            );
        },
        WindowsSymbol::TlsAlloc => {
            lemma_windows_shim_failure_changes_nothing(
                m,
                abi,
                args,
                0,
                dest,
                1,
                none,
                m.tls_alloc(dest),
            );
        },
        WindowsSymbol::TlsSetValue => {
            lemma_windows_shim_failure_changes_nothing(
                m,
                abi,
                args,
                2,
                dest,
                4,
                status_scalar(m.tls_set_value(args[0], args[1])),
                nothing,
            );
        },
        WindowsSymbol::Srw(op) => {
            assert(m.shim_lock(abi, args, 1, m.srw_op(op, args[0])).1 is Err ==> m.shim_lock(
                abi,
                args,
                1,
                m.srw_op(op, args[0]),
            ).0 == m);
        },
        WindowsSymbol::TrySrw { exclusive } => {
            lemma_windows_shim_failure_changes_nothing(
                m,
                abi,
                args,
                1,
                dest,
                1,
                byte_scalar(
                    if exclusive {
                        m.try_acquire_srw_lock_exclusive(args[0])
                    } else {
                        m.try_acquire_srw_lock_shared(args[0])
                    },
                ),
                nothing,
            );
        },
        WindowsSymbol::GetProcAddress => {
            lemma_windows_shim_failure_changes_nothing(
                m,
                abi,
                args,
                2,
                dest,
                POINTER_SIZE,
                as_scalar(m.get_proc_address(args[0], args[1]), POINTER_SIZE),
                nothing,
            );
        },
        _ => {},
    }
}

/// Whatever a call of a Windows function comes to, a failure leaves the
/// machine as it was.
pub proof fn lemma_windows_failure_changes_nothing(
    m: MachineView,
    name: Seq<char>,
    abi: Abi,
    args: Seq<OpTy>,
    dest: PlaceTy,
)
    ensures
        m.emulate_windows(name, abi, args, dest).1 is Err ==> m.emulate_windows(
            name,
            abi,
            args,
            dest,
        ).0 == m,
{
    match windows_symbol(name) {
        Some(symbol) => {
            lemma_windows_symbol_failure_changes_nothing(m, symbol, abi, args, dest);
        },
        None => {},
    }
}

} // verus!
