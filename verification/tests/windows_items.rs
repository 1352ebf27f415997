use miri_runtime::errors::{InterpError, InterpResult, UbKind, UnsupportedKind};
use miri_runtime::eval_context::{FnVal, MemoryKind, MiriEvalContext, PanicStrategy, TargetOs};
use miri_runtime::scalar::{Immediate, OpTy, PlaceTy, Scalar, TyLayout};
use miri_runtime::shims::dlsym::Dlsym;
use miri_runtime::shims::foreign_items::{EmulateByNameResult, HostCall};
use miri_runtime::shims::windows::foreign_items::{
    lookup_windows_symbol, EvalContextExt, SrwOp, WindowsSymbol,
};
use miri_runtime::thread::{Abi, BlockReason, StackPopCleanup, StackPopUnwind, ThreadState};

const DEST: u64 = 0x9000;
const LOCK: u64 = 0x3000;

fn machine() -> MiriEvalContext {
    MiriEvalContext::new(TargetOs::Windows, PanicStrategy::Unwind, false)
}

fn dest(size: u64) -> PlaceTy {
    PlaceTy { addr: DEST, layout: TyLayout { size, pointee: None } }
}

fn usize_op(v: u64) -> OpTy {
    OpTy::from_scalar(Scalar::from_machine_usize(v))
}

fn u32_op(v: u32) -> OpTy {
    OpTy::from_scalar(Scalar::from_u32(v))
}

fn call(
    ecx: &mut MiriEvalContext,
    name: &str,
    args: &[OpTy],
    size: u64,
) -> InterpResult<EmulateByNameResult> {
    ecx.memory.remove(&DEST);
    ecx.emulate_foreign_item_by_name(name, Abi::System, args, &dest(size), 0)
}

fn result(ecx: &mut MiriEvalContext, name: &str, args: &[OpTy], size: u64) -> Scalar {
    assert_eq!(call(ecx, name, args, size), Ok(EmulateByNameResult::NeedsJumping), "{}", name);
    ecx.read_scalar_at(&dest(size)).unwrap()
}

fn silent(ecx: &mut MiriEvalContext, name: &str, args: &[OpTy]) {
    assert_eq!(call(ecx, name, args, 4), Ok(EmulateByNameResult::NeedsJumping), "{}", name);
    assert!(ecx.read_scalar_at(&dest(4)).is_err(), "{} wrote a result", name);
}

fn blocks(ecx: &mut MiriEvalContext, name: &str, args: &[OpTy]) {
    assert_eq!(call(ecx, name, args, 4), Ok(EmulateByNameResult::Blocked), "{}", name);
    assert!(ecx.read_scalar_at(&dest(4)).is_err(), "{} wrote a result", name);
}

fn enter_std(ecx: &mut MiriEvalContext) {
    let f = ecx.define_fn(Abi::Rust, 0, true).unwrap();
    ecx.call_function(f, Abi::Rust, vec![], None, StackPopCleanup::Root { cleanup: true }).unwrap();
}

#[test]
fn windows_names_of_the_catalogue() {
    assert_eq!(lookup_windows_symbol("HeapAlloc"), Some(WindowsSymbol::HeapAlloc));
    assert_eq!(
        lookup_windows_symbol("AcquireSRWLockShared"),
        Some(WindowsSymbol::Srw(SrwOp::AcquireShared))
    );
    assert_eq!(
        lookup_windows_symbol("TryAcquireSRWLockExclusive"),
        Some(WindowsSymbol::TrySrw { exclusive: true })
    );
    assert_eq!(lookup_windows_symbol("GetConsoleMode"), Some(WindowsSymbol::ConsoleQuery));
    assert_eq!(lookup_windows_symbol("heapalloc"), None);
    assert_eq!(lookup_windows_symbol("pthread_self"), None);
    let mut ecx = machine();
    assert_eq!(call(&mut ecx, "pthread_self", &[], 8), Ok(EmulateByNameResult::NotSupported));
}

#[test]
fn windows_calls_use_the_system_abi() {
    let mut ecx = machine();
    assert_eq!(
        ecx.emulate_foreign_item_by_name("GetLastError", Abi::C, &[], &dest(4), 0),
        Err(InterpError::UndefinedBehavior(UbKind::AbiMismatch))
    );
    assert_eq!(
        call(&mut ecx, "GetLastError", &[u32_op(1)], 4),
        Err(InterpError::UndefinedBehavior(UbKind::WrongArgumentCount { got: 1, expected: 0 }))
    );
}

#[test]
fn last_error_is_kept_per_thread() {
    let mut ecx = machine();
    assert_eq!(result(&mut ecx, "GetLastError", &[], 4), Scalar::from_u32(0));
    silent(&mut ecx, "SetLastError", &[u32_op(1314)]);
    assert_eq!(result(&mut ecx, "GetLastError", &[], 4), Scalar::from_u32(1314));
    let other = ecx.create_thread().unwrap();
    ecx.set_active_thread(other);
    assert_eq!(result(&mut ecx, "GetLastError", &[], 4), Scalar::from_u32(0));
}

#[test]
fn windows_host_functions() {
    let mut ecx = machine();
    assert_eq!(
        call(&mut ecx, "GetEnvironmentVariableW", &[usize_op(1), usize_op(2), u32_op(3)], 4),
        Ok(EmulateByNameResult::Host(HostCall::GetEnvironmentVariableW))
    );
    assert_eq!(
        call(&mut ecx, "GetEnvironmentStringsW", &[], 8),
        Ok(EmulateByNameResult::Host(HostCall::GetEnvironmentStringsW))
    );
    assert_eq!(
        call(&mut ecx, "QueryPerformanceCounter", &[usize_op(1)], 4),
        Ok(EmulateByNameResult::Host(HostCall::QueryPerformanceCounter))
    );
    assert_eq!(
        call(&mut ecx, "SystemFunction036", &[usize_op(0x100), u32_op(16)], 1),
        Ok(EmulateByNameResult::Host(HostCall::GenRandom {
            ptr: 0x100,
            len: 16,
            status: Scalar::from_bool(true)
        }))
    );
}

#[test]
fn bcrypt_gen_random_needs_the_system_generator() {
    let mut ecx = machine();
    let args = |algorithm: u64, flags: u32| {
        [usize_op(algorithm), usize_op(0x100), u32_op(32), u32_op(flags)]
    };
    assert_eq!(
        call(&mut ecx, "BCryptGenRandom", &args(0, 2), 4),
        Ok(EmulateByNameResult::Host(HostCall::GenRandom {
            ptr: 0x100,
            len: 32,
            status: Scalar::from_i32(0)
        }))
    );
    for flags in [0, 1, 3] {
        assert_eq!(
            call(&mut ecx, "BCryptGenRandom", &args(0, flags), 4),
            Err(InterpError::Unsupported(UnsupportedKind::BcryptFlags))
        );
    }
    assert_eq!(
        call(&mut ecx, "BCryptGenRandom", &args(7, 2), 4),
        Err(InterpError::Unsupported(UnsupportedKind::BcryptAlgorithm))
    );
    assert_eq!(
        call(&mut ecx, "BCryptGenRandom", &args(7, 1), 4),
        Err(InterpError::Unsupported(UnsupportedKind::BcryptFlags))
    );
}

#[test]
fn heap_functions() {
    let mut ecx = machine();
    let heap = OpTy::from_scalar(Scalar::from_machine_isize(1));
    let p = result(&mut ecx, "HeapAlloc", &[heap, u32_op(8), usize_op(40)], 8).data;
    assert_eq!(p, 0x1_0000);
    assert_eq!(p % 16, 0);
    assert_eq!(ecx.allocations[&p].size, 40);
    assert!(ecx.allocations[&p].zeroed);
    assert_eq!(ecx.allocations[&p].kind, MemoryKind::WinHeap);
    let q = result(&mut ecx, "HeapAlloc", &[heap, u32_op(0), usize_op(1)], 8).data;
    assert_eq!(q, 0x1_0030);
    assert!(!ecx.allocations[&q].zeroed);
    assert_eq!(
        result(&mut ecx, "HeapAlloc", &[heap, u32_op(0), usize_op(0)], 8),
        Scalar::null_ptr()
    );
    let r = result(&mut ecx, "HeapReAlloc", &[heap, u32_op(0), usize_op(p), usize_op(80)], 8).data;
    assert_eq!(r, 0x1_0040);
    assert!(!ecx.allocations.contains_key(&p));
    assert_eq!(ecx.allocations[&r].size, 80);
    assert_eq!(
        call(&mut ecx, "HeapFree", &[heap, u32_op(0), usize_op(p)], 4),
        Err(InterpError::UndefinedBehavior(UbKind::InvalidFree))
    );
    assert_eq!(
        result(&mut ecx, "HeapFree", &[heap, u32_op(0), usize_op(r)], 4),
        Scalar::from_i32(1)
    );
    assert_eq!(
        result(&mut ecx, "HeapFree", &[heap, u32_op(0), usize_op(0)], 4),
        Scalar::from_i32(1)
    );
    assert_eq!(
        result(&mut ecx, "HeapReAlloc", &[heap, u32_op(0), usize_op(q), usize_op(0)], 8),
        Scalar::null_ptr()
    );
    assert!(ecx.allocations.is_empty());
    let s = result(&mut ecx, "HeapReAlloc", &[heap, u32_op(0), usize_op(0), usize_op(5)], 8).data;
    assert_eq!(ecx.allocations[&s].size, 5);
    assert_eq!(
        call(&mut ecx, "HeapReAlloc", &[heap, u32_op(0), usize_op(0x77), usize_op(5)], 8),
        Err(InterpError::UndefinedBehavior(UbKind::InvalidFree))
    );
}

#[test]
fn system_info_reports_one_processor() {
    let mut ecx = machine();
    silent(&mut ecx, "GetSystemInfo", &[OpTy::from_ptr(0x400, 48)]);
    let field = |addr: u64, size: u64| PlaceTy { addr, layout: TyLayout { size, pointee: None } };
    assert_eq!(ecx.read_scalar_at(&field(0x400 + 32, 4)), Ok(Scalar::from_u32(1)));
    assert_eq!(ecx.read_scalar_at(&field(0x400, 2)), Ok(Scalar { data: 0, size: 2 }));
    assert_eq!(ecx.read_scalar_at(&field(0x400 + 4, 4)), Ok(Scalar::from_u32(0)));
    assert_eq!(ecx.read_scalar_at(&field(0x400 + 24, 8)), Ok(Scalar::null_ptr()));
    assert_eq!(ecx.read_scalar_at(&field(0x400 + 46, 2)), Ok(Scalar { data: 0, size: 2 }));
    assert_eq!(ecx.memory.len(), 11);
    assert_eq!(
        call(&mut ecx, "GetSystemInfo", &[OpTy::from_ptr(0x400, 40)], 4),
        Err(InterpError::UndefinedBehavior(UbKind::PlaceSizeMismatch { place: 40, value: 8 }))
    );
}

#[test]
fn windows_thread_local_storage() {
    let mut ecx = machine();
    let key = result(&mut ecx, "TlsAlloc", &[], 4);
    assert_eq!(key, Scalar::from_u32(1));
    assert_eq!(ecx.tls.keys[&1].dtor, None);
    let key_op = OpTy::from_scalar(key);
    assert_eq!(result(&mut ecx, "TlsGetValue", &[key_op], 8), Scalar::null_ptr());
    assert_eq!(
        result(&mut ecx, "TlsSetValue", &[key_op, usize_op(0x55)], 4),
        Scalar::from_i32(1)
    );
    assert_eq!(result(&mut ecx, "TlsGetValue", &[key_op], 8), Scalar::from_machine_usize(0x55));
    assert_eq!(
        call(&mut ecx, "TlsGetValue", &[u32_op(9)], 8),
        Err(InterpError::UndefinedBehavior(UbKind::TlsKeyMissing { key: 9 }))
    );
    assert_eq!(result(&mut ecx, "TlsAlloc", &[], 4), Scalar::from_u32(2));
}

#[test]
fn command_line_and_handles() {
    let mut ecx = machine();
    ecx.set_cmd_line(0x1234);
    assert_eq!(result(&mut ecx, "GetCommandLineW", &[], 8), Scalar::from_machine_usize(0x1234));
    let which = OpTy::from_scalar(Scalar::from_i32(-11));
    assert_eq!(result(&mut ecx, "GetStdHandle", &[which], 8), Scalar::from_machine_isize(-11));
    assert_eq!(result(&mut ecx, "SwitchToThread", &[], 4), Scalar::from_i32(0));
    let console = OpTy::from_scalar(Scalar::from_machine_isize(-11));
    for name in ["GetConsoleMode", "GetConsoleScreenBufferInfo"] {
        assert_eq!(
            result(&mut ecx, name, &[console, OpTy::from_ptr(0x300, 4)], 4),
            Scalar::from_i32(0)
        );
        assert_eq!(
            call(&mut ecx, name, &[console, OpTy::from_ptr(0, 4)], 4),
            Err(InterpError::UndefinedBehavior(UbKind::NullDereference))
        );
    }
}

#[test]
fn proc_address() {
    let mut ecx = machine();
    let name = match ecx.allocate_str("NtWriteFile").unwrap() {
        Immediate::ScalarPair(ptr, _) => ptr.data,
        Immediate::Scalar(_) => panic!("a string slice is a pair"),
    };
    let module = OpTy::from_scalar(Scalar::from_machine_isize(1));
    let f = result(&mut ecx, "GetProcAddress", &[module, usize_op(name)], 8).data;
    assert_eq!(ecx.get_ptr_fn(f), Ok(FnVal::Other(Dlsym::NtWriteFile)));
    let other = match ecx.allocate_str("getentropy").unwrap() {
        Immediate::ScalarPair(ptr, _) => ptr.data,
        Immediate::Scalar(_) => panic!("a string slice is a pair"),
    };
    assert_eq!(
        result(&mut ecx, "GetProcAddress", &[module, usize_op(other)], 8),
        Scalar::null_ptr()
    );
}

#[test]
fn creating_a_thread_is_not_supported() {
    let mut ecx = machine();
    let args = vec![usize_op(0); 6];
    assert_eq!(
        call(&mut ecx, "CreateThread", &args, 8),
        Err(InterpError::Unsupported(UnsupportedKind::WindowsCreateThread))
    );
    assert_eq!(
        call(&mut ecx, "CreateThread", &args[..5], 8),
        Err(InterpError::UndefinedBehavior(UbKind::WrongArgumentCount { got: 5, expected: 6 }))
    );
    let panic_fn = ecx.define_fn(Abi::Rust, 1, true).unwrap();
    let bounds_fn = ecx.define_fn(Abi::Rust, 2, true).unwrap();
    ecx.set_lang_items(panic_fn, bounds_fn);
    ecx.set_panic_on_unsupported(true);
    assert_eq!(call(&mut ecx, "CreateThread", &args, 8), Ok(EmulateByNameResult::AlreadyJumped));
    let frame = &ecx.threads[0].stack[0];
    assert_eq!(frame.instance, panic_fn);
    assert_eq!(
        frame.return_to_block,
        StackPopCleanup::Goto { ret: None, unwind: StackPopUnwind::Skip }
    );
    match frame.args[0] {
        Immediate::ScalarPair(ptr, _) => assert_eq!(
            ecx.strings[&ptr.data],
            "unsupported Miri functionality: can't create threads on Windows"
        ),
        Immediate::Scalar(_) => panic!("the message is a string slice"),
    }
    assert_eq!(ecx.get_total_thread_count(), 1);
}

#[test]
fn slim_locks_come_into_being_on_first_use() {
    let mut ecx = machine();
    let b = ecx.create_thread().unwrap();
    let lock = usize_op(LOCK);
    assert_eq!(
        call(&mut ecx, "ReleaseSRWLockExclusive", &[lock], 4),
        Err(InterpError::UndefinedBehavior(UbKind::RwLockNotHeld))
    );
    silent(&mut ecx, "AcquireSRWLockExclusive", &[lock]);
    assert_eq!(ecx.sync.rwlocks[&LOCK].writer, Some(0));
    assert_eq!(
        call(&mut ecx, "ReleaseSRWLockShared", &[lock], 4),
        Err(InterpError::UndefinedBehavior(UbKind::RwLockNotHeld))
    );
    ecx.set_active_thread(b);
    assert_eq!(result(&mut ecx, "TryAcquireSRWLockExclusive", &[lock], 1), Scalar::from_u8(0));
    assert_eq!(result(&mut ecx, "TryAcquireSRWLockShared", &[lock], 1), Scalar::from_u8(0));
    assert_eq!(
        call(&mut ecx, "ReleaseSRWLockExclusive", &[lock], 4),
        Err(InterpError::UndefinedBehavior(UbKind::RwLockNotHeld))
    );
    blocks(&mut ecx, "AcquireSRWLockShared", &[lock]);
    assert_eq!(ecx.threads[b as usize].state, ThreadState::Blocked(BlockReason::RwLockRead(LOCK)));
    ecx.set_active_thread(0);
    silent(&mut ecx, "ReleaseSRWLockExclusive", &[lock]);
    assert_eq!(ecx.threads[b as usize].state, ThreadState::Runnable);
    assert_eq!(ecx.sync.rwlocks[&LOCK].writer, None);
    assert!(ecx.sync.rwlocks[&LOCK].readers.is_empty());
    ecx.set_active_thread(b);
    silent(&mut ecx, "AcquireSRWLockShared", &[lock]);
    assert_eq!(ecx.sync.rwlocks[&LOCK].readers[&b], 1);
    ecx.set_active_thread(0);
    assert_eq!(result(&mut ecx, "TryAcquireSRWLockExclusive", &[lock], 1), Scalar::from_u8(0));
    blocks(&mut ecx, "AcquireSRWLockExclusive", &[lock]);
    assert_eq!(ecx.threads[0].state, ThreadState::Blocked(BlockReason::RwLockWrite(LOCK)));
    ecx.set_active_thread(b);
    assert_eq!(result(&mut ecx, "TryAcquireSRWLockShared", &[lock], 1), Scalar::from_u8(1));
    silent(&mut ecx, "ReleaseSRWLockShared", &[lock]);
    assert_eq!(ecx.threads[0].state, ThreadState::Blocked(BlockReason::RwLockWrite(LOCK)));
    silent(&mut ecx, "ReleaseSRWLockShared", &[lock]);
    assert_eq!(ecx.threads[0].state, ThreadState::Runnable);
    assert_eq!(ecx.sync.rwlocks[&LOCK].writer, None);
    ecx.set_active_thread(0);
    silent(&mut ecx, "AcquireSRWLockExclusive", &[lock]);
    assert_eq!(ecx.sync.rwlocks[&LOCK].writer, Some(0));
    assert!(ecx.sync.rwlocks[&LOCK].readers.is_empty());
}

#[test]
fn windows_stubs_are_for_the_standard_library_only() {
    let mut ecx = machine();
    let cases: [(&str, usize, u64); 6] = [
        ("GetProcessHeap", 0, 8),
        ("GetModuleHandleA", 1, 8),
        ("AddVectoredExceptionHandler", 2, 8),
        ("SetConsoleTextAttribute", 2, 4),
        ("SetThreadStackGuarantee", 1, 4),
        ("TryEnterCriticalSection", 1, 4),
    ];
    for (name, arity, size) in cases {
        let args = vec![usize_op(1); arity];
        assert_eq!(call(&mut ecx, name, &args, size), Ok(EmulateByNameResult::NotSupported));
    }
    assert_eq!(
        call(&mut ecx, "EnterCriticalSection", &[usize_op(1)], 4),
        Ok(EmulateByNameResult::NotSupported)
    );
    enter_std(&mut ecx);
    let expected = [
        Scalar::from_machine_usize(1),
        Scalar::from_machine_usize(1),
        Scalar::from_machine_usize(1),
        Scalar::from_i32(0),
        Scalar::from_u32(1),
        Scalar::from_i32(1),
    ];
    for ((name, arity, size), value) in cases.into_iter().zip(expected) {
        let args = vec![usize_op(1); arity];
        assert_eq!(result(&mut ecx, name, &args, size), value, "{}", name);
    }
    for name in [
        "InitializeCriticalSection",
        "EnterCriticalSection",
        "LeaveCriticalSection",
        "DeleteCriticalSection",
    ] {
        silent(&mut ecx, name, &[usize_op(1)]);
        assert_eq!(
            call(&mut ecx, name, &[], 4),
            Err(InterpError::UndefinedBehavior(UbKind::WrongArgumentCount { got: 0, expected: 1 }))
        );
    }
}

#[test]
fn slim_lock_counts_its_readers_no_further_than_it_can() {
    let mut ecx = machine();
    let lock = usize_op(LOCK);
    silent(&mut ecx, "AcquireSRWLockShared", &[lock]);
    ecx.sync.rwlocks.get_mut(&LOCK).unwrap().readers.insert(0, u32::MAX);
    assert_eq!(
        call(&mut ecx, "AcquireSRWLockShared", &[lock], 4),
        Err(InterpError::Unsupported(UnsupportedKind::TooManyRecursions))
    );
    assert_eq!(result(&mut ecx, "TryAcquireSRWLockShared", &[lock], 1), Scalar::from_u8(0));
    assert_eq!(ecx.sync.rwlocks[&LOCK].readers[&0], u32::MAX);
}
