use miri_runtime::errors::{InterpError, InterpResult, UbKind, UnsupportedKind};
use miri_runtime::eval_context::{FnVal, MemoryKind, MiriEvalContext, PanicStrategy, TargetOs};
use miri_runtime::scalar::{Immediate, OpTy, PlaceTy, Scalar, TyLayout};
use miri_runtime::shims::dlsym::Dlsym;
use miri_runtime::shims::foreign_items::{eval_libc_i32, EmulateByNameResult, HostCall, LibcConst};
use miri_runtime::shims::posix::foreign_items::{
    lookup_posix_symbol, EvalContextExt, ObjectOp, PosixSymbol,
};
use miri_runtime::thread::{Abi, StackPopCleanup};

const DEST: u64 = 0x9000;

fn machine(os: TargetOs) -> MiriEvalContext {
    MiriEvalContext::new(os, PanicStrategy::Unwind, false)
}

fn dest(size: u64) -> PlaceTy {
    PlaceTy { addr: DEST, layout: TyLayout { size, pointee: None } }
}

fn word(addr: u64) -> PlaceTy {
    PlaceTy { addr, layout: TyLayout { size: 8, pointee: None } }
}

fn usize_op(v: u64) -> OpTy {
    OpTy::from_scalar(Scalar::from_machine_usize(v))
}

fn i32_op(v: i32) -> OpTy {
    OpTy::from_scalar(Scalar::from_i32(v))
}

fn call(
    ecx: &mut MiriEvalContext,
    name: &str,
    args: &[OpTy],
    size: u64,
) -> InterpResult<EmulateByNameResult> {
    ecx.memory.remove(&DEST);
    ecx.emulate_foreign_item_by_name(name, Abi::C, args, &dest(size), 0)
}

fn result(ecx: &mut MiriEvalContext, name: &str, args: &[OpTy], size: u64) -> Scalar {
    assert_eq!(call(ecx, name, args, size), Ok(EmulateByNameResult::NeedsJumping), "{}", name);
    ecx.read_scalar_at(&dest(size)).unwrap()
}

fn enter_std(ecx: &mut MiriEvalContext) {
    let f = ecx.define_fn(Abi::Rust, 0, true).unwrap();
    ecx.call_function(f, Abi::Rust, vec![], None, StackPopCleanup::Root { cleanup: true }).unwrap();
}

#[test]
fn unknown_names_are_not_supported() {
    let mut ecx = machine(TargetOs::Linux);
    for name in ["", "getenvx", "clock_gettime", "GetLastError", "pthread_mutex_lock "] {
        assert_eq!(call(&mut ecx, name, &[], 4), Ok(EmulateByNameResult::NotSupported));
        assert_eq!(lookup_posix_symbol(name), None);
    }
    assert!(ecx.memory.is_empty());
}

#[test]
fn names_of_the_catalogue() {
    assert_eq!(
        lookup_posix_symbol("getenv"),
        Some(PosixSymbol::Plain { call: HostCall::Getenv, arity: 1 })
    );
    assert_eq!(lookup_posix_symbol("open64"), lookup_posix_symbol("open"));
    assert_eq!(lookup_posix_symbol("lseek64"), lookup_posix_symbol("lseek"));
    assert_eq!(lookup_posix_symbol("__xpg_strerror_r"), Some(PosixSymbol::StrerrorR));
    assert_eq!(
        lookup_posix_symbol("pthread_mutex_lock"),
        Some(PosixSymbol::Object(ObjectOp::MutexLock))
    );
    assert_eq!(lookup_posix_symbol("mprotect"), Some(PosixSymbol::Stub { arity: 3 }));
}

#[test]
fn calls_are_checked_before_anything_happens() {
    let mut ecx = machine(TargetOs::Linux);
    assert_eq!(
        ecx.emulate_foreign_item_by_name(
            "pthread_mutex_init",
            Abi::Rust,
            &[usize_op(0x100), usize_op(0)],
            &dest(4),
            0
        ),
        Err(InterpError::UndefinedBehavior(UbKind::AbiMismatch))
    );
    assert_eq!(
        call(&mut ecx, "pthread_mutex_init", &[usize_op(0x100)], 4),
        Err(InterpError::UndefinedBehavior(UbKind::WrongArgumentCount { got: 1, expected: 2 }))
    );
    assert_eq!(
        call(&mut ecx, "pthread_mutex_init", &[usize_op(0x100), usize_op(0)], 8),
        Err(InterpError::UndefinedBehavior(UbKind::PlaceSizeMismatch { place: 8, value: 4 }))
    );
    assert_eq!(
        call(&mut ecx, "pthread_mutex_init", &[i32_op(1), usize_op(0)], 4),
        Err(InterpError::UndefinedBehavior(UbKind::ScalarSizeMismatch { found: 4, required: 8 }))
    );
    let uninit = OpTy { value: None, layout: TyLayout { size: 8, pointee: Some(40) } };
    assert_eq!(
        call(&mut ecx, "pthread_mutex_init", &[uninit, usize_op(0)], 4),
        Err(InterpError::UndefinedBehavior(UbKind::UninitializedRead))
    );
    assert!(ecx.sync.mutexes.is_empty());
    assert!(ecx.memory.is_empty());
}

#[test]
fn host_functions_are_handed_to_the_host() {
    let mut ecx = machine(TargetOs::Linux);
    assert_eq!(
        call(&mut ecx, "getenv", &[usize_op(1)], 8),
        Ok(EmulateByNameResult::Host(HostCall::Getenv))
    );
    assert_eq!(
        call(&mut ecx, "getenv", &[], 8),
        Err(InterpError::UndefinedBehavior(UbKind::WrongArgumentCount { got: 0, expected: 1 }))
    );
    assert_eq!(
        call(&mut ecx, "rename", &[usize_op(1), usize_op(2)], 4),
        Ok(EmulateByNameResult::Host(HostCall::Rename))
    );
    assert_eq!(
        call(&mut ecx, "lseek64", &[i32_op(1), usize_op(2), i32_op(0)], 8),
        Ok(EmulateByNameResult::Host(HostCall::Lseek64))
    );
    assert_eq!(
        call(&mut ecx, "nanosleep", &[usize_op(1), usize_op(0)], 4),
        Ok(EmulateByNameResult::Host(HostCall::Nanosleep))
    );
    assert!(ecx.memory.is_empty());
}

#[test]
fn variadic_functions_check_the_abi_only() {
    let mut ecx = machine(TargetOs::Linux);
    for n in 0..4 {
        let args = vec![i32_op(0); n];
        assert_eq!(call(&mut ecx, "open", &args, 4), Ok(EmulateByNameResult::Host(HostCall::Open)));
        assert_eq!(
            call(&mut ecx, "fcntl", &args, 4),
            Ok(EmulateByNameResult::Host(HostCall::Fcntl))
        );
    }
    assert_eq!(
        ecx.emulate_foreign_item_by_name("open64", Abi::System, &[], &dest(4), 0),
        Err(InterpError::UndefinedBehavior(UbKind::AbiMismatch))
    );
}

#[test]
fn read_and_write_pass_their_arguments_on() {
    let mut ecx = machine(TargetOs::Linux);
    assert_eq!(
        call(&mut ecx, "read", &[i32_op(3), usize_op(0x500), usize_op(64)], 8),
        Ok(EmulateByNameResult::Host(HostCall::Read { fd: 3, buf: 0x500, count: 64 }))
    );
    assert_eq!(
        call(&mut ecx, "write", &[i32_op(-1), usize_op(0x500), usize_op(0)], 8),
        Ok(EmulateByNameResult::Host(HostCall::Write { fd: -1, buf: 0x500, count: 0 }))
    );
    assert_eq!(
        call(&mut ecx, "read", &[usize_op(3), usize_op(0x500), usize_op(64)], 8),
        Err(InterpError::UndefinedBehavior(UbKind::ScalarSizeMismatch { found: 8, required: 4 }))
    );
    assert_eq!(
        call(&mut ecx, "setenv", &[usize_op(1), usize_op(2), i32_op(1)], 4),
        Ok(EmulateByNameResult::Host(HostCall::Setenv))
    );
    assert_eq!(
        call(&mut ecx, "setenv", &[usize_op(1), usize_op(2), usize_op(1)], 4),
        Err(InterpError::UndefinedBehavior(UbKind::ScalarSizeMismatch { found: 8, required: 4 }))
    );
    assert_eq!(
        call(&mut ecx, "strerror_r", &[i32_op(2), usize_op(0x500), usize_op(16)], 4),
        Ok(EmulateByNameResult::Host(HostCall::StrerrorR {
            errnum: Scalar::from_i32(2),
            buf: 0x500,
            buflen: 16
        }))
    );
}

#[test]
fn posix_memalign_allocates_aligned_memory() {
    let mut ecx = machine(TargetOs::Linux);
    let ret = OpTy::from_ptr(0x700, 8);
    assert_eq!(
        result(&mut ecx, "posix_memalign", &[ret, usize_op(64), usize_op(100)], 4),
        Scalar::from_i32(0)
    );
    let ptr = ecx.read_scalar_at(&word(0x700)).unwrap().data;
    assert_eq!(ptr, 0x1_0000);
    assert_eq!(ptr % 64, 0);
    assert_eq!(ecx.allocations[&ptr].size, 100);
    assert_eq!(ecx.allocations[&ptr].kind, MemoryKind::C);
    assert_eq!(
        result(&mut ecx, "posix_memalign", &[ret, usize_op(8), usize_op(0)], 4),
        Scalar::from_i32(0)
    );
    assert_eq!(ecx.read_scalar_at(&word(0x700)), Ok(Scalar::null_ptr()));
    assert_eq!(ecx.allocations.len(), 1);
}

#[test]
fn posix_memalign_checks_the_alignment() {
    let mut ecx = machine(TargetOs::Linux);
    let ret = OpTy::from_ptr(0x700, 8);
    for align in [0, 3, 24, 100] {
        assert_eq!(
            call(&mut ecx, "posix_memalign", &[ret, usize_op(align), usize_op(8)], 4),
            Err(InterpError::UndefinedBehavior(UbKind::AlignmentNotPowerOfTwo { align }))
        );
    }
    for align in [1, 2, 4] {
        assert_eq!(
            call(&mut ecx, "posix_memalign", &[ret, usize_op(align), usize_op(8)], 4),
            Err(InterpError::UndefinedBehavior(UbKind::AlignmentTooSmall { align }))
        );
    }
    assert!(ecx.allocations.is_empty());
    assert!(ecx.memory.is_empty());
}

#[test]
fn sysconf_answers_a_few_queries() {
    let mut linux = machine(TargetOs::Linux);
    assert_eq!(result(&mut linux, "sysconf", &[i32_op(30)], 8), Scalar::from_machine_usize(4096));
    assert_eq!(result(&mut linux, "sysconf", &[i32_op(83)], 8), Scalar::from_machine_usize(1));
    assert_eq!(result(&mut linux, "sysconf", &[i32_op(84)], 8), Scalar::from_machine_usize(1));
    assert_eq!(
        call(&mut linux, "sysconf", &[i32_op(29)], 8),
        Err(InterpError::Unsupported(UnsupportedKind::SysconfName { name: 29 }))
    );
    let mut mac = machine(TargetOs::MacOs);
    assert_eq!(result(&mut mac, "sysconf", &[i32_op(29)], 8), Scalar::from_machine_usize(4096));
    assert_eq!(result(&mut mac, "sysconf", &[i32_op(58)], 8), Scalar::from_machine_usize(1));
    assert_eq!(
        call(&mut mac, "sysconf", &[i32_op(30)], 8),
        Err(InterpError::Unsupported(UnsupportedKind::SysconfName { name: 30 }))
    );
}

#[test]
fn libc_constants() {
    assert_eq!(eval_libc_i32(TargetOs::Linux, LibcConst::Ebusy), 16);
    assert_eq!(eval_libc_i32(TargetOs::Linux, LibcConst::Edeadlk), 35);
    assert_eq!(eval_libc_i32(TargetOs::Linux, LibcConst::Etimedout), 110);
    assert_eq!(eval_libc_i32(TargetOs::Linux, LibcConst::Eagain), 11);
    assert_eq!(eval_libc_i32(TargetOs::MacOs, LibcConst::Edeadlk), 11);
    assert_eq!(eval_libc_i32(TargetOs::MacOs, LibcConst::Etimedout), 60);
    assert_eq!(eval_libc_i32(TargetOs::MacOs, LibcConst::Eagain), 35);
    assert_eq!(eval_libc_i32(TargetOs::MacOs, LibcConst::Eperm), 1);
    assert_eq!(eval_libc_i32(TargetOs::Windows, LibcConst::Einval), 22);
    assert_eq!(eval_libc_i32(TargetOs::Linux, LibcConst::Erange), 34);
}

#[test]
fn dlsym_resolves_known_symbols() {
    let mut ecx = machine(TargetOs::MacOs);
    let known = match ecx.allocate_str("getentropy").unwrap() {
        Immediate::ScalarPair(ptr, _) => ptr.data,
        Immediate::Scalar(_) => panic!("a string slice is a pair"),
    };
    let unknown = match ecx.allocate_str("nonesuch").unwrap() {
        Immediate::ScalarPair(ptr, _) => ptr.data,
        Immediate::Scalar(_) => panic!("a string slice is a pair"),
    };
    let f = result(&mut ecx, "dlsym", &[usize_op(0), usize_op(known)], 8).data;
    assert_ne!(f, 0);
    assert_eq!(ecx.get_ptr_fn(f), Ok(FnVal::Other(Dlsym::GetEntropy)));
    assert_eq!(
        ecx.get_fn_instance(f),
        Err(InterpError::UndefinedBehavior(UbKind::InvalidFunctionPointer))
    );
    assert_eq!(
        result(&mut ecx, "dlsym", &[usize_op(0), usize_op(unknown)], 8),
        Scalar::null_ptr()
    );
    assert_eq!(
        call(&mut ecx, "dlsym", &[usize_op(0), usize_op(0x33)], 8),
        Err(InterpError::UndefinedBehavior(UbKind::UninitializedRead))
    );
}

#[test]
fn thread_local_storage_through_the_catalogue() {
    let mut ecx = machine(TargetOs::Linux);
    let key_place = OpTy::from_ptr(0x600, 4);
    assert_eq!(
        result(&mut ecx, "pthread_key_create", &[key_place, usize_op(0)], 4),
        Scalar::from_i32(0)
    );
    let key = ecx
        .read_scalar_at(&PlaceTy { addr: 0x600, layout: TyLayout { size: 4, pointee: None } })
        .unwrap();
    assert_eq!(key, Scalar::from_u32(1));
    let key_op = OpTy::from_scalar(key);
    assert_eq!(result(&mut ecx, "pthread_getspecific", &[key_op], 8), Scalar::null_ptr());
    assert_eq!(
        result(&mut ecx, "pthread_setspecific", &[key_op, usize_op(0xabc)], 4),
        Scalar::from_i32(0)
    );
    assert_eq!(
        result(&mut ecx, "pthread_getspecific", &[key_op], 8),
        Scalar::from_machine_usize(0xabc)
    );
    let other = ecx.create_thread().unwrap();
    ecx.set_active_thread(other);
    assert_eq!(result(&mut ecx, "pthread_getspecific", &[key_op], 8), Scalar::null_ptr());
    ecx.set_active_thread(0);
    assert_eq!(result(&mut ecx, "pthread_key_delete", &[key_op], 4), Scalar::from_i32(0));
    assert_eq!(
        call(&mut ecx, "pthread_getspecific", &[key_op], 8),
        Err(InterpError::UndefinedBehavior(UbKind::TlsKeyMissing { key: 1 }))
    );
    assert_eq!(
        call(&mut ecx, "pthread_setspecific", &[key_op, usize_op(1)], 4),
        Err(InterpError::UndefinedBehavior(UbKind::TlsKeyMissing { key: 1 }))
    );
    assert_eq!(
        call(&mut ecx, "pthread_key_delete", &[key_op], 4),
        Err(InterpError::UndefinedBehavior(UbKind::TlsKeyMissing { key: 1 }))
    );
}

#[test]
fn key_create_records_the_destructor() {
    let mut ecx = machine(TargetOs::Linux);
    let dtor = ecx.define_fn(Abi::C, 1, false).unwrap();
    let key_place = OpTy::from_ptr(0x600, 8);
    result(&mut ecx, "pthread_key_create", &[key_place, usize_op(dtor.addr)], 4);
    assert_eq!(ecx.tls.keys[&1].dtor, Some(dtor));
    assert_eq!(ecx.tls.keys[&1].value_size, 8);
    assert_eq!(
        call(&mut ecx, "pthread_key_create", &[key_place, usize_op(0x31)], 4),
        Err(InterpError::UndefinedBehavior(UbKind::InvalidFunctionPointer))
    );
    assert_eq!(
        call(&mut ecx, "pthread_key_create", &[usize_op(0x600), usize_op(0)], 4),
        Err(InterpError::UndefinedBehavior(UbKind::NotARawPointer))
    );
    assert_eq!(ecx.tls.keys.len(), 1);
}

#[test]
fn isatty_says_no() {
    let mut ecx = machine(TargetOs::Linux);
    assert_eq!(result(&mut ecx, "isatty", &[i32_op(1)], 4), Scalar::from_i32(0));
    assert_eq!(ecx.get_last_error(), Scalar::from_i32(25));
    assert_eq!(
        result(&mut ecx, "pthread_atfork", &[usize_op(0), usize_op(0), usize_op(0)], 4),
        Scalar::from_i32(0)
    );
}

#[test]
fn stubs_are_for_the_standard_library_only() {
    let mut ecx = machine(TargetOs::Linux);
    let names: [(&str, usize); 7] = [
        ("pthread_attr_init", 1),
        ("pthread_attr_destroy", 1),
        ("pthread_attr_setstacksize", 2),
        ("signal", 2),
        ("sigaltstack", 2),
        ("sigaction", 3),
        ("mprotect", 3),
    ];
    for (name, arity) in names {
        let args = vec![usize_op(1); arity];
        assert_eq!(call(&mut ecx, name, &args, 4), Ok(EmulateByNameResult::NotSupported));
    }
    enter_std(&mut ecx);
    for (name, arity) in names {
        let args = vec![usize_op(1); arity];
        assert_eq!(result(&mut ecx, name, &args, 4), Scalar::from_i32(0), "{}", name);
        assert_eq!(
            call(&mut ecx, name, &args[1..], 4),
            Err(InterpError::UndefinedBehavior(UbKind::WrongArgumentCount {
                got: arity as u64 - 1,
                expected: arity as u64
            }))
        );
    }
}

#[test]
fn guard_size_is_a_page() {
    let mut ecx = machine(TargetOs::Linux);
    let args = [usize_op(0x100), OpTy::from_ptr(0x200, 8)];
    assert_eq!(
        call(&mut ecx, "pthread_attr_getguardsize", &args, 4),
        Ok(EmulateByNameResult::NotSupported)
    );
    enter_std(&mut ecx);
    assert_eq!(result(&mut ecx, "pthread_attr_getguardsize", &args, 4), Scalar::from_i32(0));
    assert_eq!(ecx.read_scalar_at(&word(0x200)), Ok(Scalar::from_machine_usize(4096)));
}

#[test]
fn emulated_call_resumes_its_caller() {
    let mut ecx = machine(TargetOs::Linux);
    enter_std(&mut ecx);
    let place = dest(4);
    assert_eq!(
        ecx.emulate_foreign_item("pthread_mutexattr_init", Abi::C, &[usize_op(0x100)], &place, 9),
        Ok(None)
    );
    assert_eq!(ecx.read_scalar_at(&place), Ok(Scalar::from_i32(0)));
    assert_eq!(ecx.threads[0].stack[0].loc, miri_runtime::thread::FrameLoc::Block(9));
    assert_eq!(
        ecx.emulate_foreign_item("getenv", Abi::C, &[usize_op(0x100)], &dest(8), 11),
        Ok(Some(HostCall::Getenv))
    );
    assert_eq!(ecx.threads[0].stack[0].loc, miri_runtime::thread::FrameLoc::Block(9));
    assert_eq!(
        ecx.emulate_foreign_item("pthread_mutex_lock", Abi::C, &[usize_op(0x100)], &place, 12),
        Err(InterpError::UndefinedBehavior(UbKind::UninitializedSyncObject))
    );
    assert_eq!(ecx.threads[0].stack[0].loc, miri_runtime::thread::FrameLoc::Block(9));
}

#[test]
fn unknown_foreign_function_is_unsupported_or_panics() {
    let mut ecx = machine(TargetOs::Linux);
    assert_eq!(
        ecx.emulate_foreign_item("frobnicate", Abi::C, &[], &dest(4), 9),
        Err(InterpError::Unsupported(UnsupportedKind::ForeignFunction))
    );
    let panic_fn = ecx.define_fn(Abi::Rust, 1, true).unwrap();
    let bounds_fn = ecx.define_fn(Abi::Rust, 2, true).unwrap();
    ecx.set_lang_items(panic_fn, bounds_fn);
    ecx.set_panic_on_unsupported(true);
    assert_eq!(ecx.emulate_foreign_item("frobnicate", Abi::C, &[], &dest(4), 9), Ok(None));
    let frame = &ecx.threads[0].stack[0];
    assert_eq!(frame.instance, panic_fn);
    match frame.args[0] {
        Immediate::ScalarPair(ptr, len) => {
            assert_eq!(ecx.strings[&ptr.data], "can't call foreign function: frobnicate");
            assert_eq!(len, Scalar::from_machine_usize(39));
        }
        Immediate::Scalar(_) => panic!("the message is a string slice"),
    }
}

#[test]
fn windows_machine_uses_the_windows_catalogue() {
    let mut ecx = machine(TargetOs::Windows);
    assert_eq!(
        ecx.emulate_foreign_item("pthread_self", Abi::C, &[], &dest(8), 9),
        Err(InterpError::Unsupported(UnsupportedKind::ForeignFunction))
    );
    assert_eq!(ecx.emulate_foreign_item("GetLastError", Abi::System, &[], &dest(4), 9), Ok(None));
    assert_eq!(ecx.read_scalar_at(&dest(4)), Ok(Scalar::from_u32(0)));
    let mut linux = machine(TargetOs::Linux);
    assert_eq!(
        linux.emulate_foreign_item("GetLastError", Abi::System, &[], &dest(4), 9),
        Err(InterpError::Unsupported(UnsupportedKind::ForeignFunction))
    );
}

#[test]
fn blocked_caller_stays_at_its_call() {
    let mut ecx = machine(TargetOs::Linux);
    enter_std(&mut ecx);
    let place = dest(4);
    let mutex = [usize_op(0x100)];
    assert_eq!(
        ecx.emulate_foreign_item("pthread_mutex_init", Abi::C, &[usize_op(0x100), usize_op(0)], &place, 1),
        Ok(None)
    );
    assert_eq!(ecx.emulate_foreign_item("pthread_mutex_lock", Abi::C, &mutex, &place, 2), Ok(None));
    assert_eq!(ecx.threads[0].stack[0].loc, miri_runtime::thread::FrameLoc::Block(2));
    ecx.memory.remove(&DEST);
    // A normal mutex that its owner locks again blocks the owner at the call.
    assert_eq!(ecx.emulate_foreign_item("pthread_mutex_lock", Abi::C, &mutex, &place, 3), Ok(None));
    assert_eq!(ecx.threads[0].stack[0].loc, miri_runtime::thread::FrameLoc::Block(2));
    assert!(ecx.read_scalar_at(&place).is_err());
    assert_eq!(
        ecx.threads[0].state,
        miri_runtime::thread::ThreadState::Blocked(miri_runtime::thread::BlockReason::Mutex(0x100))
    );
}
