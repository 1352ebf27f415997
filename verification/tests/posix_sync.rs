use miri_runtime::errors::{InterpError, InterpResult, UbKind, UnsupportedKind};
use miri_runtime::eval_context::{MiriEvalContext, PanicStrategy, TargetOs};
use miri_runtime::scalar::{OpTy, PlaceTy, Scalar, TyLayout};
use miri_runtime::shims::foreign_items::EmulateByNameResult;
use miri_runtime::shims::posix::foreign_items::EvalContextExt;
use miri_runtime::shims::posix::sync::timespec_to_nanos;
use miri_runtime::sync::mutex::MutexKind;
use miri_runtime::thread::{Abi, BlockReason, SchedulingAction, ThreadOutcome, ThreadState};

const MUTEX: u64 = 0x1000;
const COND: u64 = 0x2000;
const RWLOCK: u64 = 0x3000;
const ATTR: u64 = 0x4000;
const DEST: u64 = 0x9000;

fn machine(os: TargetOs) -> MiriEvalContext {
    MiriEvalContext::new(os, PanicStrategy::Unwind, false)
}

fn ptr(addr: u64) -> OpTy {
    OpTy::from_ptr(addr, 40)
}

fn int_op(v: i32) -> OpTy {
    OpTy::from_scalar(Scalar::from_i32(v))
}

fn dest() -> PlaceTy {
    PlaceTy { addr: DEST, layout: TyLayout { size: 4, pointee: None } }
}

fn call(ecx: &mut MiriEvalContext, name: &str, args: &[OpTy]) -> InterpResult<EmulateByNameResult> {
    ecx.emulate_foreign_item_by_name(name, Abi::C, args, &dest(), 0)
}

fn status(ecx: &mut MiriEvalContext, name: &str, args: &[OpTy]) -> i32 {
    ecx.memory.remove(&DEST);
    assert_eq!(call(ecx, name, args), Ok(EmulateByNameResult::NeedsJumping), "{}", name);
    ecx.read_scalar_at(&dest()).unwrap().to_i32().unwrap()
}

fn blocks(ecx: &mut MiriEvalContext, name: &str, args: &[OpTy]) {
    ecx.memory.remove(&DEST);
    assert_eq!(call(ecx, name, args), Ok(EmulateByNameResult::Blocked), "{}", name);
    assert!(ecx.read_scalar_at(&dest()).is_err(), "{} wrote a status", name);
}

fn failure(ecx: &mut MiriEvalContext, name: &str, args: &[OpTy]) -> InterpError {
    ecx.memory.remove(&DEST);
    let err = call(ecx, name, args).unwrap_err();
    assert!(ecx.read_scalar_at(&dest()).is_err(), "{} wrote a result", name);
    err
}

fn spawn(ecx: &mut MiriEvalContext) -> u32 {
    let start = ecx.define_fn(Abi::C, 1, false).unwrap();
    let id_place = 0x8000 + 8 * ecx.threads.len() as u64;
    let args = [
        OpTy::from_ptr(id_place, 8),
        ptr(0),
        OpTy::from_scalar(Scalar::from_machine_usize(start.addr)),
        OpTy::from_scalar(Scalar::from_machine_usize(0)),
    ];
    assert_eq!(status(ecx, "pthread_create", &args), 0);
    ecx.memory[&id_place].data as u32
}

fn mutex_of_kind(ecx: &mut MiriEvalContext, kind: i32) {
    assert_eq!(status(ecx, "pthread_mutexattr_init", &[ptr(ATTR)]), 0);
    assert_eq!(status(ecx, "pthread_mutexattr_settype", &[ptr(ATTR), int_op(kind)]), 0);
    assert_eq!(status(ecx, "pthread_mutex_init", &[ptr(MUTEX), ptr(ATTR)]), 0);
    assert_eq!(status(ecx, "pthread_mutexattr_destroy", &[ptr(ATTR)]), 0);
}

#[test]
fn condvar_scenario_wait_signal_wake() {
    let mut ecx = machine(TargetOs::Linux);
    let b = spawn(&mut ecx);
    assert_eq!(status(&mut ecx, "pthread_mutex_init", &[ptr(MUTEX), ptr(0)]), 0);
    assert_eq!(status(&mut ecx, "pthread_cond_init", &[ptr(COND), ptr(0)]), 0);

    // A takes the mutex and waits.
    assert_eq!(status(&mut ecx, "pthread_mutex_lock", &[ptr(MUTEX)]), 0);
    blocks(&mut ecx, "pthread_cond_wait", &[ptr(COND), ptr(MUTEX)]);
    assert_eq!(
        ecx.threads[0].state,
        ThreadState::Blocked(BlockReason::Condvar { cond: COND, mutex: MUTEX })
    );
    assert_eq!(ecx.sync.mutexes[&MUTEX].owner, None);

    // B runs, takes the mutex, leaves a value behind, signals, and lets go.
    assert_eq!(ecx.schedule(), Ok(SchedulingAction::ExecuteStep));
    assert_eq!(ecx.get_active_thread(), b);
    assert_eq!(status(&mut ecx, "pthread_mutex_lock", &[ptr(MUTEX)]), 0);
    let shared = PlaceTy { addr: 0x5000, layout: TyLayout { size: 4, pointee: None } };
    ecx.write_scalar(Scalar::from_i32(42), &shared).unwrap();
    assert_eq!(status(&mut ecx, "pthread_cond_signal", &[ptr(COND)]), 0);
    assert_eq!(ecx.threads[0].state, ThreadState::Runnable);
    assert!(!ecx.sync.condvars[&COND].is_awaited());
    assert_eq!(ecx.sync.mutexes[&MUTEX].owner, Some(b));
    assert_eq!(status(&mut ecx, "pthread_mutex_unlock", &[ptr(MUTEX)]), 0);
    assert_eq!(ecx.sync.mutexes[&MUTEX].owner, None);
    ecx.finish_active_thread(ThreadOutcome::Returned(Scalar::from_machine_usize(0))).unwrap();

    // A runs again: its wait returns once it holds the mutex again.
    assert_eq!(ecx.schedule(), Ok(SchedulingAction::ExecuteStep));
    assert_eq!(ecx.get_active_thread(), 0);
    assert_eq!(status(&mut ecx, "pthread_cond_wait", &[ptr(COND), ptr(MUTEX)]), 0);
    assert_eq!(ecx.threads[0].state, ThreadState::Runnable);
    assert_eq!(ecx.threads[0].resume, None);
    assert_eq!(ecx.sync.mutexes[&MUTEX].owner, Some(0));
    assert_eq!(ecx.sync.mutexes[&MUTEX].hold_count, 1);
    assert_eq!(ecx.read_scalar_at(&shared), Ok(Scalar::from_i32(42)));
    assert_eq!(status(&mut ecx, "pthread_mutex_unlock", &[ptr(MUTEX)]), 0);
}

#[test]
fn signalled_waiter_waits_for_the_mutex() {
    let mut ecx = machine(TargetOs::Linux);
    let b = spawn(&mut ecx);
    status(&mut ecx, "pthread_mutex_init", &[ptr(MUTEX), ptr(0)]);
    status(&mut ecx, "pthread_cond_init", &[ptr(COND), ptr(0)]);
    status(&mut ecx, "pthread_mutex_lock", &[ptr(MUTEX)]);
    blocks(&mut ecx, "pthread_cond_wait", &[ptr(COND), ptr(MUTEX)]);
    ecx.set_active_thread(b);
    status(&mut ecx, "pthread_mutex_lock", &[ptr(MUTEX)]);
    status(&mut ecx, "pthread_cond_signal", &[ptr(COND)]);
    // A runs before B has let go of the mutex.
    ecx.set_active_thread(0);
    blocks(&mut ecx, "pthread_cond_wait", &[ptr(COND), ptr(MUTEX)]);
    assert_eq!(ecx.threads[0].state, ThreadState::Blocked(BlockReason::Mutex(MUTEX)));
    assert_eq!(ecx.sync.mutexes[&MUTEX].owner, Some(b));
    ecx.set_active_thread(b);
    status(&mut ecx, "pthread_mutex_unlock", &[ptr(MUTEX)]);
    assert_eq!(ecx.threads[0].state, ThreadState::Runnable);
    assert_eq!(ecx.sync.mutexes[&MUTEX].owner, None);
    ecx.set_active_thread(0);
    assert_eq!(status(&mut ecx, "pthread_cond_wait", &[ptr(COND), ptr(MUTEX)]), 0);
    assert_eq!(ecx.sync.mutexes[&MUTEX].owner, Some(0));
}

#[test]
fn signal_with_a_free_mutex_wakes_at_once() {
    let mut ecx = machine(TargetOs::Linux);
    let b = spawn(&mut ecx);
    status(&mut ecx, "pthread_mutex_init", &[ptr(MUTEX), ptr(0)]);
    status(&mut ecx, "pthread_cond_init", &[ptr(COND), ptr(0)]);
    status(&mut ecx, "pthread_mutex_lock", &[ptr(MUTEX)]);
    blocks(&mut ecx, "pthread_cond_wait", &[ptr(COND), ptr(MUTEX)]);
    ecx.set_active_thread(b);
    assert_eq!(status(&mut ecx, "pthread_cond_signal", &[ptr(COND)]), 0);
    assert_eq!(ecx.threads[0].state, ThreadState::Runnable);
    assert_eq!(ecx.sync.mutexes[&MUTEX].owner, None);
    assert_eq!(status(&mut ecx, "pthread_cond_signal", &[ptr(COND)]), 0);
    ecx.set_active_thread(0);
    assert_eq!(status(&mut ecx, "pthread_cond_wait", &[ptr(COND), ptr(MUTEX)]), 0);
    assert_eq!(ecx.sync.mutexes[&MUTEX].owner, Some(0));
}

#[test]
fn broadcast_wakes_every_waiter() {
    let mut ecx = machine(TargetOs::Linux);
    let b = spawn(&mut ecx);
    let c = spawn(&mut ecx);
    let d = spawn(&mut ecx);
    status(&mut ecx, "pthread_mutex_init", &[ptr(MUTEX), ptr(0)]);
    status(&mut ecx, "pthread_cond_init", &[ptr(COND), ptr(0)]);
    for t in [c, b, d] {
        ecx.set_active_thread(t);
        assert_eq!(status(&mut ecx, "pthread_mutex_lock", &[ptr(MUTEX)]), 0);
        blocks(&mut ecx, "pthread_cond_wait", &[ptr(COND), ptr(MUTEX)]);
    }
    ecx.set_active_thread(0);
    assert_eq!(status(&mut ecx, "pthread_cond_broadcast", &[ptr(COND)]), 0);
    assert!(!ecx.sync.condvars[&COND].is_awaited());
    assert_eq!(ecx.sync.mutexes[&MUTEX].owner, None);
    for t in [b, c, d] {
        assert_eq!(ecx.threads[t as usize].state, ThreadState::Runnable);
    }
    // Each makes its call again; one gets the mutex, the others wait for it.
    ecx.set_active_thread(c);
    assert_eq!(status(&mut ecx, "pthread_cond_wait", &[ptr(COND), ptr(MUTEX)]), 0);
    assert_eq!(ecx.sync.mutexes[&MUTEX].owner, Some(c));
    for t in [b, d] {
        ecx.set_active_thread(t);
        blocks(&mut ecx, "pthread_cond_wait", &[ptr(COND), ptr(MUTEX)]);
        assert_eq!(ecx.threads[t as usize].state, ThreadState::Blocked(BlockReason::Mutex(MUTEX)));
    }
    ecx.set_active_thread(c);
    status(&mut ecx, "pthread_mutex_unlock", &[ptr(MUTEX)]);
    assert_eq!(ecx.sync.mutexes[&MUTEX].owner, None);
    assert_eq!(ecx.threads[b as usize].state, ThreadState::Runnable);
    assert_eq!(ecx.threads[d as usize].state, ThreadState::Blocked(BlockReason::Mutex(MUTEX)));
    ecx.set_active_thread(b);
    assert_eq!(status(&mut ecx, "pthread_cond_wait", &[ptr(COND), ptr(MUTEX)]), 0);
    assert_eq!(ecx.sync.mutexes[&MUTEX].owner, Some(b));
}

#[test]
fn wait_needs_the_mutex_held_once() {
    let mut ecx = machine(TargetOs::Linux);
    status(&mut ecx, "pthread_cond_init", &[ptr(COND), ptr(0)]);
    assert_eq!(
        failure(&mut ecx, "pthread_cond_wait", &[ptr(COND), ptr(MUTEX)]),
        InterpError::UndefinedBehavior(UbKind::UninitializedSyncObject)
    );
    mutex_of_kind(&mut ecx, 1);
    assert_eq!(
        failure(&mut ecx, "pthread_cond_wait", &[ptr(COND), ptr(MUTEX)]),
        InterpError::UndefinedBehavior(UbKind::CondWaitMutexNotOwned)
    );
    status(&mut ecx, "pthread_mutex_lock", &[ptr(MUTEX)]);
    status(&mut ecx, "pthread_mutex_lock", &[ptr(MUTEX)]);
    assert_eq!(
        failure(&mut ecx, "pthread_cond_wait", &[ptr(COND), ptr(MUTEX)]),
        InterpError::Unsupported(UnsupportedKind::CondWaitRecursiveMutex)
    );
    assert_eq!(ecx.threads[0].state, ThreadState::Runnable);
    assert_eq!(ecx.sync.mutexes[&MUTEX].hold_count, 2);
}

#[test]
fn destroying_objects_in_use_is_a_violation() {
    let mut ecx = machine(TargetOs::Linux);
    let b = spawn(&mut ecx);
    status(&mut ecx, "pthread_mutex_init", &[ptr(MUTEX), ptr(0)]);
    status(&mut ecx, "pthread_cond_init", &[ptr(COND), ptr(0)]);
    status(&mut ecx, "pthread_mutex_lock", &[ptr(MUTEX)]);
    assert_eq!(
        failure(&mut ecx, "pthread_mutex_destroy", &[ptr(MUTEX)]),
        InterpError::UndefinedBehavior(UbKind::DestroyLockedMutex)
    );
    blocks(&mut ecx, "pthread_cond_wait", &[ptr(COND), ptr(MUTEX)]);
    ecx.set_active_thread(b);
    assert_eq!(
        failure(&mut ecx, "pthread_cond_destroy", &[ptr(COND)]),
        InterpError::UndefinedBehavior(UbKind::DestroyAwaitedCondvar)
    );
    status(&mut ecx, "pthread_cond_signal", &[ptr(COND)]);
    ecx.set_active_thread(0);
    assert_eq!(status(&mut ecx, "pthread_cond_wait", &[ptr(COND), ptr(MUTEX)]), 0);
    assert_eq!(status(&mut ecx, "pthread_cond_destroy", &[ptr(COND)]), 0);
    assert!(!ecx.sync.condvars.contains_key(&COND));
    status(&mut ecx, "pthread_mutex_unlock", &[ptr(MUTEX)]);
    assert_eq!(status(&mut ecx, "pthread_mutex_destroy", &[ptr(MUTEX)]), 0);
    assert!(!ecx.sync.mutexes.contains_key(&MUTEX));
    status(&mut ecx, "pthread_rwlock_rdlock", &[ptr(RWLOCK)]);
    assert_eq!(
        failure(&mut ecx, "pthread_rwlock_destroy", &[ptr(RWLOCK)]),
        InterpError::UndefinedBehavior(UbKind::DestroyLockedRwLock)
    );
    status(&mut ecx, "pthread_rwlock_unlock", &[ptr(RWLOCK)]);
    assert_eq!(status(&mut ecx, "pthread_rwlock_destroy", &[ptr(RWLOCK)]), 0);
}

#[test]
fn objects_must_be_initialized() {
    let mut ecx = machine(TargetOs::Linux);
    let uninit = InterpError::UndefinedBehavior(UbKind::UninitializedSyncObject);
    for name in [
        "pthread_mutex_lock",
        "pthread_mutex_trylock",
        "pthread_mutex_unlock",
        "pthread_mutex_destroy",
        "pthread_rwlock_unlock",
        "pthread_rwlock_destroy",
        "pthread_cond_signal",
        "pthread_cond_broadcast",
        "pthread_cond_destroy",
        "pthread_mutexattr_destroy",
        "pthread_condattr_destroy",
    ] {
        assert_eq!(failure(&mut ecx, name, &[ptr(0x7000)]), uninit, "{}", name);
    }
    assert_eq!(failure(&mut ecx, "pthread_mutex_init", &[ptr(MUTEX), ptr(ATTR)]), uninit);
    assert_eq!(failure(&mut ecx, "pthread_cond_init", &[ptr(COND), ptr(ATTR)]), uninit);
    assert_eq!(failure(&mut ecx, "pthread_mutexattr_settype", &[ptr(ATTR), int_op(0)]), uninit);
    assert_eq!(
        failure(&mut ecx, "pthread_mutex_lock", &[ptr(0)]),
        InterpError::UndefinedBehavior(UbKind::NullDereference)
    );
}

#[test]
fn init_again_resets_the_object() {
    let mut ecx = machine(TargetOs::Linux);
    status(&mut ecx, "pthread_mutex_init", &[ptr(MUTEX), ptr(0)]);
    status(&mut ecx, "pthread_mutex_lock", &[ptr(MUTEX)]);
    assert_eq!(status(&mut ecx, "pthread_mutex_init", &[ptr(MUTEX), ptr(0)]), 0);
    assert_eq!(ecx.sync.mutexes[&MUTEX].owner, None);
    assert_eq!(ecx.sync.mutexes[&MUTEX].hold_count, 0);
    assert_eq!(ecx.sync.mutexes[&MUTEX].kind, MutexKind::Normal);
}

#[test]
fn mutex_kinds_on_linux() {
    let mut ecx = machine(TargetOs::Linux);
    mutex_of_kind(&mut ecx, 1);
    assert_eq!(ecx.sync.mutexes[&MUTEX].kind, MutexKind::Recursive);
    mutex_of_kind(&mut ecx, 2);
    assert_eq!(ecx.sync.mutexes[&MUTEX].kind, MutexKind::ErrorCheck);
    mutex_of_kind(&mut ecx, 0);
    assert_eq!(ecx.sync.mutexes[&MUTEX].kind, MutexKind::Normal);
    status(&mut ecx, "pthread_mutexattr_init", &[ptr(ATTR)]);
    assert_eq!(status(&mut ecx, "pthread_mutexattr_settype", &[ptr(ATTR), int_op(3)]), 22);
    assert_eq!(ecx.sync.mutexattrs[&ATTR], MutexKind::Normal);
}

#[test]
fn mutex_kinds_on_macos() {
    let mut ecx = machine(TargetOs::MacOs);
    mutex_of_kind(&mut ecx, 1);
    assert_eq!(ecx.sync.mutexes[&MUTEX].kind, MutexKind::ErrorCheck);
    mutex_of_kind(&mut ecx, 2);
    assert_eq!(ecx.sync.mutexes[&MUTEX].kind, MutexKind::Recursive);
}

#[test]
fn errorcheck_mutex_returns_edeadlk() {
    let mut ecx = machine(TargetOs::Linux);
    mutex_of_kind(&mut ecx, 2);
    assert_eq!(status(&mut ecx, "pthread_mutex_lock", &[ptr(MUTEX)]), 0);
    assert_eq!(status(&mut ecx, "pthread_mutex_lock", &[ptr(MUTEX)]), 35);
    assert_eq!(ecx.threads[0].state, ThreadState::Runnable);
    let mut mac = machine(TargetOs::MacOs);
    mutex_of_kind(&mut mac, 1);
    assert_eq!(status(&mut mac, "pthread_mutex_lock", &[ptr(MUTEX)]), 0);
    assert_eq!(status(&mut mac, "pthread_mutex_lock", &[ptr(MUTEX)]), 11);
}

#[test]
fn recursive_mutex_through_the_catalogue() {
    let mut ecx = machine(TargetOs::Linux);
    let b = spawn(&mut ecx);
    mutex_of_kind(&mut ecx, 1);
    for _ in 0..3 {
        assert_eq!(status(&mut ecx, "pthread_mutex_lock", &[ptr(MUTEX)]), 0);
    }
    for remaining in [2, 1] {
        assert_eq!(status(&mut ecx, "pthread_mutex_unlock", &[ptr(MUTEX)]), 0);
        assert_eq!(ecx.sync.mutexes[&MUTEX].hold_count, remaining);
        ecx.set_active_thread(b);
        assert_eq!(status(&mut ecx, "pthread_mutex_trylock", &[ptr(MUTEX)]), 16);
        ecx.set_active_thread(0);
    }
    assert_eq!(status(&mut ecx, "pthread_mutex_unlock", &[ptr(MUTEX)]), 0);
    ecx.set_active_thread(b);
    assert_eq!(status(&mut ecx, "pthread_mutex_trylock", &[ptr(MUTEX)]), 0);
    assert_eq!(ecx.sync.mutexes[&MUTEX].owner, Some(b));
}

#[test]
fn recursive_mutex_with_a_waiter_needs_exactly_its_unlocks() {
    let mut ecx = machine(TargetOs::Linux);
    let b = spawn(&mut ecx);
    let c = spawn(&mut ecx);
    mutex_of_kind(&mut ecx, 1);
    for _ in 0..3 {
        assert_eq!(status(&mut ecx, "pthread_mutex_lock", &[ptr(MUTEX)]), 0);
    }
    ecx.set_active_thread(b);
    blocks(&mut ecx, "pthread_mutex_lock", &[ptr(MUTEX)]);
    for remaining in [2, 1] {
        ecx.set_active_thread(0);
        assert_eq!(status(&mut ecx, "pthread_mutex_unlock", &[ptr(MUTEX)]), 0);
        assert_eq!(ecx.sync.mutexes[&MUTEX].hold_count, remaining);
        assert_eq!(ecx.sync.mutexes[&MUTEX].owner, Some(0));
        assert_eq!(ecx.threads[b as usize].state, ThreadState::Blocked(BlockReason::Mutex(MUTEX)));
        ecx.set_active_thread(c);
        assert_eq!(status(&mut ecx, "pthread_mutex_trylock", &[ptr(MUTEX)]), 16);
    }
    ecx.set_active_thread(0);
    assert_eq!(status(&mut ecx, "pthread_mutex_unlock", &[ptr(MUTEX)]), 0);
    assert_eq!(ecx.sync.mutexes[&MUTEX].owner, None);
    assert_eq!(ecx.sync.mutexes[&MUTEX].hold_count, 0);
    assert_eq!(ecx.threads[b as usize].state, ThreadState::Runnable);
    // The mutex is free: a third thread can take it before the woken one.
    ecx.set_active_thread(c);
    assert_eq!(status(&mut ecx, "pthread_mutex_trylock", &[ptr(MUTEX)]), 0);
    assert_eq!(ecx.sync.mutexes[&MUTEX].owner, Some(c));
    ecx.set_active_thread(b);
    blocks(&mut ecx, "pthread_mutex_lock", &[ptr(MUTEX)]);
    ecx.set_active_thread(c);
    assert_eq!(status(&mut ecx, "pthread_mutex_unlock", &[ptr(MUTEX)]), 0);
    ecx.set_active_thread(b);
    assert_eq!(status(&mut ecx, "pthread_mutex_lock", &[ptr(MUTEX)]), 0);
    assert_eq!(ecx.sync.mutexes[&MUTEX].owner, Some(b));
}

#[test]
fn normal_mutex_blocks_and_wakes() {
    let mut ecx = machine(TargetOs::Linux);
    let b = spawn(&mut ecx);
    status(&mut ecx, "pthread_mutex_init", &[ptr(MUTEX), ptr(0)]);
    assert_eq!(status(&mut ecx, "pthread_mutex_lock", &[ptr(MUTEX)]), 0);
    ecx.set_active_thread(b);
    blocks(&mut ecx, "pthread_mutex_lock", &[ptr(MUTEX)]);
    assert_eq!(ecx.threads[b as usize].state, ThreadState::Blocked(BlockReason::Mutex(MUTEX)));
    assert_eq!(ecx.sync.mutexes[&MUTEX].owner, Some(0));
    assert_eq!(
        failure(&mut ecx, "pthread_mutex_unlock", &[ptr(MUTEX)]),
        InterpError::UndefinedBehavior(UbKind::MutexNotOwner)
    );
    ecx.set_active_thread(0);
    assert_eq!(status(&mut ecx, "pthread_mutex_unlock", &[ptr(MUTEX)]), 0);
    assert_eq!(ecx.threads[b as usize].state, ThreadState::Runnable);
    assert_eq!(ecx.sync.mutexes[&MUTEX].owner, None);
    ecx.set_active_thread(b);
    assert_eq!(status(&mut ecx, "pthread_mutex_lock", &[ptr(MUTEX)]), 0);
    assert_eq!(ecx.sync.mutexes[&MUTEX].owner, Some(b));
}

#[test]
fn normal_mutex_relocked_by_its_owner_deadlocks() {
    let mut ecx = machine(TargetOs::Linux);
    status(&mut ecx, "pthread_mutex_init", &[ptr(MUTEX), ptr(0)]);
    assert_eq!(status(&mut ecx, "pthread_mutex_lock", &[ptr(MUTEX)]), 0);
    blocks(&mut ecx, "pthread_mutex_lock", &[ptr(MUTEX)]);
    assert_eq!(ecx.threads[0].state, ThreadState::Blocked(BlockReason::Mutex(MUTEX)));
    assert_eq!(
        ecx.schedule(),
        Err(InterpError::MachineStop(miri_runtime::errors::TerminationInfo::Deadlock))
    );
}

#[test]
fn rwlock_through_the_catalogue() {
    let mut ecx = machine(TargetOs::Linux);
    let b = spawn(&mut ecx);
    let c = spawn(&mut ecx);
    assert_eq!(status(&mut ecx, "pthread_rwlock_wrlock", &[ptr(RWLOCK)]), 0);
    ecx.set_active_thread(b);
    assert_eq!(status(&mut ecx, "pthread_rwlock_tryrdlock", &[ptr(RWLOCK)]), 16);
    assert_eq!(status(&mut ecx, "pthread_rwlock_trywrlock", &[ptr(RWLOCK)]), 16);
    blocks(&mut ecx, "pthread_rwlock_rdlock", &[ptr(RWLOCK)]);
    assert_eq!(
        ecx.threads[b as usize].state,
        ThreadState::Blocked(BlockReason::RwLockRead(RWLOCK))
    );
    ecx.set_active_thread(c);
    blocks(&mut ecx, "pthread_rwlock_rdlock", &[ptr(RWLOCK)]);
    assert_eq!(
        failure(&mut ecx, "pthread_rwlock_unlock", &[ptr(RWLOCK)]),
        InterpError::UndefinedBehavior(UbKind::RwLockNotHeld)
    );
    ecx.set_active_thread(0);
    assert_eq!(status(&mut ecx, "pthread_rwlock_unlock", &[ptr(RWLOCK)]), 0);
    assert_eq!(ecx.threads[b as usize].state, ThreadState::Runnable);
    assert_eq!(ecx.threads[c as usize].state, ThreadState::Runnable);
    assert_eq!(ecx.sync.rwlocks[&RWLOCK].writer, None);
    assert!(ecx.sync.rwlocks[&RWLOCK].readers.is_empty());
    for t in [b, c] {
        ecx.set_active_thread(t);
        assert_eq!(status(&mut ecx, "pthread_rwlock_rdlock", &[ptr(RWLOCK)]), 0);
    }
    assert_eq!(ecx.sync.rwlocks[&RWLOCK].readers.len(), 2);
    ecx.set_active_thread(0);
    blocks(&mut ecx, "pthread_rwlock_wrlock", &[ptr(RWLOCK)]);
    assert_eq!(
        ecx.threads[0].state,
        ThreadState::Blocked(BlockReason::RwLockWrite(RWLOCK))
    );
    ecx.set_active_thread(b);
    status(&mut ecx, "pthread_rwlock_unlock", &[ptr(RWLOCK)]);
    assert_eq!(ecx.threads[0].state, ThreadState::Blocked(BlockReason::RwLockWrite(RWLOCK)));
    ecx.set_active_thread(c);
    status(&mut ecx, "pthread_rwlock_unlock", &[ptr(RWLOCK)]);
    assert_eq!(ecx.threads[0].state, ThreadState::Runnable);
    assert_eq!(ecx.sync.rwlocks[&RWLOCK].writer, None);
    ecx.set_active_thread(0);
    assert_eq!(status(&mut ecx, "pthread_rwlock_wrlock", &[ptr(RWLOCK)]), 0);
    assert_eq!(ecx.sync.rwlocks[&RWLOCK].writer, Some(0));
}

fn timespec(ecx: &mut MiriEvalContext, addr: u64, sec: i64, nsec: i64) -> OpTy {
    let word = TyLayout { size: 8, pointee: None };
    ecx.write_scalar(Scalar::from_i64(sec), &PlaceTy { addr, layout: word }).unwrap();
    ecx.write_scalar(Scalar::from_i64(nsec), &PlaceTy { addr: addr + 8, layout: word }).unwrap();
    OpTy::from_ptr(addr, 16)
}

#[test]
fn timed_wait_times_out() {
    let mut ecx = machine(TargetOs::Linux);
    let b = spawn(&mut ecx);
    status(&mut ecx, "pthread_mutex_init", &[ptr(MUTEX), ptr(0)]);
    status(&mut ecx, "pthread_cond_init", &[ptr(COND), ptr(0)]);
    status(&mut ecx, "pthread_mutex_lock", &[ptr(MUTEX)]);
    let abstime = timespec(&mut ecx, 0x6000, 2, 500);
    blocks(&mut ecx, "pthread_cond_timedwait", &[ptr(COND), ptr(MUTEX), abstime]);
    assert_eq!(ecx.threads[0].timeout.unwrap().deadline, 2_000_000_500);
    assert_eq!(
        ecx.threads[0].state,
        ThreadState::Blocked(BlockReason::Condvar { cond: COND, mutex: MUTEX })
    );
    ecx.timeout_thread(b);
    assert_eq!(ecx.clock, 0);
    ecx.timeout_thread(0);
    assert_eq!(ecx.clock, 2_000_000_500);
    assert_eq!(ecx.threads[0].state, ThreadState::Runnable);
    assert_eq!(ecx.threads[0].timeout, None);
    assert!(!ecx.sync.condvars[&COND].is_awaited());
    assert_eq!(ecx.sync.mutexes[&MUTEX].owner, None);
    assert!(ecx.read_scalar_at(&dest()).is_err());
    // The wait returns as timed out once the thread holds the mutex again.
    assert_eq!(status(&mut ecx, "pthread_cond_timedwait", &[ptr(COND), ptr(MUTEX), abstime]), 110);
    assert_eq!(ecx.sync.mutexes[&MUTEX].owner, Some(0));
    assert_eq!(ecx.threads[0].resume, None);
    ecx.timeout_thread(0);
    assert_eq!(ecx.threads[0].state, ThreadState::Runnable);
    assert_eq!(ecx.threads[0].resume, None);
}

#[test]
fn timed_wait_that_is_signalled_returns_zero() {
    let mut ecx = machine(TargetOs::MacOs);
    let b = spawn(&mut ecx);
    status(&mut ecx, "pthread_mutex_init", &[ptr(MUTEX), ptr(0)]);
    status(&mut ecx, "pthread_cond_init", &[ptr(COND), ptr(0)]);
    status(&mut ecx, "pthread_mutex_lock", &[ptr(MUTEX)]);
    let abstime = timespec(&mut ecx, 0x6000, 1, 0);
    blocks(&mut ecx, "pthread_cond_timedwait", &[ptr(COND), ptr(MUTEX), abstime]);
    ecx.set_active_thread(b);
    assert_eq!(status(&mut ecx, "pthread_cond_signal", &[ptr(COND)]), 0);
    assert_eq!(ecx.threads[0].state, ThreadState::Runnable);
    assert_eq!(ecx.threads[0].timeout, None);
    ecx.timeout_thread(0);
    assert_eq!(ecx.clock, 0);
    ecx.set_active_thread(0);
    assert_eq!(status(&mut ecx, "pthread_cond_timedwait", &[ptr(COND), ptr(MUTEX), abstime]), 0);
    assert_eq!(ecx.sync.mutexes[&MUTEX].owner, Some(0));
}

#[test]
fn timed_wait_times_out_on_macos_with_its_error_number() {
    let mut ecx = machine(TargetOs::MacOs);
    status(&mut ecx, "pthread_mutex_init", &[ptr(MUTEX), ptr(0)]);
    status(&mut ecx, "pthread_cond_init", &[ptr(COND), ptr(0)]);
    status(&mut ecx, "pthread_mutex_lock", &[ptr(MUTEX)]);
    let abstime = timespec(&mut ecx, 0x6000, 0, 7);
    blocks(&mut ecx, "pthread_cond_timedwait", &[ptr(COND), ptr(MUTEX), abstime]);
    assert_eq!(ecx.schedule(), Ok(SchedulingAction::ExecuteTimeoutCallback));
    assert_eq!(ecx.clock, 7);
    assert_eq!(ecx.schedule(), Ok(SchedulingAction::ExecuteStep));
    assert_eq!(status(&mut ecx, "pthread_cond_timedwait", &[ptr(COND), ptr(MUTEX), abstime]), 60);
}

#[test]
fn timed_wait_refuses_a_time_that_is_none() {
    let mut ecx = machine(TargetOs::Linux);
    status(&mut ecx, "pthread_mutex_init", &[ptr(MUTEX), ptr(0)]);
    status(&mut ecx, "pthread_cond_init", &[ptr(COND), ptr(0)]);
    status(&mut ecx, "pthread_mutex_lock", &[ptr(MUTEX)]);
    let abstime = timespec(&mut ecx, 0x6000, 1, 1_000_000_000);
    assert_eq!(status(&mut ecx, "pthread_cond_timedwait", &[ptr(COND), ptr(MUTEX), abstime]), 22);
    assert_eq!(ecx.threads[0].state, ThreadState::Runnable);
    let negative = timespec(&mut ecx, 0x6000, -1, 0);
    assert_eq!(status(&mut ecx, "pthread_cond_timedwait", &[ptr(COND), ptr(MUTEX), negative]), 22);
    assert_eq!(ecx.sync.mutexes[&MUTEX].owner, Some(0));
}

#[test]
fn times_in_nanoseconds() {
    assert_eq!(timespec_to_nanos(0, 0), Some(0));
    assert_eq!(timespec_to_nanos(3, 7), Some(3_000_000_007));
    assert_eq!(timespec_to_nanos(0, 999_999_999), Some(999_999_999));
    assert_eq!(timespec_to_nanos(0, 1_000_000_000), None);
    assert_eq!(timespec_to_nanos(-1, 0), None);
    assert_eq!(timespec_to_nanos(0, -1), None);
    assert_eq!(timespec_to_nanos(i64::MAX, 0), Some(u64::MAX));
    assert_eq!(timespec_to_nanos(18_446_744_073, 709_551_615), Some(u64::MAX));
    assert_eq!(timespec_to_nanos(18_446_744_073, 709_551_614), Some(u64::MAX - 1));
}

#[test]
fn recursion_limit_is_reported_as_eagain() {
    let mut ecx = machine(TargetOs::Linux);
    mutex_of_kind(&mut ecx, 1);
    assert_eq!(status(&mut ecx, "pthread_mutex_lock", &[ptr(MUTEX)]), 0);
    ecx.sync.mutexes.get_mut(&MUTEX).unwrap().hold_count = u32::MAX;
    assert_eq!(status(&mut ecx, "pthread_mutex_lock", &[ptr(MUTEX)]), 11);
    assert_eq!(status(&mut ecx, "pthread_mutex_trylock", &[ptr(MUTEX)]), 11);
    assert_eq!(status(&mut ecx, "pthread_rwlock_rdlock", &[ptr(RWLOCK)]), 0);
    ecx.sync.rwlocks.get_mut(&RWLOCK).unwrap().readers.insert(0, u32::MAX);
    assert_eq!(status(&mut ecx, "pthread_rwlock_rdlock", &[ptr(RWLOCK)]), 11);
    assert_eq!(status(&mut ecx, "pthread_rwlock_tryrdlock", &[ptr(RWLOCK)]), 11);
    assert_eq!(ecx.threads[0].state, ThreadState::Runnable);
}
