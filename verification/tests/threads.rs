use miri_runtime::errors::{InterpError, InterpResult, TerminationInfo, UbKind};
use miri_runtime::eval_context::{MiriEvalContext, PanicStrategy, TargetOs};
use miri_runtime::scalar::{Immediate, OpTy, PlaceTy, Scalar, TyLayout};
use miri_runtime::shims::foreign_items::EmulateByNameResult;
use miri_runtime::shims::posix::foreign_items::EvalContextExt;
use miri_runtime::thread::{
    Abi, BlockReason, FrameLoc, SchedulingAction, StackPopCleanup, ThreadJoinStatus,
    ThreadOutcome, ThreadState,
};

const DEST: u64 = 0x9000;

fn machine() -> MiriEvalContext {
    MiriEvalContext::new(TargetOs::Linux, PanicStrategy::Unwind, false)
}

fn dest() -> PlaceTy {
    PlaceTy { addr: DEST, layout: TyLayout { size: 4, pointee: None } }
}

fn word(addr: u64) -> PlaceTy {
    PlaceTy { addr, layout: TyLayout { size: 8, pointee: None } }
}

fn usize_op(v: u64) -> OpTy {
    OpTy::from_scalar(Scalar::from_machine_usize(v))
}

fn call(ecx: &mut MiriEvalContext, name: &str, args: &[OpTy]) -> InterpResult<i32> {
    ecx.memory.remove(&DEST);
    match ecx.emulate_foreign_item_by_name(name, Abi::C, args, &dest(), 0) {
        Ok(r) => {
            assert_eq!(r, EmulateByNameResult::NeedsJumping);
            Ok(ecx.read_scalar_at(&dest()).unwrap().to_i32().unwrap())
        }
        Err(e) => {
            assert!(ecx.read_scalar_at(&dest()).is_err());
            Err(e)
        }
    }
}

fn spawn(ecx: &mut MiriEvalContext, arg: u64) -> u32 {
    let start = ecx.define_fn(Abi::C, 1, false).unwrap();
    let id_place = 0x8000 + 8 * ecx.threads.len() as u64;
    let args = [OpTy::from_ptr(id_place, 8), usize_op(0), usize_op(start.addr), usize_op(arg)];
    assert_eq!(call(ecx, "pthread_create", &args), Ok(0));
    ecx.memory[&id_place].data as u32
}

fn finish(ecx: &mut MiriEvalContext, t: u32, value: u64) {
    let previous = ecx.set_active_thread(t);
    ecx.finish_active_thread(ThreadOutcome::Returned(Scalar::from_machine_usize(value))).unwrap();
    ecx.set_active_thread(previous);
}

#[test]
fn created_thread_runs_its_start_function() {
    let mut ecx = machine();
    let start = ecx.define_fn(Abi::C, 1, false).unwrap();
    let args = [OpTy::from_ptr(0x8000, 8), usize_op(0), usize_op(start.addr), usize_op(77)];
    assert_eq!(call(&mut ecx, "pthread_create", &args), Ok(0));
    assert_eq!(ecx.read_scalar_at(&word(0x8000)), Ok(Scalar::from_machine_usize(1)));
    assert_eq!(ecx.get_total_thread_count(), 2);
    assert_eq!(ecx.get_active_thread(), 0);
    let thread = &ecx.threads[1];
    assert_eq!(thread.state, ThreadState::Runnable);
    assert_eq!(thread.join_status, ThreadJoinStatus::Joinable);
    assert_eq!(thread.stack.len(), 1);
    assert!(ecx.threads[0].stack.is_empty());
    let frame = &thread.stack[0];
    assert_eq!(frame.instance, start);
    assert_eq!(frame.args, vec![Immediate::Scalar(Scalar::from_machine_usize(77))]);
    assert_eq!(frame.return_to_block, StackPopCleanup::Root { cleanup: true });
    assert_eq!(frame.loc, FrameLoc::Block(0));
    let ret = frame.return_place.unwrap();
    assert_eq!(ret.layout.size, 8);
    assert_eq!(ret.addr % 8, 0);
    assert!(ecx.allocations.contains_key(&ret.addr));
}

#[test]
fn create_checks_its_arguments() {
    let mut ecx = machine();
    let start = ecx.define_fn(Abi::Rust, 1, false).unwrap();
    let two = ecx.define_fn(Abi::C, 2, false).unwrap();
    let id = OpTy::from_ptr(0x8000, 8);
    assert_eq!(
        call(&mut ecx, "pthread_create", &[id, usize_op(0), usize_op(start.addr), usize_op(0)]),
        Err(InterpError::UndefinedBehavior(UbKind::AbiMismatch))
    );
    assert_eq!(
        call(&mut ecx, "pthread_create", &[id, usize_op(0), usize_op(two.addr), usize_op(0)]),
        Err(InterpError::UndefinedBehavior(UbKind::WrongArgumentCount { got: 1, expected: 2 }))
    );
    assert_eq!(
        call(&mut ecx, "pthread_create", &[id, usize_op(0), usize_op(0x12), usize_op(0)]),
        Err(InterpError::UndefinedBehavior(UbKind::InvalidFunctionPointer))
    );
    assert_eq!(
        call(&mut ecx, "pthread_create", &[usize_op(0x8000), usize_op(0), usize_op(two.addr), usize_op(0)]),
        Err(InterpError::UndefinedBehavior(UbKind::NotARawPointer))
    );
    assert_eq!(ecx.get_total_thread_count(), 1);
    assert!(ecx.read_scalar_at(&word(0x8000)).is_err());
}

#[test]
fn join_of_a_finished_thread_returns_its_value_at_once() {
    let mut ecx = machine();
    let b = spawn(&mut ecx, 0);
    finish(&mut ecx, b, 0xfeed);
    assert_eq!(call(&mut ecx, "pthread_join", &[usize_op(b as u64), usize_op(0x7000)]), Ok(0));
    assert_eq!(ecx.threads[0].state, ThreadState::Runnable);
    assert_eq!(ecx.read_scalar_at(&word(0x7000)), Ok(Scalar::from_machine_usize(0xfeed)));
    assert_eq!(ecx.threads[b as usize].join_status, ThreadJoinStatus::Joined);
    assert_eq!(
        call(&mut ecx, "pthread_join", &[usize_op(b as u64), usize_op(0x7000)]),
        Err(InterpError::UndefinedBehavior(UbKind::JoinNotJoinable))
    );
}

#[test]
fn join_blocks_until_the_thread_finishes() {
    let mut ecx = machine();
    let b = spawn(&mut ecx, 0);
    assert_eq!(call(&mut ecx, "pthread_join", &[usize_op(b as u64), usize_op(0x7000)]), Ok(0));
    assert_eq!(ecx.threads[0].state, ThreadState::Blocked(BlockReason::Join(b)));
    assert!(ecx.read_scalar_at(&word(0x7000)).is_err());
    assert_eq!(ecx.schedule(), Ok(SchedulingAction::ExecuteStep));
    assert_eq!(ecx.get_active_thread(), b);
    ecx.finish_active_thread(ThreadOutcome::Returned(Scalar::from_machine_usize(5))).unwrap();
    assert_eq!(ecx.threads[0].state, ThreadState::Runnable);
    assert_eq!(ecx.read_scalar_at(&word(0x7000)), Ok(Scalar::from_machine_usize(5)));
    assert_eq!(ecx.schedule(), Ok(SchedulingAction::ExecuteStep));
    assert_eq!(ecx.get_active_thread(), 0);
}

#[test]
fn join_without_a_place_drops_the_value() {
    let mut ecx = machine();
    let b = spawn(&mut ecx, 0);
    finish(&mut ecx, b, 9);
    ecx.memory.remove(&DEST);
    let before = ecx.memory.len();
    assert_eq!(call(&mut ecx, "pthread_join", &[usize_op(b as u64), usize_op(0)]), Ok(0));
    assert_eq!(ecx.memory.len(), before + 1);
}

#[test]
fn join_of_a_panicked_thread_stores_nothing() {
    let mut ecx = machine();
    let b = spawn(&mut ecx, 0);
    ecx.set_active_thread(b);
    ecx.finish_active_thread(ThreadOutcome::Panicked).unwrap();
    ecx.set_active_thread(0);
    assert_eq!(call(&mut ecx, "pthread_join", &[usize_op(b as u64), usize_op(0x7000)]), Ok(0));
    assert!(ecx.read_scalar_at(&word(0x7000)).is_err());
}

#[test]
fn join_violations() {
    let mut ecx = machine();
    let b = spawn(&mut ecx, 0);
    assert_eq!(
        call(&mut ecx, "pthread_join", &[usize_op(0), usize_op(0)]),
        Err(InterpError::UndefinedBehavior(UbKind::JoinSelf))
    );
    assert_eq!(
        call(&mut ecx, "pthread_join", &[usize_op(5), usize_op(0)]),
        Err(InterpError::UndefinedBehavior(UbKind::InvalidThreadId))
    );
    assert_eq!(
        call(&mut ecx, "pthread_join", &[usize_op(1 << 40), usize_op(0)]),
        Err(InterpError::UndefinedBehavior(UbKind::InvalidThreadId))
    );
    assert_eq!(call(&mut ecx, "pthread_detach", &[usize_op(b as u64)]), Ok(0));
    assert_eq!(ecx.threads[b as usize].join_status, ThreadJoinStatus::Detached);
    assert_eq!(
        call(&mut ecx, "pthread_join", &[usize_op(b as u64), usize_op(0)]),
        Err(InterpError::UndefinedBehavior(UbKind::JoinNotJoinable))
    );
    assert_eq!(
        call(&mut ecx, "pthread_detach", &[usize_op(b as u64)]),
        Err(InterpError::UndefinedBehavior(UbKind::DetachNotJoinable))
    );
    assert_eq!(
        call(&mut ecx, "pthread_detach", &[usize_op(9)]),
        Err(InterpError::UndefinedBehavior(UbKind::InvalidThreadId))
    );
    assert_eq!(ecx.threads[0].state, ThreadState::Runnable);
}

#[test]
fn returned_values_are_pointer_sized() {
    let mut ecx = machine();
    assert_eq!(
        ecx.finish_active_thread(ThreadOutcome::Returned(Scalar::from_i32(1))),
        Err(InterpError::UndefinedBehavior(UbKind::ScalarSizeMismatch { found: 4, required: 8 }))
    );
    assert_eq!(ecx.threads[0].state, ThreadState::Runnable);
}

#[test]
fn pthread_self_names_the_active_thread() {
    let mut ecx = machine();
    let b = spawn(&mut ecx, 0);
    let place = word(0x7100);
    for t in [0, b] {
        ecx.set_active_thread(t);
        assert_eq!(
            ecx.emulate_foreign_item_by_name("pthread_self", Abi::C, &[], &place, 0),
            Ok(EmulateByNameResult::NeedsJumping)
        );
        assert_eq!(ecx.read_scalar_at(&place), Ok(Scalar::from_machine_usize(t as u64)));
    }
}

#[test]
fn scheduler_keeps_the_active_thread_until_it_yields() {
    let mut ecx = machine();
    let b = spawn(&mut ecx, 0);
    let c = spawn(&mut ecx, 0);
    assert_eq!(ecx.schedule(), Ok(SchedulingAction::ExecuteStep));
    assert_eq!(ecx.get_active_thread(), 0);
    assert_eq!(call(&mut ecx, "sched_yield", &[]), Ok(0));
    assert_eq!(ecx.schedule(), Ok(SchedulingAction::ExecuteStep));
    assert_eq!(ecx.get_active_thread(), b);
    assert!(!ecx.yield_active_thread);
    ecx.yield_active_thread();
    assert_eq!(ecx.schedule(), Ok(SchedulingAction::ExecuteStep));
    assert_eq!(ecx.get_active_thread(), 0);
    ecx.block_thread(0, BlockReason::Join(b));
    ecx.block_thread(b, BlockReason::Join(c));
    assert_eq!(ecx.schedule(), Ok(SchedulingAction::ExecuteStep));
    assert_eq!(ecx.get_active_thread(), c);
    ecx.yield_active_thread();
    assert_eq!(ecx.schedule(), Ok(SchedulingAction::ExecuteStep));
    assert_eq!(ecx.get_active_thread(), c);
}

#[test]
fn scheduler_stops_or_reports_a_deadlock() {
    let mut ecx = machine();
    let b = spawn(&mut ecx, 0);
    ecx.block_thread(0, BlockReason::Join(b));
    ecx.block_thread(b, BlockReason::Join(0));
    assert_eq!(ecx.schedule(), Err(InterpError::MachineStop(TerminationInfo::Deadlock)));
    ecx.unblock_thread(0);
    ecx.unblock_thread(b);
    ecx.finish_active_thread(ThreadOutcome::Returned(Scalar::from_machine_usize(0))).unwrap();
    assert_eq!(ecx.schedule(), Ok(SchedulingAction::ExecuteStep));
    assert_eq!(ecx.get_active_thread(), b);
    ecx.finish_active_thread(ThreadOutcome::Panicked).unwrap();
    assert_eq!(ecx.schedule(), Ok(SchedulingAction::Stop));
}

#[test]
fn waking_leaves_finished_threads_alone() {
    let mut ecx = machine();
    let b = spawn(&mut ecx, 0);
    finish(&mut ecx, b, 1);
    ecx.unblock_thread(b);
    ecx.unblock_threads(&vec![b, 7, 0]);
    assert_eq!(
        ecx.threads[b as usize].state,
        ThreadState::Finished(ThreadOutcome::Returned(Scalar::from_machine_usize(1)))
    );
    assert_eq!(ecx.threads[0].state, ThreadState::Runnable);
}

#[test]
fn scheduler_lets_the_earliest_deadline_pass() {
    let mut ecx = machine();
    let b = spawn(&mut ecx, 0);
    let c = spawn(&mut ecx, 0);
    let mutexes = [0x1000u64, 0x1100, 0x1200];
    let conds = [0x2000u64, 0x2100, 0x2200];
    let deadlines = [30u64, 10, 10];
    let timed_wait = |ecx: &mut MiriEvalContext, i: usize| {
        ecx.memory.remove(&DEST);
        ecx.emulate_foreign_item_by_name(
            "pthread_cond_timedwait",
            Abi::C,
            &[usize_op(conds[i]), usize_op(mutexes[i]), OpTy::from_ptr(0x6000, 16)],
            &dest(),
            0,
        )
    };
    for (i, t) in [0, b, c].into_iter().enumerate() {
        ecx.set_active_thread(t);
        assert_eq!(call(&mut ecx, "pthread_mutex_init", &[usize_op(mutexes[i]), usize_op(0)]), Ok(0));
        assert_eq!(call(&mut ecx, "pthread_cond_init", &[usize_op(conds[i]), usize_op(0)]), Ok(0));
        assert_eq!(call(&mut ecx, "pthread_mutex_lock", &[usize_op(mutexes[i])]), Ok(0));
        ecx.write_scalar(Scalar::from_i64(0), &word(0x6000)).unwrap();
        ecx.write_scalar(Scalar::from_i64(deadlines[i] as i64), &word(0x6008)).unwrap();
        assert_eq!(timed_wait(&mut ecx, i), Ok(EmulateByNameResult::Blocked));
        assert!(ecx.read_scalar_at(&dest()).is_err());
    }
    let timed_out = |ecx: &mut MiriEvalContext, i: usize| {
        assert_eq!(timed_wait(ecx, i), Ok(EmulateByNameResult::NeedsJumping));
        assert_eq!(ecx.read_scalar_at(&dest()), Ok(Scalar::from_i32(110)));
        assert_eq!(ecx.sync.mutexes[&mutexes[i]].owner, Some(ecx.get_active_thread()));
        ecx.finish_active_thread(ThreadOutcome::Returned(Scalar::from_machine_usize(0))).unwrap();
    };
    assert_eq!(ecx.schedule(), Ok(SchedulingAction::ExecuteTimeoutCallback));
    assert_eq!(ecx.clock, 10);
    assert_eq!(ecx.threads[b as usize].state, ThreadState::Runnable);
    assert_eq!(
        ecx.threads[c as usize].state,
        ThreadState::Blocked(BlockReason::Condvar { cond: conds[2], mutex: mutexes[2] })
    );
    assert_eq!(ecx.schedule(), Ok(SchedulingAction::ExecuteStep));
    assert_eq!(ecx.get_active_thread(), b);
    timed_out(&mut ecx, 1);
    assert_eq!(ecx.schedule(), Ok(SchedulingAction::ExecuteTimeoutCallback));
    assert_eq!(ecx.threads[c as usize].state, ThreadState::Runnable);
    assert_eq!(ecx.clock, 10);
    assert_eq!(ecx.schedule(), Ok(SchedulingAction::ExecuteStep));
    assert_eq!(ecx.get_active_thread(), c);
    timed_out(&mut ecx, 2);
    assert_eq!(ecx.schedule(), Ok(SchedulingAction::ExecuteTimeoutCallback));
    assert_eq!(ecx.clock, 30);
    assert_eq!(ecx.schedule(), Ok(SchedulingAction::ExecuteStep));
    assert_eq!(ecx.get_active_thread(), 0);
    timed_out(&mut ecx, 0);
    assert_eq!(ecx.schedule(), Ok(SchedulingAction::Stop));
}

#[test]
fn guest_functions_get_addresses_of_their_own() {
    let mut ecx = machine();
    let f = ecx.define_fn(Abi::C, 2, true).unwrap();
    let g = ecx.define_fn(Abi::Rust, 0, false).unwrap();
    assert_ne!(f.addr, g.addr);
    assert_ne!(f.addr, 0);
    assert_eq!(ecx.get_fn_instance(f.addr), Ok(f));
    assert_eq!(ecx.get_fn_instance(g.addr), Ok(g));
    assert_eq!((f.abi, f.arity, f.in_std), (Abi::C, 2, true));
    assert!(!ecx.frame_in_std());
    ecx.call_function(f, Abi::C, vec![Immediate::Scalar(Scalar::from_i32(1)); 2], None, StackPopCleanup::Root { cleanup: false }).unwrap();
    assert!(ecx.frame_in_std());
    ecx.call_function(g, Abi::Rust, vec![], None, StackPopCleanup::Root { cleanup: false }).unwrap();
    assert!(!ecx.frame_in_std());
    assert_eq!(ecx.threads[0].stack[0].extra.call_id, 0);
}

#[test]
fn calls_get_fresh_identities_when_the_borrow_tracker_is_on() {
    let mut ecx = MiriEvalContext::new(TargetOs::Linux, PanicStrategy::Unwind, true);
    let f = ecx.define_fn(Abi::Rust, 0, false).unwrap();
    for expected in 1..=3u64 {
        ecx.call_function(f, Abi::Rust, vec![], None, StackPopCleanup::Root { cleanup: false }).unwrap();
        assert_eq!(ecx.threads[0].stack.last().unwrap().extra.call_id, expected);
        assert!(ecx.stacked_borrows.as_ref().unwrap().active_calls.contains(&expected));
    }
    ecx.end_call(2);
    let active = &ecx.stacked_borrows.as_ref().unwrap().active_calls;
    assert!(active.contains(&1) && !active.contains(&2) && active.contains(&3));
}
