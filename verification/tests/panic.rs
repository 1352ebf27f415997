use miri_runtime::errors::{InterpError, UbKind};
use miri_runtime::eval_context::{MiriEvalContext, PanicStrategy, TargetOs};
use miri_runtime::scalar::{Immediate, OpTy, PlaceTy, Scalar, TyLayout};
use miri_runtime::shims::panic::{AssertMessage, BinOp, EvalContextExt, GeneratorKind};
use miri_runtime::thread::{
    Abi, FrameLoc, Instance, StackPopCleanup, StackPopJump, StackPopUnwind,
};

fn guest_fn(ecx: &mut MiriEvalContext, abi: Abi, arity: u64) -> (u64, Instance) {
    let instance = ecx.define_fn(abi, arity, false).unwrap();
    (instance.addr, instance)
}

fn fn_ptr(addr: u64) -> OpTy {
    OpTy { value: Some(Scalar::from_machine_usize(addr)), layout: TyLayout { size: 8, pointee: None } }
}

fn i32_place(addr: u64) -> PlaceTy {
    PlaceTy { addr, layout: TyLayout { size: 4, pointee: None } }
}

fn try_setup(strategy: PanicStrategy) -> (MiriEvalContext, Instance, Instance, Vec<OpTy>, PlaceTy) {
    let mut ecx = MiriEvalContext::new(TargetOs::Linux, strategy, true);
    let (try_addr, try_fn) = guest_fn(&mut ecx, Abi::Rust, 1);
    let (catch_addr, catch_fn) = guest_fn(&mut ecx, Abi::Rust, 2);
    let args = vec![
        fn_ptr(try_addr),
        OpTy::from_scalar(Scalar::from_machine_usize(0xdada)),
        fn_ptr(catch_addr),
    ];
    (ecx, try_fn, catch_fn, args, i32_place(0x500))
}

#[test]
fn protected_call_returns_zero_when_the_function_returns() {
    let (mut ecx, try_fn, _catch_fn, args, dest) = try_setup(PanicStrategy::Unwind);
    assert_eq!(ecx.handle_try(&args, &dest, 7), Ok(()));
    assert_eq!(ecx.threads[0].stack.len(), 1);
    let frame = ecx.pop_frame().unwrap();
    assert_eq!(frame.instance, try_fn);
    assert_eq!(frame.args, vec![Immediate::Scalar(Scalar::from_machine_usize(0xdada))]);
    assert_eq!(
        frame.return_to_block,
        StackPopCleanup::Goto { ret: Some(7), unwind: StackPopUnwind::Skip }
    );
    assert_eq!(ecx.handle_stack_pop(frame.extra, false), Ok(StackPopJump::Normal));
    assert_eq!(ecx.read_scalar_at(&dest), Ok(Scalar::from_i32(0)));
    assert!(ecx.threads[0].stack.is_empty());
    assert_eq!(ecx.threads[0].panic_payload, None);
}

#[test]
fn protected_call_catches_a_panic() {
    let (mut ecx, _try_fn, catch_fn, args, dest) = try_setup(PanicStrategy::Unwind);
    assert_eq!(ecx.handle_try(&args, &dest, 7), Ok(()));
    let payload = Scalar::from_machine_usize(0xbeef);
    assert_eq!(
        ecx.handle_miri_start_panic(
            Abi::Rust,
            "miri_start_panic",
            &[OpTy::from_scalar(payload)],
            StackPopUnwind::Skip
        ),
        Ok(())
    );
    assert_eq!(ecx.threads[0].panic_payload, Some(payload));
    assert_eq!(ecx.threads[0].stack[0].loc, FrameLoc::Unwinding);
    let frame = ecx.pop_frame().unwrap();
    assert_eq!(ecx.handle_stack_pop(frame.extra, true), Ok(StackPopJump::NoJump));
    assert_eq!(ecx.read_scalar_at(&dest), Ok(Scalar::from_i32(1)));
    assert_eq!(ecx.threads[0].panic_payload, None);
    assert_eq!(ecx.threads[0].stack.len(), 1);
    let catch = &ecx.threads[0].stack[0];
    assert_eq!(catch.instance, catch_fn);
    assert_eq!(
        catch.args,
        vec![
            Immediate::Scalar(Scalar::from_machine_usize(0xdada)),
            Immediate::Scalar(payload)
        ]
    );
    assert_eq!(
        catch.return_to_block,
        StackPopCleanup::Goto { ret: Some(7), unwind: StackPopUnwind::Skip }
    );
    assert_eq!(catch.extra.catch_panic, None);
}

#[test]
fn unwinding_through_an_untagged_frame_is_an_ordinary_pop() {
    let (mut ecx, try_fn, _catch_fn, _args, dest) = try_setup(PanicStrategy::Unwind);
    ecx.call_function(
        try_fn,
        Abi::Rust,
        vec![Immediate::Scalar(Scalar::from_i32(3))],
        None,
        StackPopCleanup::Goto { ret: Some(1), unwind: StackPopUnwind::Skip },
    )
    .unwrap();
    ecx.handle_miri_start_panic(
        Abi::Rust,
        "miri_start_panic",
        &[OpTy::from_scalar(Scalar::from_machine_usize(9))],
        StackPopUnwind::Skip,
    )
    .unwrap();
    let frame = ecx.pop_frame().unwrap();
    assert_eq!(ecx.handle_stack_pop(frame.extra, true), Ok(StackPopJump::Normal));
    assert_eq!(ecx.threads[0].panic_payload, Some(Scalar::from_machine_usize(9)));
    assert!(ecx.read_scalar_at(&dest).is_err());
}

#[test]
fn protected_call_without_unwinding_is_a_plain_call() {
    let (mut ecx, _try_fn, _catch_fn, args, dest) = try_setup(PanicStrategy::Abort);
    assert_eq!(ecx.handle_try(&args, &dest, 7), Ok(()));
    assert_eq!(ecx.threads[0].stack[0].extra.catch_panic, None);
    assert_eq!(ecx.read_scalar_at(&dest), Ok(Scalar::from_i32(0)));
}

#[test]
fn protected_call_tags_the_frame_where_panics_unwind() {
    let (mut ecx, _try_fn, _catch_fn, args, dest) = try_setup(PanicStrategy::Unwind);
    assert_eq!(ecx.handle_try(&args, &dest, 7), Ok(()));
    let data = ecx.threads[0].stack[0].extra.catch_panic.as_ref().unwrap();
    assert_eq!(data.catch_fn, args[2].value.unwrap());
    assert_eq!(data.data, Scalar::from_machine_usize(0xdada));
    assert_eq!(data.dest, dest);
    assert_eq!(data.ret, 7);
}

#[test]
fn protected_call_checks_its_arguments() {
    let (mut ecx, _try_fn, _catch_fn, args, dest) = try_setup(PanicStrategy::Unwind);
    assert_eq!(
        ecx.handle_try(&args[..2], &dest, 7),
        Err(InterpError::UndefinedBehavior(UbKind::WrongArgumentCount { got: 2, expected: 3 }))
    );
    let mut bad = args.clone();
    bad[0] = fn_ptr(0x4242);
    assert_eq!(
        ecx.handle_try(&bad, &dest, 7),
        Err(InterpError::UndefinedBehavior(UbKind::InvalidFunctionPointer))
    );
    let mut uninit = args.clone();
    uninit[1].value = None;
    assert_eq!(
        ecx.handle_try(&uninit, &dest, 7),
        Err(InterpError::UndefinedBehavior(UbKind::UninitializedRead))
    );
    assert!(ecx.threads[0].stack.is_empty());
    assert!(ecx.read_scalar_at(&dest).is_err());
}

#[test]
fn frame_pop_tells_the_borrow_tracker() {
    let (mut ecx, _try_fn, _catch_fn, args, dest) = try_setup(PanicStrategy::Unwind);
    ecx.handle_try(&args, &dest, 7).unwrap();
    let frame = ecx.pop_frame().unwrap();
    let id = frame.extra.call_id;
    assert!(ecx.stacked_borrows.as_ref().unwrap().active_calls.contains(&id));
    ecx.handle_stack_pop(frame.extra, false).unwrap();
    assert!(!ecx.stacked_borrows.as_ref().unwrap().active_calls.contains(&id));
}

#[test]
fn start_panic_intrinsic_checks_its_call() {
    let (mut ecx, _try_fn, _catch_fn, _args, _dest) = try_setup(PanicStrategy::Unwind);
    let payload = OpTy::from_scalar(Scalar::from_machine_usize(1));
    assert_eq!(
        ecx.handle_miri_start_panic(Abi::C, "miri_start_panic", &[payload], StackPopUnwind::Skip),
        Err(InterpError::UndefinedBehavior(UbKind::AbiMismatch))
    );
    assert_eq!(
        ecx.handle_miri_start_panic(Abi::Rust, "miri_start_panic", &[], StackPopUnwind::Skip),
        Err(InterpError::UndefinedBehavior(UbKind::WrongArgumentCount { got: 0, expected: 1 }))
    );
    assert_eq!(ecx.threads[0].panic_payload, None);
    assert_eq!(
        ecx.handle_miri_start_panic(
            Abi::Rust,
            "miri_start_panic",
            &[payload],
            StackPopUnwind::NotAllowed
        ),
        Err(InterpError::UndefinedBehavior(UbKind::UnwindNotAllowed))
    );
}

#[test]
fn start_panic_intrinsic_jumps_to_the_cleanup_block() {
    let (mut ecx, try_fn, _catch_fn, _args, _dest) = try_setup(PanicStrategy::Unwind);
    ecx.call_function(
        try_fn,
        Abi::Rust,
        vec![Immediate::Scalar(Scalar::from_i32(3))],
        None,
        StackPopCleanup::Root { cleanup: true },
    )
    .unwrap();
    ecx.handle_miri_start_panic(
        Abi::Rust,
        "miri_start_panic",
        &[OpTy::from_scalar(Scalar::from_machine_usize(9))],
        StackPopUnwind::Cleanup(12),
    )
    .unwrap();
    assert_eq!(ecx.threads[0].stack[0].loc, FrameLoc::Block(12));
}

#[test]
fn start_panic_calls_the_panic_entry_point_with_the_message() {
    let (mut ecx, _try_fn, _catch_fn, _args, _dest) = try_setup(PanicStrategy::Unwind);
    let (_, panic_fn) = guest_fn(&mut ecx, Abi::Rust, 1);
    let (_, bounds_fn) = guest_fn(&mut ecx, Abi::Rust, 2);
    ecx.set_lang_items(panic_fn, bounds_fn);
    assert_eq!(ecx.start_panic("boom", StackPopUnwind::Cleanup(4)), Ok(()));
    let frame = &ecx.threads[0].stack[0];
    assert_eq!(frame.instance, panic_fn);
    assert_eq!(
        frame.return_to_block,
        StackPopCleanup::Goto { ret: None, unwind: StackPopUnwind::Cleanup(4) }
    );
    assert_eq!(frame.return_place, None);
    match frame.args[0] {
        Immediate::ScalarPair(ptr, len) => {
            assert_eq!(len, Scalar::from_machine_usize(4));
            assert_eq!(ecx.strings[&ptr.data], "boom");
        }
        Immediate::Scalar(_) => panic!("the message is a string slice"),
    }
}

#[test]
fn assert_panic_forwards_bounds_checks() {
    let (mut ecx, _try_fn, _catch_fn, _args, _dest) = try_setup(PanicStrategy::Unwind);
    let (_, panic_fn) = guest_fn(&mut ecx, Abi::Rust, 1);
    let (_, bounds_fn) = guest_fn(&mut ecx, Abi::Rust, 2);
    ecx.set_lang_items(panic_fn, bounds_fn);
    let msg = AssertMessage::BoundsCheck {
        len: OpTy::from_scalar(Scalar::from_machine_usize(3)),
        index: OpTy::from_scalar(Scalar::from_machine_usize(5)),
    };
    assert_eq!(ecx.assert_panic(&msg, None), Ok(()));
    let frame = &ecx.threads[0].stack[0];
    assert_eq!(frame.instance, bounds_fn);
    assert_eq!(
        frame.args,
        vec![
            Immediate::Scalar(Scalar::from_machine_usize(5)),
            Immediate::Scalar(Scalar::from_machine_usize(3))
        ]
    );
    assert_eq!(
        frame.return_to_block,
        StackPopCleanup::Goto { ret: None, unwind: StackPopUnwind::Skip }
    );
}

#[test]
fn assert_panic_forwards_other_failures_with_their_message() {
    let (mut ecx, _try_fn, _catch_fn, _args, _dest) = try_setup(PanicStrategy::Unwind);
    let (_, panic_fn) = guest_fn(&mut ecx, Abi::Rust, 1);
    let (_, bounds_fn) = guest_fn(&mut ecx, Abi::Rust, 2);
    ecx.set_lang_items(panic_fn, bounds_fn);
    assert_eq!(ecx.assert_panic(&AssertMessage::DivisionByZero, Some(8)), Ok(()));
    let frame = &ecx.threads[0].stack[0];
    assert_eq!(frame.instance, panic_fn);
    assert_eq!(
        frame.return_to_block,
        StackPopCleanup::Goto { ret: None, unwind: StackPopUnwind::Cleanup(8) }
    );
    match frame.args[0] {
        Immediate::ScalarPair(ptr, _) => {
            assert_eq!(ecx.strings[&ptr.data], "attempt to divide by zero");
        }
        Immediate::Scalar(_) => panic!("the message is a string slice"),
    }
}

#[test]
fn assertion_messages() {
    assert_eq!(AssertMessage::Overflow(BinOp::Add).description(), "attempt to add with overflow");
    assert_eq!(AssertMessage::OverflowNeg.description(), "attempt to negate with overflow");
    assert_eq!(
        AssertMessage::RemainderByZero.description(),
        "attempt to calculate the remainder with a divisor of zero"
    );
    assert_eq!(
        AssertMessage::ResumedAfterReturn(GeneratorKind::Gen).description(),
        "generator resumed after completion"
    );
    assert_eq!(
        AssertMessage::ResumedAfterPanic(GeneratorKind::Async).description(),
        "`async fn` resumed after panicking"
    );
}
