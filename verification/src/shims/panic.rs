//! The panic runtime.
//!
//! A protected call pushes the frame of the function it protects and tags
//! that frame with what is needed to catch a panic. Starting a panic stores
//! the payload in the panicking thread and sends the thread down its unwind
//! path. The frame-pop hook stops the unwinding at a tagged frame: it hands
//! the payload to the catch function and lets the protected call return 1.

use vstd::prelude::*;
use crate::errors::{InterpError, InterpResult};
use crate::eval_context::{call_check, check_call, MachineView, MiriEvalContext, PanicStrategy};
use crate::helpers::{check_arg_count, check_shim, spec_check_arg_count, spec_check_shim};
use crate::scalar::{Immediate, OpTy, PlaceTy, Scalar};
use crate::thread::{
    Abi, BasicBlock, FrameData, FrameView, Instance, StackPopCleanup, StackPopJump,
    StackPopUnwind, ThreadView,
};

verus! {

/// Holds all of the relevant data for when unwinding hits a frame that runs
/// a protected call. The data cannot be copied: whoever pops the frame takes
/// it, once.
#[derive(PartialEq, Eq, Debug, Structural)]
pub struct CatchUnwindData {
    /// The callback to call in case of a panic.
    pub catch_fn: Scalar,
    /// The `data` argument for that callback.
    pub data: Scalar,
    /// The return place of the protected call.
    pub dest: PlaceTy,
    /// The label at which the caller of the protected call resumes.
    pub ret: BasicBlock,
}

/// An arithmetic operation that can overflow.
#[derive(Clone, Copy, PartialEq, Eq, Debug, Structural)]
pub enum BinOp {
    Add,
    Sub,
    Mul,
    Div,
    Rem,
    Shl,
    Shr,
}

/// The kind of a resumable function.
#[derive(Clone, Copy, PartialEq, Eq, Debug, Structural)]
pub enum GeneratorKind {
    Gen,
    Async,
}

/// Why an assertion of the guest code failed.
#[derive(Clone, Copy, PartialEq, Eq, Debug, Structural)]
pub enum AssertMessage {
    BoundsCheck { len: OpTy, index: OpTy },
    Overflow(BinOp),
    OverflowNeg,
    DivisionByZero,
    RemainderByZero,
    ResumedAfterReturn(GeneratorKind),
    ResumedAfterPanic(GeneratorKind),
}

impl AssertMessage {
    /// The message with which the guest panics for this failure.
    pub open spec fn spec_description(self) -> Seq<char> {
        match self {
            AssertMessage::BoundsCheck { .. } => "index out of bounds"@,
            AssertMessage::Overflow(BinOp::Add) => "attempt to add with overflow"@,
            AssertMessage::Overflow(BinOp::Sub) => "attempt to subtract with overflow"@,
            AssertMessage::Overflow(BinOp::Mul) => "attempt to multiply with overflow"@,
            AssertMessage::Overflow(BinOp::Div) => "attempt to divide with overflow"@,
            AssertMessage::Overflow(BinOp::Rem) => "attempt to calculate the remainder with overflow"@,
            AssertMessage::Overflow(BinOp::Shl) => "attempt to shift left with overflow"@,
            AssertMessage::Overflow(BinOp::Shr) => "attempt to shift right with overflow"@,
            AssertMessage::OverflowNeg => "attempt to negate with overflow"@,
            AssertMessage::DivisionByZero => "attempt to divide by zero"@,
            AssertMessage::RemainderByZero => "attempt to calculate the remainder with a divisor of zero"@,
            AssertMessage::ResumedAfterReturn(GeneratorKind::Gen) => "generator resumed after completion"@,
            AssertMessage::ResumedAfterReturn(GeneratorKind::Async) => "`async fn` resumed after completion"@,
            AssertMessage::ResumedAfterPanic(GeneratorKind::Gen) => "generator resumed after panicking"@,
            AssertMessage::ResumedAfterPanic(GeneratorKind::Async) => "`async fn` resumed after panicking"@,
        }
    }

    /// The message with which the guest panics for this failure.
    pub fn description(&self) -> (r: &'static str)
        ensures
            r@ == self.spec_description(),
    {
        match self {
            AssertMessage::BoundsCheck { .. } => "index out of bounds",
            AssertMessage::Overflow(BinOp::Add) => "attempt to add with overflow",
            AssertMessage::Overflow(BinOp::Sub) => "attempt to subtract with overflow",
            AssertMessage::Overflow(BinOp::Mul) => "attempt to multiply with overflow",
            AssertMessage::Overflow(BinOp::Div) => "attempt to divide with overflow",
            AssertMessage::Overflow(BinOp::Rem) => "attempt to calculate the remainder with overflow",
            AssertMessage::Overflow(BinOp::Shl) => "attempt to shift left with overflow",
            AssertMessage::Overflow(BinOp::Shr) => "attempt to shift right with overflow",
            AssertMessage::OverflowNeg => "attempt to negate with overflow",
            AssertMessage::DivisionByZero => "attempt to divide by zero",
            AssertMessage::RemainderByZero => "attempt to calculate the remainder with a divisor of zero",
            AssertMessage::ResumedAfterReturn(GeneratorKind::Gen) => "generator resumed after completion",
            AssertMessage::ResumedAfterReturn(GeneratorKind::Async) => "`async fn` resumed after completion",
            AssertMessage::ResumedAfterPanic(GeneratorKind::Gen) => "generator resumed after panicking",
            AssertMessage::ResumedAfterPanic(GeneratorKind::Async) => "`async fn` resumed after panicking",
        }
    }
}

/// The unwind path that an optional cleanup label stands for.
pub open spec fn unwind_of(cleanup: Option<BasicBlock>) -> StackPopUnwind {
    match cleanup {
        Some(block) => StackPopUnwind::Cleanup(block),
        None => StackPopUnwind::Skip,
    }
}

/// The arguments of a protected call: the address of the function to try,
/// the data to pass to it, and the catch function.
pub open spec fn try_args(args: Seq<OpTy>) -> InterpResult<(u64, Scalar, Scalar)> {
    match spec_check_arg_count(args, 3) {
        Err(e) => Err(e),
        Ok(()) => match OpTy::spec_read_pointer(args[0]) {
            Err(e) => Err(e),
            Ok(try_fn) => match OpTy::spec_read_scalar(args[1]) {
                Err(e) => Err(e),
                Ok(data) => match OpTy::spec_read_scalar(args[2]) {
                    Err(e) => Err(e),
                    Ok(catch_fn) => Ok((try_fn, data, catch_fn)),
                },
            },
        },
    }
}

/// How a frame is popped whose function was called by the runtime to run in
/// place of its caller: a normal return resumes the caller at `ret`, and the
/// caller has no cleanup to run.
pub open spec fn return_to(ret: BasicBlock) -> StackPopCleanup {
    StackPopCleanup::Goto { ret: Some(ret), unwind: StackPopUnwind::Skip }
}

impl MachineView {
    /// The payload that the arguments of a call of the panic intrinsic carry,
    /// if the call is well formed.
    pub open spec fn start_panic_payload(abi: Abi, args: Seq<OpTy>) -> InterpResult<Scalar> {
        match spec_check_shim(abi, Abi::Rust, args, 1) {
            Err(e) => Err(e),
            Ok(()) => OpTy::spec_read_scalar(args[0]),
        }
    }

    /// The panic intrinsic: stores the payload in the active thread, then
    /// sends the thread down the unwind path `unwind`.
    pub open spec fn handle_miri_start_panic(
        self,
        abi: Abi,
        args: Seq<OpTy>,
        unwind: StackPopUnwind,
    ) -> (MachineView, InterpResult<()>) {
        match MachineView::start_panic_payload(abi, args) {
            Err(e) => (self, Err(e)),
            Ok(payload) => self.with_active(
                ThreadView { panic_payload: Some(payload), ..self.active() },
            ).unwind_to_block(unwind),
        }
    }

    /// Tags the top frame of the active thread with catch data.
    pub open spec fn attach_catch(self, data: CatchUnwindData) -> MachineView {
        let stack = self.active().stack;
        if stack.len() == 0 {
            self
        } else {
            let top = stack.last();
            self.with_active(
                ThreadView {
                    stack: stack.update(
                        stack.len() - 1,
                        FrameView {
                            extra: FrameData { catch_panic: Some(data), ..top.extra },
                            ..top
                        },
                    ),
                    ..self.active()
                },
            )
        }
    }

    /// The protected call. On success `dest` holds 0, the frame of the
    /// function to try is on top of the stack with `data` as its argument,
    /// set to resume the caller at `ret`, and, where panics unwind, tagged
    /// with the catch data. On failure nothing has changed.
    pub open spec fn handle_try(self, args: Seq<OpTy>, dest: PlaceTy, ret: BasicBlock) -> (
        MachineView,
        InterpResult<()>,
    ) {
        match try_args(args) {
            Err(e) => (self, Err(e)),
            Ok((try_fn, data, catch_fn)) => match self.get_fn_instance(try_fn) {
                Err(e) => (self, Err(e)),
                Ok(f) => match call_check(f, Abi::Rust, 1) {
                    Err(e) => (self, Err(e)),
                    Ok(()) => match self.write_null(dest) {
                        (_, Err(e)) => (self, Err(e)),
                        (m, Ok(())) => {
                            let called = m.call_function(
                                f,
                                Abi::Rust,
                                seq![Immediate::Scalar(data)],
                                Some(PlaceTy::spec_dangling_unit()),
                                return_to(ret),
                            ).0;
                            if self.panic_strategy == PanicStrategy::Unwind {
                                (
                                    called.attach_catch(
                                        CatchUnwindData { catch_fn, data, dest, ret },
                                    ),
                                    Ok(()),
                                )
                            } else {
                                (called, Ok(()))
                            }
                        },
                    },
                },
            },
        }
    }

    /// The catch function that catch data names, if it is a function of the
    /// guest that takes two arguments through the Rust ABI.
    pub open spec fn catch_fn_of(self, data: CatchUnwindData) -> InterpResult<Instance> {
        match Scalar::spec_to_machine_usize(data.catch_fn) {
            Err(e) => Err(e),
            Ok(addr) => match self.get_fn_instance(addr) {
                Err(e) => Err(e),
                Ok(f) => match call_check(f, Abi::Rust, 2) {
                    Err(e) => Err(e),
                    Ok(()) => Ok(f),
                },
            },
        }
    }

    /// The frame-pop hook, for a frame with the data `extra` that was just
    /// popped. The borrow tracker learns that the call has ended. Unless
    /// the thread is unwinding and the frame carries catch data, that is all.
    /// Otherwise the unwinding stops here: the destination of the protected
    /// call receives 1, the pending payload leaves the thread, and the catch
    /// function is called with the data and the payload, set to resume the
    /// caller of the protected call. If that cannot be done, only the
    /// borrow tracker has been told.
    pub open spec fn handle_stack_pop(self, extra: FrameData, unwinding: bool) -> (
        MachineView,
        InterpResult<StackPopJump>,
    ) {
        let ended = self.end_call(extra.call_id);
        if unwinding && extra.catch_panic is Some {
            let data = extra.catch_panic->Some_0;
            match ended.catch_fn_of(data) {
                Err(e) => (ended, Err(e)),
                Ok(f) => match ended.write_scalar(Scalar { data: 1, size: 4 }, data.dest) {
                    (_, Err(e)) => (ended, Err(e)),
                    (m, Ok(())) => {
                        let payload = m.active().panic_payload->Some_0;
                        (
                            m.with_active(
                                ThreadView { panic_payload: None, ..m.active() },
                            ).call_function(
                                f,
                                Abi::Rust,
                                seq![Immediate::Scalar(data.data), Immediate::Scalar(payload)],
                                Some(PlaceTy::spec_dangling_unit()),
                                return_to(data.ret),
                            ).0,
                            Ok(StackPopJump::NoJump),
                        )
                    },
                },
            }
        } else {
            (ended, Ok(StackPopJump::Normal))
        }
    }

    /// Starts a panic with the message `msg`: places the message in guest
    /// memory and calls the guest's panic entry point with it. The call
    /// never returns normally; when it unwinds, the caller continues on the
    /// path `unwind`. On failure nothing has changed.
    pub open spec fn start_panic(self, msg: Seq<char>, unwind: StackPopUnwind) -> (
        MachineView,
        InterpResult<()>,
    ) {
        let f = self.panic_fn->Some_0;
        match call_check(f, Abi::Rust, 1) {
            Err(e) => (self, Err(e)),
            Ok(()) => match self.allocate_str(msg) {
                (_, Err(e)) => (self, Err(e)),
                (m, Ok(arg)) => m.call_function(
                    f,
                    Abi::Rust,
                    seq![arg],
                    None,
                    StackPopCleanup::Goto { ret: None, unwind },
                ),
            },
        }
    }

    /// Makes the guest panic for a failed assertion: a failed bounds check
    /// goes to the bounds-check entry point with the index and the length,
    /// every other failure to the panic entry point with its message.
    pub open spec fn assert_panic(self, msg: AssertMessage, unwind: Option<BasicBlock>) -> (
        MachineView,
        InterpResult<()>,
    ) {
        match msg {
            AssertMessage::BoundsCheck { len, index } => match OpTy::spec_read_scalar(index) {
                Err(e) => (self, Err(e)),
                Ok(index) => match OpTy::spec_read_scalar(len) {
                    Err(e) => (self, Err(e)),
                    Ok(len) => self.call_function(
                        self.panic_bounds_check_fn->Some_0,
                        Abi::Rust,
                        seq![Immediate::Scalar(index), Immediate::Scalar(len)],
                        None,
                        StackPopCleanup::Goto { ret: None, unwind: unwind_of(unwind) },
                    ),
                },
            },
            _ => self.start_panic(msg.spec_description(), unwind_of(unwind)),
        }
    }
}

impl MiriEvalContext {
    /// Tags the top frame of the active thread with catch data.
    fn attach_catch(&mut self, data: CatchUnwindData)
        requires
            old(self)@.wf(),
        ensures
            final(self)@ == old(self)@.attach_catch(data),
            final(self)@.wf(),
    {
        let a: usize = self.active_thread as usize;
        let n: usize = self.threads[a].stack.len();
        if n > 0 {
            self.threads[a].stack[n - 1].extra.catch_panic = Some(data);
            proof {
                let stack = old(self)@.active().stack;
                let top = stack.last();
                assert(self.threads[a as int]@.stack =~= stack.update(
                    n - 1,
                    FrameView { extra: FrameData { catch_panic: Some(data), ..top.extra }, ..top },
                ));
                assert(self@.threads =~= old(self)@.attach_catch(data).threads);
            }
        }
    }

    /// Replaces the pending panic payload of the active thread and returns
    /// the one it had.
    fn replace_panic_payload(&mut self, payload: Option<Scalar>) -> (r: Option<Scalar>)
        requires
            old(self)@.wf(),
        ensures
            r == old(self)@.active().panic_payload,
            final(self)@ == old(self)@.with_active(
                ThreadView { panic_payload: payload, ..old(self)@.active() },
            ),
            final(self)@.wf(),
    {
        let a: usize = self.active_thread as usize;
        let r = self.threads[a].panic_payload;
        self.threads[a].panic_payload = payload;
        proof {
            assert(self@.threads =~= old(self)@.with_active(
                ThreadView { panic_payload: payload, ..old(self)@.active() },
            ).threads);
        }
        r
    }

    /// The catch function that catch data names.
    fn catch_fn_of(&self, data: &CatchUnwindData) -> (r: InterpResult<Instance>)
        ensures
            r == self@.catch_fn_of(*data),
    {
        let addr: u64 = data.catch_fn.to_machine_usize()?;
        let f: Instance = self.get_fn_instance(addr)?;
        check_call(f, Abi::Rust, 2)?;
        Ok(f)
    }
}

/// The panic runtime of an interpreter context.
pub trait EvalContextExt: View<V = MachineView> {
    /// Handles the panic intrinsic, through which the guest's unwinding
    /// runtime hands over a panic payload as the sole argument: stores the
    /// payload in the active thread and sends the thread down the unwind path
    /// `unwind`. The thread must not have a payload pending already.
    fn handle_miri_start_panic(
        &mut self,
        abi: Abi,
        link_name: &str,
        args: &[OpTy],
        unwind: StackPopUnwind,
    ) -> (r: InterpResult<()>)
        requires
            old(self)@.wf(),
            MachineView::start_panic_payload(abi, args@) is Ok ==> old(
                self,
            )@.active().panic_payload is None,
        ensures
            (final(self)@, r) == old(self)@.handle_miri_start_panic(abi, args@, unwind),
            final(self)@.wf(),
    ;

    /// Handles the protected call `try(try_fn, data, catch_fn)`, whose
    /// result goes to `dest` and whose caller resumes at `ret`: calls `try_fn`
    /// with `data` and lets 0 be the result when it returns normally.
    fn handle_try(&mut self, args: &[OpTy], dest: &PlaceTy, ret: BasicBlock) -> (r: InterpResult<
        (),
    >)
        requires
            old(self)@.wf(),
        ensures
            (final(self)@, r) == old(self)@.handle_try(args@, *dest, ret),
            final(self)@.wf(),
    ;

    /// The frame-pop hook, which the interpreter core calls for every frame
    /// that it has popped, with the frame's data. A thread that unwinds
    /// through a frame with catch data must have a payload pending.
    fn handle_stack_pop(&mut self, extra: FrameData, unwinding: bool) -> (r: InterpResult<
        StackPopJump,
    >)
        requires
            old(self)@.wf(),
            unwinding && extra.catch_panic is Some ==> old(self)@.active().panic_payload is Some,
        ensures
            (final(self)@, r) == old(self)@.handle_stack_pop(extra, unwinding),
            final(self)@.wf(),
    ;

    /// Starts a panic of the guest with the given message. The machine
    /// must know the guest's panic entry point.
    fn start_panic(&mut self, msg: &str, unwind: StackPopUnwind) -> (r: InterpResult<()>)
        requires
            old(self)@.wf(),
            old(self)@.panic_fn is Some,
        ensures
            (final(self)@, r) == old(self)@.start_panic(msg@, unwind),
            final(self)@.wf(),
    ;

    /// Makes the guest panic for a failed assertion, to continue at
    /// `unwind` when the panic unwinds. The machine must know the guest's
    /// entry point for the failure.
    fn assert_panic(&mut self, msg: &AssertMessage, unwind: Option<BasicBlock>) -> (r:
        InterpResult<()>)
        requires
            old(self)@.wf(),
            *msg is BoundsCheck ==> old(self)@.panic_bounds_check_fn is Some,
            !(*msg is BoundsCheck) ==> old(self)@.panic_fn is Some,
        ensures
            (final(self)@, r) == old(self)@.assert_panic(*msg, unwind),
            final(self)@.wf(),
    ;
}

impl EvalContextExt for MiriEvalContext {
    fn handle_miri_start_panic(
        &mut self,
        abi: Abi,
        link_name: &str,
        args: &[OpTy],
        unwind: StackPopUnwind,
    ) -> (r: InterpResult<()>) {
        check_shim(abi, Abi::Rust, args, 1)?;
        let payload: Scalar = args[0].read_scalar()?;
        self.replace_panic_payload(Some(payload));
        self.unwind_to_block(unwind)
    }

    fn handle_try(&mut self, args: &[OpTy], dest: &PlaceTy, ret: BasicBlock) -> (r: InterpResult<
        (),
    >) {
        check_arg_count(args, 3)?;
        let try_fn: u64 = args[0].read_pointer()?;
        let data: Scalar = args[1].read_scalar()?;
        let catch_fn: Scalar = args[2].read_scalar()?;
        let f_instance: Instance = self.get_fn_instance(try_fn)?;
        check_call(f_instance, Abi::Rust, 1)?;
        self.write_null(dest)?;
        let mut call_args: Vec<Immediate> = Vec::new();
        call_args.push(Immediate::Scalar(data));
        assert(call_args@ =~= seq![Immediate::Scalar(data)]);
        let called = self.call_function(
            f_instance,
            Abi::Rust,
            call_args,
            Some(PlaceTy::dangling_unit()),
            StackPopCleanup::Goto { ret: Some(ret), unwind: StackPopUnwind::Skip },
        );
        assert(called is Ok);
        if self.panic_strategy == PanicStrategy::Unwind {
            self.attach_catch(CatchUnwindData { catch_fn, data, dest: *dest, ret });
        }
        Ok(())
    }

    fn handle_stack_pop(&mut self, extra: FrameData, unwinding: bool) -> (r: InterpResult<
        StackPopJump,
    >) {
        self.end_call(extra.call_id);
        match (unwinding, extra.catch_panic) {
            (true, Some(data)) => {
                let f_instance: Instance = self.catch_fn_of(&data)?;
                self.write_scalar(Scalar::from_i32(1), &data.dest)?;
                let payload: Scalar = self.replace_panic_payload(None).unwrap();
                let mut call_args: Vec<Immediate> = Vec::new();
                call_args.push(Immediate::Scalar(data.data));
                call_args.push(Immediate::Scalar(payload));
                assert(call_args@ =~= seq![Immediate::Scalar(data.data), Immediate::Scalar(payload)]);
                let called = self.call_function(
                    f_instance,
                    Abi::Rust,
                    call_args,
                    Some(PlaceTy::dangling_unit()),
                    StackPopCleanup::Goto { ret: Some(data.ret), unwind: StackPopUnwind::Skip },
                );
                assert(called is Ok);
                Ok(StackPopJump::NoJump)
            },
            _ => Ok(StackPopJump::Normal),
        }
    }

    fn start_panic(&mut self, msg: &str, unwind: StackPopUnwind) -> (r: InterpResult<()>) {
        let panic: Instance = self.panic_fn.unwrap();
        check_call(panic, Abi::Rust, 1)?;
        let arg: Immediate = self.allocate_str(msg)?;
        let mut call_args: Vec<Immediate> = Vec::new();
        call_args.push(arg);
        assert(call_args@ =~= seq![arg]);
        self.call_function(
            panic,
            Abi::Rust,
            call_args,
            None,
            StackPopCleanup::Goto { ret: None, unwind },
        )
    }

    fn assert_panic(&mut self, msg: &AssertMessage, unwind: Option<BasicBlock>) -> (r:
        InterpResult<()>) {
        let unwind: StackPopUnwind = match unwind {
            Some(cleanup) => StackPopUnwind::Cleanup(cleanup),
            None => StackPopUnwind::Skip,
        };
        match msg {
            AssertMessage::BoundsCheck { len, index } => {
                let index: Scalar = index.read_scalar()?;
                let len: Scalar = len.read_scalar()?;
                let panic_bounds_check: Instance = self.panic_bounds_check_fn.unwrap();
                let mut call_args: Vec<Immediate> = Vec::new();
                call_args.push(Immediate::Scalar(index));
                call_args.push(Immediate::Scalar(len));
                assert(call_args@ =~= seq![Immediate::Scalar(index), Immediate::Scalar(len)]);
                self.call_function(
                    panic_bounds_check,
                    Abi::Rust,
                    call_args,
                    None,
                    StackPopCleanup::Goto { ret: None, unwind },
                )
            },
            _ => self.start_panic(msg.description(), unwind),
        }
    }
}

/// A protected call whose function returns normally. Take a machine on
/// which the protected call succeeds, let the interpreter core pop the frame
/// of the function that was tried, and let it call the frame-pop hook for a
/// normal return. Then the frame that was popped is that of the function to
/// try, called with `data` and set to resume the caller at `ret`; the hook
/// asks for an ordinary pop; the result of the protected call is 0; and
/// every thread is as it was before the protected call, so that no frame of
/// the catch function has been pushed.
pub proof fn lemma_try_returns_normally(
    m: MachineView,
    args: Seq<OpTy>,
    dest: PlaceTy,
    ret: BasicBlock,
)
    requires
        m.wf(),
        m.handle_try(args, dest, ret).1 is Ok,
    ensures
        ({
            let (try_fn, data, catch_fn) = try_args(args)->Ok_0;
            let tried = m.handle_try(args, dest, ret).0;
            let (popped, frame) = tried.pop_frame();
            let (after, jump) = popped.handle_stack_pop(frame->Some_0.extra, false);
            &&& frame is Some
            &&& Ok::<Instance, InterpError>(frame->Some_0.instance) == m.get_fn_instance(try_fn)
            &&& frame->Some_0.args == seq![Immediate::Scalar(data)]
            &&& frame->Some_0.return_to_block == return_to(ret)
            &&& jump == Ok::<StackPopJump, InterpError>(StackPopJump::Normal)
            &&& after.memory.contains_key(dest.addr)
            &&& after.memory[dest.addr] == (Scalar { data: 0, size: dest.layout.size as u8 })
            &&& after.threads == m.threads
        }),
{
    let tried = m.handle_try(args, dest, ret).0;
    let (popped, frame) = tried.pop_frame();
    let after = popped.handle_stack_pop(frame->Some_0.extra, false).0;
    let stack = m.active().stack;
    assert(tried.active().stack.len() == stack.len() + 1);
    assert(popped.active().stack =~= stack);
    assert(after.threads =~= m.threads);
}

/// A protected call whose function panics. Take a machine on which panics
/// unwind and the protected call succeeds, with no payload pending and with
/// a catch function that can be called. Let the function that was tried
/// start a panic with `payload`, let the interpreter core pop its frame, and
/// let it call the frame-pop hook for an unwinding pop. Then the hook tells
/// the core not to jump; the result of the protected call is 1; no payload
/// is pending any more; and the stack of the thread is the stack from before
/// the protected call with exactly one frame on top: that of the catch
/// function, called with `data` and `payload`, and set to resume the caller
/// of the protected call at `ret`.
pub proof fn lemma_try_catches_panic(
    m: MachineView,
    args: Seq<OpTy>,
    dest: PlaceTy,
    ret: BasicBlock,
    payload: OpTy,
    unwind: StackPopUnwind,
)
    requires
        m.wf(),
        m.panic_strategy == PanicStrategy::Unwind,
        m.handle_try(args, dest, ret).1 is Ok,
        m.active().panic_payload is None,
        m.catch_fn_of(
            CatchUnwindData { catch_fn: try_args(args)->Ok_0.2, data: try_args(args)->Ok_0.1, dest, ret },
        ) is Ok,
        dest.layout.size == 4,
        payload.value is Some,
        unwind != StackPopUnwind::NotAllowed,
    ensures
        ({
            let (try_fn, data, catch_fn) = try_args(args)->Ok_0;
            let tried = m.handle_try(args, dest, ret).0;
            let (panicking, started) = tried.handle_miri_start_panic(
                Abi::Rust,
                seq![payload],
                unwind,
            );
            let (popped, frame) = panicking.pop_frame();
            let (after, jump) = popped.handle_stack_pop(frame->Some_0.extra, true);
            let stack = after.active().stack;
            &&& started is Ok
            &&& panicking.active().panic_payload == payload.value
            &&& frame is Some
            &&& jump == Ok::<StackPopJump, InterpError>(StackPopJump::NoJump)
            &&& after.memory[dest.addr] == (Scalar { data: 1, size: 4 })
            &&& after.active().panic_payload is None
            &&& stack.len() == m.active().stack.len() + 1
            &&& stack.drop_last() == m.active().stack
            &&& Ok::<Instance, InterpError>(stack.last().instance) == m.catch_fn_of(
                CatchUnwindData { catch_fn, data, dest, ret },
            )
            &&& stack.last().args == seq![
                Immediate::Scalar(data),
                Immediate::Scalar(payload.value->Some_0),
            ]
            &&& stack.last().return_to_block == return_to(ret)
        }),
{
    let (try_fn, data, catch_fn) = try_args(args)->Ok_0;
    let tried = m.handle_try(args, dest, ret).0;
    let (panicking, started) = tried.handle_miri_start_panic(Abi::Rust, seq![payload], unwind);
    let (popped, frame) = panicking.pop_frame();
    let (after, jump) = popped.handle_stack_pop(frame->Some_0.extra, true);
    let stack0 = m.active().stack;
    assert(tried.active().stack.len() == stack0.len() + 1);
    assert(panicking.active().stack.len() == stack0.len() + 1);
    assert(popped.active().stack =~= stack0);
    assert(frame->Some_0.extra.catch_panic == Some(CatchUnwindData { catch_fn, data, dest, ret }));
    assert(after.active().stack.drop_last() =~= stack0);
}

} // verus!
