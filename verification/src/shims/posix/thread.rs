//! The POSIX thread functions.

use vstd::prelude::*;
use crate::errors::{InterpError, InterpResult, UbKind, UnsupportedKind};
use crate::eval_context::{call_check, check_call, MachineView, MemoryKind, MiriEvalContext};
use crate::scalar::{Immediate, OpTy, PlaceTy, Scalar, TyLayout};
use crate::shims::foreign_items::{check_dest_fits, check_dest_uint};
use crate::shims::posix::sync::{status_of, word_at};
use crate::thread::{Abi, Instance, StackPopCleanup, ThreadId};

verus! {

/// The thread that the operand names.
pub open spec fn spec_read_thread_id(op: OpTy) -> InterpResult<ThreadId> {
    match OpTy::spec_read_pointer(op) {
        Err(e) => Err(e),
        Ok(id) => if id > u32::MAX {
            Err(InterpError::UndefinedBehavior(UbKind::InvalidThreadId))
        } else {
            Ok(id as u32)
        },
    }
}

/// The thread that the operand names: a pointer-sized integer that is the
/// identity of a thread.
pub fn read_thread_id(op: &OpTy) -> (r: InterpResult<ThreadId>)
    ensures
        r == spec_read_thread_id(*op),
{
    let id: u64 = op.read_pointer()?;
    if id > u32::MAX as u64 {
        Err(InterpError::UndefinedBehavior(UbKind::InvalidThreadId))
    } else {
        Ok(id as u32)
    }
}

/// What `pthread_create` needs of its arguments: the place for the new
/// thread's identity, the start function, which must take one argument
/// through the C ABI, and the argument for it.
pub open spec fn create_args(m: MachineView, thread: OpTy, start: OpTy, arg: OpTy) -> InterpResult<
    (PlaceTy, Instance, Scalar),
> {
    match OpTy::spec_deref(thread) {
        Err(e) => Err(e),
        Ok(place) => match OpTy::spec_read_pointer(start) {
            Err(e) => Err(e),
            Ok(fn_ptr) => match m.get_fn_instance(fn_ptr) {
                Err(e) => Err(e),
                Ok(instance) => match call_check(instance, Abi::C, 1) {
                    Err(e) => Err(e),
                    Ok(()) => match OpTy::spec_read_scalar(arg) {
                        Err(e) => Err(e),
                        Ok(func_arg) => if m.threads.len() >= u32::MAX {
                            Err(InterpError::Unsupported(UnsupportedKind::TooManyThreads))
                        } else {
                            match check_dest_uint(place, m.threads.len() as u64) {
                                Err(e) => Err(e),
                                Ok(()) => Ok((place, instance, func_arg)),
                            }
                        },
                    },
                },
            },
        },
    }
}

impl MachineView {
    /// `pthread_create`: a new thread comes into being, runnable at once.
    /// Its identity is stored where `thread` points, and its stack holds one
    /// frame, which calls the start function with `arg` and is the bottom of
    /// the stack. The value that the start function returns goes to a place
    /// that is set aside for it. The active thread stays active. On failure
    /// nothing has changed.
    pub open spec fn pthread_create(self, thread: OpTy, attr: OpTy, start: OpTy, arg: OpTy) -> (
        MachineView,
        InterpResult<i32>,
    ) {
        match create_args(self, thread, start, arg) {
            Err(e) => (self, Err(e)),
            Ok((place, instance, func_arg)) => match self.allocate(8, 8, MemoryKind::Machine) {
                (_, Err(e)) => (self, Err(e)),
                (allocated, Ok(ret_addr)) => {
                    let id = self.threads.len() as u32;
                    let created = allocated.create_thread().0.store(
                        Scalar { data: id as u64, size: place.layout.size as u8 },
                        place,
                    );
                    (
                        created.set_active_thread(id).call_function(
                            instance,
                            Abi::C,
                            seq![Immediate::Scalar(func_arg)],
                            Some(word_at(ret_addr)),
                            StackPopCleanup::Root { cleanup: true },
                        ).0.set_active_thread(self.active_thread),
                        Ok(0),
                    )
                },
            },
        }
    }

    /// `pthread_join`: the active thread joins the thread that `thread`
    /// names, and the value that this thread returns goes where `retval`
    /// points, unless `retval` is null.
    pub open spec fn pthread_join(self, thread: OpTy, retval: OpTy) -> (
        MachineView,
        InterpResult<i32>,
    ) {
        match spec_read_thread_id(thread) {
            Err(e) => (self, Err(e)),
            Ok(id) => match OpTy::spec_read_optional_addr(retval) {
                Err(e) => (self, Err(e)),
                Ok(None) => status_of(self.join_thread(id, None)),
                Ok(Some(addr)) => status_of(self.join_thread(id, Some(word_at(addr)))),
            },
        }
    }

    /// `pthread_detach`: detaches the thread that `thread` names.
    pub open spec fn pthread_detach(self, thread: OpTy) -> (MachineView, InterpResult<i32>) {
        match spec_read_thread_id(thread) {
            Err(e) => (self, Err(e)),
            Ok(id) => status_of(self.detach_thread(id)),
        }
    }

    /// `pthread_self`: the identity of the active thread goes to `dest`.
    pub open spec fn pthread_self(self, dest: PlaceTy) -> (MachineView, InterpResult<()>) {
        match check_dest_uint(dest, self.active_thread as u64) {
            Err(e) => (self, Err(e)),
            Ok(()) => (
                self.store(
                    Scalar { data: self.active_thread as u64, size: dest.layout.size as u8 },
                    dest,
                ),
                Ok(()),
            ),
        }
    }

    /// `sched_yield`: the active thread lets another thread run.
    pub open spec fn sched_yield(self) -> (MachineView, InterpResult<i32>) {
        (self.yield_active_thread(), Ok(0))
    }
}

impl MiriEvalContext {
    /// What `pthread_create` needs of its arguments.
    fn create_args(&self, thread: &OpTy, start: &OpTy, arg: &OpTy) -> (r: InterpResult<
        (PlaceTy, Instance, Scalar),
    >)
        ensures
            r == create_args(self@, *thread, *start, *arg),
    {
        let place: PlaceTy = thread.deref_operand()?;
        let fn_ptr: u64 = start.read_pointer()?;
        let instance: Instance = self.get_fn_instance(fn_ptr)?;
        check_call(instance, Abi::C, 1)?;
        let func_arg: Scalar = arg.read_scalar()?;
        if self.threads.len() >= u32::MAX as usize {
            return Err(InterpError::Unsupported(UnsupportedKind::TooManyThreads));
        }
        check_dest_fits(&place, self.threads.len() as u64)?;
        Ok((place, instance, func_arg))
    }

    /// `pthread_create`: creates a thread that runs the function `start`
    /// with the argument `arg`, and stores its identity where `thread`
    /// points. The attributes are not looked at.
    pub fn pthread_create(&mut self, thread: &OpTy, attr: &OpTy, start: &OpTy, arg: &OpTy) -> (r:
        InterpResult<i32>)
        requires
            old(self)@.wf(),
        ensures
            (final(self)@, r) == old(self)@.pthread_create(*thread, *attr, *start, *arg),
            final(self)@.wf(),
    {
        let (place, instance, func_arg) = self.create_args(thread, start, arg)?;
        let ret_addr: u64 = self.allocate(8, 8, MemoryKind::Machine)?;
        let created = self.create_thread();
        assert(created is Ok);
        let id: ThreadId = match created {
            Ok(id) => id,
            Err(e) => {
                return Err(e);
            },
        };
        self.store(Scalar { data: id as u64, size: place.layout.size as u8 }, &place);
        let old_thread: ThreadId = self.set_active_thread(id);
        let mut call_args: Vec<Immediate> = Vec::new();
        call_args.push(Immediate::Scalar(func_arg));
        assert(call_args@ =~= seq![Immediate::Scalar(func_arg)]);
        let called = self.call_function(
            instance,
            Abi::C,
            call_args,
            Some(PlaceTy { addr: ret_addr, layout: TyLayout { size: 8, pointee: None } }),
            StackPopCleanup::Root { cleanup: true },
        );
        assert(called is Ok);
        self.set_active_thread(old_thread);
        Ok(0)
    }

    /// `pthread_join`: the active thread joins the thread that `thread`
    /// names, and blocks until that thread has finished.
    pub fn pthread_join(&mut self, thread: &OpTy, retval: &OpTy) -> (r: InterpResult<i32>)
        requires
            old(self)@.wf(),
        ensures
            (final(self)@, r) == old(self)@.pthread_join(*thread, *retval),
            final(self)@.wf(),
    {
        let id: ThreadId = read_thread_id(thread)?;
        let place: Option<PlaceTy> = match retval.read_optional_addr()? {
            None => None,
            Some(addr) => Some(PlaceTy { addr, layout: TyLayout { size: 8, pointee: None } }),
        };
        self.join_thread(id, place)?;
        Ok(0)
    }

    /// `pthread_detach`: detaches the thread that `thread` names.
    pub fn pthread_detach(&mut self, thread: &OpTy) -> (r: InterpResult<i32>)
        ensures
            (final(self)@, r) == old(self)@.pthread_detach(*thread),
            old(self)@.wf() ==> final(self)@.wf(),
    {
        let id: ThreadId = read_thread_id(thread)?;
        self.detach_thread(id)?;
        Ok(0)
    }

    /// `pthread_self`: stores the identity of the active thread at `dest`.
    pub fn pthread_self(&mut self, dest: &PlaceTy) -> (r: InterpResult<()>)
        ensures
            (final(self)@, r) == old(self)@.pthread_self(*dest),
            old(self)@.wf() ==> final(self)@.wf(),
    {
        check_dest_fits(dest, self.active_thread as u64)?;
        self.store(Scalar { data: self.active_thread as u64, size: dest.layout.size as u8 }, dest);
        Ok(())
    }

    /// `sched_yield`: the active thread lets another thread run.
    pub fn sched_yield(&mut self) -> (r: InterpResult<i32>)
        ensures
            (final(self)@, r) == old(self)@.sched_yield(),
            old(self)@.wf() ==> final(self)@.wf(),
    {
        self.yield_active_thread();
        Ok(0)
    }
}

} // verus!
