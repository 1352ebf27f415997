//! The interpreter context: the one object that holds the whole state of an
//! interpreted run, and the primitives through which the runtime acts on it.

use vstd::prelude::*;
use vstd::string::*;
use std::collections::HashMap;
use std::collections::HashSet;
use crate::errors::{InterpError, InterpResult, UbKind, UnsupportedKind};
use crate::scalar::{is_scalar_size, Immediate, PlaceTy, Scalar, POINTER_SIZE};
use crate::shims::dlsym::Dlsym;
use crate::shims::tls::{TlsData, TlsView};
use crate::sync::{SyncView, SynchronizationState};
use crate::thread::{
    Abi,
    CallId,
    Frame,
    FrameData,
    FrameLoc,
    FrameView,
    Instance,
    StackPopCleanup,
    StackPopUnwind,
    Thread,
    ThreadId,
    ThreadView,
};

verus! {

broadcast use vstd::std_specs::hash::group_hash_axioms;

/// The size of a page of guest memory.
pub const PAGE_SIZE: u64 = 4096;

/// The number of processors that the guest sees.
pub const NUM_CPUS: u64 = 1;

/// The first address that the runtime hands out.
pub const FIRST_ADDR: u64 = 0x1_0000;

/// The operating system of the target.
#[derive(Clone, Copy, PartialEq, Eq, Debug, Structural)]
pub enum TargetOs {
    Linux,
    MacOs,
    Windows,
}

/// Whether a panic of the guest unwinds the stack or aborts.
#[derive(Clone, Copy, PartialEq, Eq, Debug, Structural)]
pub enum PanicStrategy {
    Unwind,
    Abort,
}

/// What a function pointer of the guest points to.
#[derive(Clone, Copy, PartialEq, Eq, Debug, Structural)]
pub enum FnVal {
    /// A function of the guest program.
    Instance(Instance),
    /// A function that the runtime provides through dynamic symbol lookup.
    Other(Dlsym),
}

/// What an allocation is used for. Memory must be released as the kind it
/// was allocated as.
#[derive(Clone, Copy, PartialEq, Eq, Debug, Structural)]
pub enum MemoryKind {
    /// Memory of the runtime itself.
    Machine,
    /// Memory from the C allocator.
    C,
    /// Memory from the Windows heap.
    WinHeap,
}

/// A live allocation of guest memory.
#[derive(Clone, Copy, PartialEq, Eq, Debug, Structural)]
pub struct Allocation {
    pub size: u64,
    pub kind: MemoryKind,
    /// Whether the memory was asked for filled with zeros.
    pub zeroed: bool,
}

/// What the tracker of borrows knows of calls: which calls are in progress.
#[derive(Debug)]
pub struct BorrowTracker {
    pub next_call_id: CallId,
    pub active_calls: HashSet<CallId>,
}

pub struct BorrowTrackerView {
    pub next_call_id: CallId,
    pub active_calls: Set<CallId>,
}

impl View for BorrowTracker {
    type V = BorrowTrackerView;

    open spec fn view(&self) -> BorrowTrackerView {
        BorrowTrackerView { next_call_id: self.next_call_id, active_calls: self.active_calls@ }
    }
}

/// The state of an interpreted run.
pub struct MiriEvalContext {
    pub target_os: TargetOs,
    pub panic_strategy: PanicStrategy,
    /// Whether an unsupported foreign function makes the guest panic rather
    /// than stop the interpretation.
    pub panic_on_unsupported: bool,
    /// The guest's entry point for panics with a message.
    pub panic_fn: Option<Instance>,
    /// The guest's entry point for failed bounds checks.
    pub panic_bounds_check_fn: Option<Instance>,
    /// The address of the guest's command line.
    pub cmd_line: Option<u64>,
    pub threads: Vec<Thread>,
    pub active_thread: ThreadId,
    /// Whether the active thread has asked to let another thread run.
    pub yield_active_thread: bool,
    /// Guest memory: the scalar stored at each address that holds one.
    pub memory: HashMap<u64, Scalar>,
    /// The strings that the runtime has placed in guest memory.
    pub strings: HashMap<u64, String>,
    /// The functions that guest pointers can point to.
    pub functions: HashMap<u64, FnVal>,
    pub allocations: HashMap<u64, Allocation>,
    /// The lowest address that was never handed out.
    pub next_addr: u64,
    pub tls: TlsData,
    pub sync: SynchronizationState,
    /// The record of the borrow tracker, if borrows are tracked.
    pub stacked_borrows: Option<BorrowTracker>,
    /// The simulated time, in nanoseconds.
    pub clock: u64,
}

/// The mathematical view of a [`MiriEvalContext`].
pub struct MachineView {
    pub target_os: TargetOs,
    pub panic_strategy: PanicStrategy,
    pub panic_on_unsupported: bool,
    pub panic_fn: Option<Instance>,
    pub panic_bounds_check_fn: Option<Instance>,
    pub cmd_line: Option<u64>,
    pub threads: Seq<ThreadView>,
    pub active_thread: ThreadId,
    pub yield_active_thread: bool,
    pub memory: Map<u64, Scalar>,
    pub strings: Map<u64, Seq<char>>,
    pub functions: Map<u64, FnVal>,
    pub allocations: Map<u64, Allocation>,
    pub next_addr: u64,
    pub tls: TlsView,
    pub sync: SyncView,
    pub stacked_borrows: Option<BorrowTrackerView>,
    pub clock: u64,
}

impl View for MiriEvalContext {
    type V = MachineView;

    open spec fn view(&self) -> MachineView {
        MachineView {
            target_os: self.target_os,
            panic_strategy: self.panic_strategy,
            panic_on_unsupported: self.panic_on_unsupported,
            panic_fn: self.panic_fn,
            panic_bounds_check_fn: self.panic_bounds_check_fn,
            cmd_line: self.cmd_line,
            threads: self.threads@.map_values(|t: Thread| t@),
            active_thread: self.active_thread,
            yield_active_thread: self.yield_active_thread,
            memory: self.memory@,
            strings: self.strings@.map_values(|s: String| s@),
            functions: self.functions@,
            allocations: self.allocations@,
            next_addr: self.next_addr,
            tls: self.tls@,
            sync: self.sync@,
            stacked_borrows: match self.stacked_borrows {
                Some(b) => Some(b@),
                None => None,
            },
            clock: self.clock,
        }
    }
}

impl MachineView {
    /// The machine at start-up: one runnable thread, the main thread, with an
    /// empty stack, and nothing else.
    pub open spec fn new(
        target_os: TargetOs,
        panic_strategy: PanicStrategy,
        track_borrows: bool,
    ) -> MachineView {
        MachineView {
            target_os,
            panic_strategy,
            panic_on_unsupported: false,
            panic_fn: None,
            panic_bounds_check_fn: None,
            cmd_line: None,
            threads: seq![ThreadView::fresh()],
            active_thread: 0,
            yield_active_thread: false,
            memory: Map::empty(),
            strings: Map::empty(),
            functions: Map::empty(),
            allocations: Map::empty(),
            next_addr: FIRST_ADDR,
            tls: TlsView::new(),
            sync: SyncView::new(),
            stacked_borrows: if track_borrows {
                Some(BorrowTrackerView { next_call_id: 1, active_calls: Set::empty() })
            } else {
                None
            },
            clock: 0,
        }
    }

    /// The active thread exists, thread identities fit their type,
    /// addresses that are handed out are not null, every synchronization
    /// object is well formed, and so is the table of thread-local storage
    /// keys. A machine that turns unsupported functions into panics knows the
    /// guest's panic entry point.
    pub open spec fn wf(self) -> bool {
        &&& self.active_thread < self.threads.len()
        &&& self.threads.len() <= u32::MAX
        &&& self.next_addr >= FIRST_ADDR
        &&& self.sync.wf()
        &&& self.tls.wf()
        &&& self.panic_on_unsupported ==> self.panic_fn is Some
    }

    /// The active thread.
    pub open spec fn active(self) -> ThreadView {
        self.threads[self.active_thread as int]
    }

    /// The machine with thread `t` replaced; unchanged if there is no thread `t`.
    pub open spec fn with_thread(self, t: ThreadId, thread: ThreadView) -> MachineView {
        if t < self.threads.len() {
            MachineView { threads: self.threads.update(t as int, thread), ..self }
        } else {
            self
        }
    }

    /// The machine with the active thread replaced.
    pub open spec fn with_active(self, thread: ThreadView) -> MachineView {
        self.with_thread(self.active_thread, thread)
    }

    /// Whether the function that the active thread currently runs belongs to
    /// the guest's standard library.
    pub open spec fn frame_in_std(self) -> bool {
        self.active().stack.len() > 0 && self.active().stack.last().instance.in_std
    }

    /// Stores `value` at `place`. The place must not be null and must have
    /// the width of the value.
    pub open spec fn write_scalar(self, value: Scalar, place: PlaceTy) -> (
        MachineView,
        InterpResult<()>,
    ) {
        if place.addr == 0 {
            (self, Err(InterpError::UndefinedBehavior(UbKind::NullDereference)))
        } else if place.layout.size != value.size {
            (
                self,
                Err(
                    InterpError::UndefinedBehavior(
                        UbKind::PlaceSizeMismatch { place: place.layout.size, value: value.size },
                    ),
                ),
            )
        } else {
            (MachineView { memory: self.memory.insert(place.addr, value), ..self }, Ok(()))
        }
    }

    /// Stores zero at `place`, in the width of the place.
    pub open spec fn write_null(self, place: PlaceTy) -> (MachineView, InterpResult<()>) {
        if place.layout.size == 1 || place.layout.size == 2 || place.layout.size == 4
            || place.layout.size == 8 {
            self.write_scalar(Scalar { data: 0, size: place.layout.size as u8 }, place)
        } else {
            (
                self,
                Err(
                    InterpError::UndefinedBehavior(
                        UbKind::PlaceSizeMismatch { place: place.layout.size, value: 8 },
                    ),
                ),
            )
        }
    }

    /// The scalar stored at `place`, which must be initialized and have the
    /// width of the place.
    pub open spec fn read_scalar_at(self, place: PlaceTy) -> InterpResult<Scalar> {
        if !self.memory.contains_key(place.addr) {
            Err(InterpError::UndefinedBehavior(UbKind::UninitializedRead))
        } else if self.memory[place.addr].size != place.layout.size {
            Err(
                InterpError::UndefinedBehavior(
                    UbKind::PlaceSizeMismatch {
                        place: place.layout.size,
                        value: self.memory[place.addr].size,
                    },
                ),
            )
        } else {
            Ok(self.memory[place.addr])
        }
    }

    /// The guest function at address `addr`.
    pub open spec fn get_ptr_fn(self, addr: u64) -> InterpResult<FnVal> {
        if self.functions.contains_key(addr) {
            Ok(self.functions[addr])
        } else {
            Err(InterpError::UndefinedBehavior(UbKind::InvalidFunctionPointer))
        }
    }

    /// The function of the guest program at address `addr`.
    pub open spec fn get_fn_instance(self, addr: u64) -> InterpResult<Instance> {
        match self.get_ptr_fn(addr) {
            Ok(FnVal::Instance(i)) => Ok(i),
            Ok(FnVal::Other(_)) => Err(
                InterpError::UndefinedBehavior(UbKind::InvalidFunctionPointer),
            ),
            Err(e) => Err(e),
        }
    }

    /// The data that a new frame starts with: a fresh call identity, which
    /// the borrow tracker records as active, and no catch data. Without an
    /// borrow tracker every call has identity 0.
    pub open spec fn init_frame_extra(self) -> (MachineView, FrameData) {
        match self.stacked_borrows {
            Some(b) => (
                MachineView {
                    stacked_borrows: Some(
                        BorrowTrackerView {
                            next_call_id: if b.next_call_id < u64::MAX {
                                (b.next_call_id + 1) as u64
                            } else {
                                b.next_call_id
                            },
                            active_calls: b.active_calls.insert(b.next_call_id),
                        },
                    ),
                    ..self
                },
                FrameData { call_id: b.next_call_id, catch_panic: None },
            ),
            None => (self, FrameData { call_id: 0, catch_panic: None }),
        }
    }

    /// Tells the borrow tracker that the call `id` has ended.
    pub open spec fn end_call(self, id: CallId) -> MachineView {
        match self.stacked_borrows {
            Some(b) => MachineView {
                stacked_borrows: Some(
                    BorrowTrackerView { active_calls: b.active_calls.remove(id), ..b },
                ),
                ..self
            },
            None => self,
        }
    }

    /// Pushes `frame` on the stack of the active thread.
    pub open spec fn push_frame(self, frame: FrameView) -> MachineView {
        self.with_active(ThreadView { stack: self.active().stack.push(frame), ..self.active() })
    }

    /// Starts a call of `f` on the active thread: checks the ABI and the
    /// number of arguments against the function, and pushes a frame that
    /// starts at the function's entry, with a fresh call identity.
    pub open spec fn call_function(
        self,
        f: Instance,
        caller_abi: Abi,
        args: Seq<Immediate>,
        dest: Option<PlaceTy>,
        stack_pop: StackPopCleanup,
    ) -> (MachineView, InterpResult<()>) {
        if call_check(f, caller_abi, args.len()) is Err {
            (self, call_check(f, caller_abi, args.len()))
        } else {
            let (m, extra) = self.init_frame_extra();
            (
                m.push_frame(
                    FrameView {
                        instance: f,
                        args,
                        return_place: dest,
                        return_to_block: stack_pop,
                        loc: FrameLoc::Block(0),
                        extra,
                    },
                ),
                Ok(()),
            )
        }
    }

    /// Sets the "last error" of the active thread.
    pub open spec fn set_last_error(self, value: Scalar) -> MachineView {
        self.with_active(ThreadView { last_error: value, ..self.active() })
    }

    /// Makes the active thread continue on its unwind path: at the cleanup
    /// label if there is one, else by popping its frame.
    pub open spec fn unwind_to_block(self, unwind: StackPopUnwind) -> (
        MachineView,
        InterpResult<()>,
    ) {
        let stack = self.active().stack;
        if unwind == StackPopUnwind::NotAllowed {
            (self, Err(InterpError::UndefinedBehavior(UbKind::UnwindNotAllowed)))
        } else if stack.len() == 0 {
            (self, Ok(()))
        } else {
            let loc = match unwind {
                StackPopUnwind::Cleanup(block) => FrameLoc::Block(block),
                _ => FrameLoc::Unwinding,
            };
            (
                self.with_active(
                    ThreadView {
                        stack: stack.update(stack.len() - 1, FrameView { loc, ..stack.last() }),
                        ..self.active()
                    },
                ),
                Ok(()),
            )
        }
    }
}

/// A call of the guest function `f` must use the ABI of `f` and pass as many
/// arguments as `f` takes.
pub open spec fn call_check(f: Instance, caller_abi: Abi, nargs: nat) -> InterpResult<()> {
    if f.abi != caller_abi {
        Err(InterpError::UndefinedBehavior(UbKind::AbiMismatch))
    } else if nargs != f.arity {
        Err(
            InterpError::UndefinedBehavior(
                UbKind::WrongArgumentCount { got: nargs as u64, expected: f.arity },
            ),
        )
    } else {
        Ok(())
    }
}

/// Checks the ABI and the number of arguments of a call of the guest function `f`.
pub fn check_call(f: Instance, caller_abi: Abi, nargs: usize) -> (r: InterpResult<()>)
    ensures
        r == call_check(f, caller_abi, nargs as nat),
{
    if f.abi != caller_abi {
        Err(InterpError::UndefinedBehavior(UbKind::AbiMismatch))
    } else if nargs as u64 != f.arity {
        Err(
            InterpError::UndefinedBehavior(
                UbKind::WrongArgumentCount { got: nargs as u64, expected: f.arity },
            ),
        )
    } else {
        Ok(())
    }
}

/// The least multiple of `align` that is not below `addr`. An alignment of
/// 0 counts as 1.
pub open spec fn align_up(addr: u64, align: u64) -> int {
    let a = if align == 0 {
        1u64
    } else {
        align
    };
    if addr % a == 0 {
        addr as int
    } else {
        addr + a - addr % a
    }
}

impl MachineView {
    /// Sets `size` bytes of guest memory aside, at an address that is a
    /// multiple of `align`, not null, and above every address handed out
    /// before. An allocation of no bytes takes up one.
    pub open spec fn allocate(self, size: u64, align: u64, kind: MemoryKind) -> (
        MachineView,
        InterpResult<u64>,
    ) {
        let start = align_up(self.next_addr, align);
        let end = start + if size == 0 {
            1
        } else {
            size as int
        };
        if end > u64::MAX {
            (self, Err(InterpError::Unsupported(UnsupportedKind::OutOfAddressSpace)))
        } else {
            (
                MachineView {
                    next_addr: end as u64,
                    allocations: self.allocations.insert(
                        start as u64,
                        Allocation { size, kind, zeroed: false },
                    ),
                    ..self
                },
                Ok(start as u64),
            )
        }
    }

    /// Releases the allocation at `addr`, which must be live and of the given kind.
    pub open spec fn deallocate(self, addr: u64, kind: MemoryKind) -> (
        MachineView,
        InterpResult<()>,
    ) {
        if self.allocations.contains_key(addr) && self.allocations[addr].kind == kind {
            (MachineView { allocations: self.allocations.remove(addr), ..self }, Ok(()))
        } else {
            (self, Err(InterpError::UndefinedBehavior(UbKind::InvalidFree)))
        }
    }

    /// Places the string `msg` in guest memory and returns the string slice
    /// that refers to it: its address and its length in bytes.
    pub open spec fn allocate_str(self, msg: Seq<char>) -> (MachineView, InterpResult<Immediate>) {
        let len = vstd::utf8::encode_utf8(msg).len();
        if len > u64::MAX {
            (self, Err(InterpError::Unsupported(UnsupportedKind::OutOfAddressSpace)))
        } else {
            match self.allocate(len as u64, 1, MemoryKind::Machine) {
                (_, Err(e)) => (self, Err(e)),
                (m, Ok(addr)) => (
                    MachineView { strings: m.strings.insert(addr, msg), ..m },
                    Ok(
                        Immediate::ScalarPair(
                            Scalar { data: addr, size: POINTER_SIZE },
                            Scalar { data: len as u64, size: POINTER_SIZE },
                        ),
                    ),
                ),
            }
        }
    }

    /// Gives the function `f` an address of its own, through which the guest
    /// can call it.
    pub open spec fn create_fn_alloc_ptr(self, f: FnVal) -> (MachineView, InterpResult<u64>) {
        match self.allocate(1, 1, MemoryKind::Machine) {
            (_, Err(e)) => (self, Err(e)),
            (m, Ok(addr)) => (MachineView { functions: m.functions.insert(addr, f), ..m }, Ok(addr)),
        }
    }

    /// A function of the guest program comes into being, with the given
    /// ABI and number of arguments, at an address of its own.
    pub open spec fn define_fn(self, abi: Abi, arity: u64, in_std: bool) -> (
        MachineView,
        InterpResult<Instance>,
    ) {
        match self.allocate(1, 1, MemoryKind::Machine) {
            (_, Err(e)) => (self, Err(e)),
            (m, Ok(addr)) => {
                let f = Instance { addr, abi, arity, in_std };
                (
                    MachineView { functions: m.functions.insert(addr, FnVal::Instance(f)), ..m },
                    Ok(f),
                )
            },
        }
    }

    /// Takes the top frame off the stack of the active thread.
    pub open spec fn pop_frame(self) -> (MachineView, Option<FrameView>) {
        let stack = self.active().stack;
        if stack.len() == 0 {
            (self, None)
        } else {
            (
                self.with_active(ThreadView { stack: stack.drop_last(), ..self.active() }),
                Some(stack.last()),
            )
        }
    }
}

/// Aligning an address up does not lower it, and moves it by less than the
/// alignment.
pub proof fn lemma_align_up(addr: u64, align: u64)
    ensures
        addr <= align_up(addr, align),
        align > 0 ==> align_up(addr, align) < addr + align,
        align > 0 ==> align_up(addr, align) % (align as int) == 0,
{
    let a = if align == 0 {
        1u64
    } else {
        align
    };
    let start = align_up(addr, align);
    assert(start % (a as int) == 0 && start >= addr && start < addr + a) by (nonlinear_arith)
        requires
            a > 0,
            start == if addr % a == 0 {
                addr as int
            } else {
                addr + a - addr % a
            },
    ;
}

/// An allocation succeeds with an address that is aligned, not null, and not
/// below any address that was handed out before; and it keeps the machine
/// well formed.
pub proof fn lemma_allocate_fresh(m: MachineView, size: u64, align: u64, kind: MemoryKind)
    requires
        m.wf(),
        align > 0,
    ensures
        m.allocate(size, align, kind).0.wf(),
        m.allocate(size, align, kind).1 matches Ok(addr) ==> {
            &&& addr % align == 0
            &&& addr >= m.next_addr
            &&& addr != 0
            &&& m.allocate(size, align, kind).0.next_addr > addr
        },
{
    let start = align_up(m.next_addr, align);
    assert(start % (align as int) == 0 && start >= m.next_addr) by (nonlinear_arith)
        requires
            align > 0,
            start == if m.next_addr % align == 0 {
                m.next_addr as int
            } else {
                m.next_addr + align - m.next_addr % align
            },
    ;
}

impl MiriEvalContext {
    /// A machine at start-up for the given target: one runnable main
    /// thread, no memory, no keys, no synchronization objects. With
    /// `track_borrows` the borrow tracker is told of every call.
    pub fn new(target_os: TargetOs, panic_strategy: PanicStrategy, track_borrows: bool) -> (ecx:
        MiriEvalContext)
        ensures
            ecx@ == MachineView::new(target_os, panic_strategy, track_borrows),
            ecx@.wf(),
    {
        let mut threads: Vec<Thread> = Vec::new();
        threads.push(Thread::new());
        let stacked_borrows = if track_borrows {
            Some(BorrowTracker { next_call_id: 1, active_calls: HashSet::new() })
        } else {
            None
        };
        let ecx = MiriEvalContext {
            target_os,
            panic_strategy,
            panic_on_unsupported: false,
            panic_fn: None,
            panic_bounds_check_fn: None,
            cmd_line: None,
            threads,
            active_thread: 0,
            yield_active_thread: false,
            memory: HashMap::new(),
            strings: HashMap::new(),
            functions: HashMap::new(),
            allocations: HashMap::new(),
            next_addr: FIRST_ADDR,
            tls: TlsData::new(),
            sync: SynchronizationState::new(),
            stacked_borrows,
            clock: 0,
        };
        proof {
            let v = MachineView::new(target_os, panic_strategy, track_borrows);
            assert(ecx@.threads =~= v.threads);
            assert(ecx@.strings =~= v.strings);
            assert(ecx@.memory =~= v.memory);
            assert(ecx@.functions =~= v.functions);
            assert(ecx@.allocations =~= v.allocations);
            if track_borrows {
                assert(ecx@.stacked_borrows->Some_0.active_calls =~= Set::empty());
            }
        }
        ecx
    }

    /// Tells the machine which guest functions are the entry points for
    /// panics with a message and for failed bounds checks.
    pub fn set_lang_items(&mut self, panic_fn: Instance, panic_bounds_check_fn: Instance)
        ensures
            final(self)@ == (MachineView {
                panic_fn: Some(panic_fn),
                panic_bounds_check_fn: Some(panic_bounds_check_fn),
                ..old(self)@
            }),
            old(self)@.wf() ==> final(self)@.wf(),
    {
        self.panic_fn = Some(panic_fn);
        self.panic_bounds_check_fn = Some(panic_bounds_check_fn);
    }

    /// Chooses whether an unsupported foreign function makes the guest
    /// panic. To turn this on, the machine must know the guest's panic entry
    /// point.
    pub fn set_panic_on_unsupported(&mut self, on: bool)
        requires
            on ==> old(self)@.panic_fn is Some,
        ensures
            final(self)@ == (MachineView { panic_on_unsupported: on, ..old(self)@ }),
            old(self)@.wf() ==> final(self)@.wf(),
    {
        self.panic_on_unsupported = on;
    }

    /// Records the address of the guest's command line.
    pub fn set_cmd_line(&mut self, addr: u64)
        ensures
            final(self)@ == (MachineView { cmd_line: Some(addr), ..old(self)@ }),
            old(self)@.wf() ==> final(self)@.wf(),
    {
        self.cmd_line = Some(addr);
    }

    pub fn get_active_thread(&self) -> (t: ThreadId)
        ensures
            t == self@.active_thread,
    {
        self.active_thread
    }

    pub fn get_total_thread_count(&self) -> (n: usize)
        ensures
            n == self@.threads.len(),
    {
        self.threads.len()
    }

    /// Whether the function that the active thread currently runs belongs to
    /// the guest's standard library.
    pub fn frame_in_std(&self) -> (r: bool)
        requires
            self@.wf(),
        ensures
            r == self@.frame_in_std(),
    {
        let a: usize = self.active_thread as usize;
        let n: usize = self.threads[a].stack.len();
        n > 0 && self.threads[a].stack[n - 1].instance.in_std
    }

    /// Stores `value` at `place`. Fails, changing nothing, if the place is
    /// null or has another width than the value.
    pub fn write_scalar(&mut self, value: Scalar, place: &PlaceTy) -> (r: InterpResult<()>)
        ensures
            (final(self)@, r) == old(self)@.write_scalar(value, *place),
            old(self)@.wf() ==> final(self)@.wf(),
    {
        if place.addr == 0 {
            Err(InterpError::UndefinedBehavior(UbKind::NullDereference))
        } else if place.layout.size != value.size as u64 {
            Err(
                InterpError::UndefinedBehavior(
                    UbKind::PlaceSizeMismatch { place: place.layout.size, value: value.size },
                ),
            )
        } else {
            self.memory.insert(place.addr, value);
            Ok(())
        }
    }

    /// Stores zero at `place`, in the width of the place.
    pub fn write_null(&mut self, place: &PlaceTy) -> (r: InterpResult<()>)
        ensures
            (final(self)@, r) == old(self)@.write_null(*place),
            old(self)@.wf() ==> final(self)@.wf(),
    {
        if is_scalar_size(place.layout.size) {
            self.write_scalar(Scalar { data: 0, size: place.layout.size as u8 }, place)
        } else {
            Err(
                InterpError::UndefinedBehavior(
                    UbKind::PlaceSizeMismatch { place: place.layout.size, value: 8 },
                ),
            )
        }
    }

    /// The scalar stored at `place`. Fails if nothing was stored there, or a
    /// scalar of another width.
    pub fn read_scalar_at(&self, place: &PlaceTy) -> (r: InterpResult<Scalar>)
        ensures
            r == self@.read_scalar_at(*place),
    {
        match self.memory.get(&place.addr) {
            None => Err(InterpError::UndefinedBehavior(UbKind::UninitializedRead)),
            Some(s) => {
                if s.size as u64 != place.layout.size {
                    Err(
                        InterpError::UndefinedBehavior(
                            UbKind::PlaceSizeMismatch { place: place.layout.size, value: s.size },
                        ),
                    )
                } else {
                    Ok(*s)
                }
            },
        }
    }

    /// What the function pointer `addr` points to.
    pub fn get_ptr_fn(&self, addr: u64) -> (r: InterpResult<FnVal>)
        ensures
            r == self@.get_ptr_fn(addr),
    {
        match self.functions.get(&addr) {
            Some(f) => Ok(*f),
            None => Err(InterpError::UndefinedBehavior(UbKind::InvalidFunctionPointer)),
        }
    }

    /// The function of the guest program that the pointer `addr` points to.
    pub fn get_fn_instance(&self, addr: u64) -> (r: InterpResult<Instance>)
        ensures
            r == self@.get_fn_instance(addr),
    {
        match self.get_ptr_fn(addr)? {
            FnVal::Instance(i) => Ok(i),
            FnVal::Other(_) => Err(InterpError::UndefinedBehavior(UbKind::InvalidFunctionPointer)),
        }
    }

    /// The frame-push hook: the data that a new frame starts with.
    pub fn init_frame_extra(&mut self) -> (extra: FrameData)
        ensures
            (final(self)@, extra) == old(self)@.init_frame_extra(),
            old(self)@.wf() ==> final(self)@.wf(),
    {
        let mut tracker = self.stacked_borrows.take();
        let extra = match &mut tracker {
            Some(b) => {
                let id: CallId = b.next_call_id;
                b.active_calls.insert(id);
                if id < u64::MAX {
                    b.next_call_id = id + 1;
                }
                FrameData { call_id: id, catch_panic: None }
            },
            None => FrameData { call_id: 0, catch_panic: None },
        };
        self.stacked_borrows = tracker;
        extra
    }

    /// Tells the borrow tracker that the call `id` has ended.
    pub fn end_call(&mut self, id: CallId)
        ensures
            final(self)@ == old(self)@.end_call(id),
            old(self)@.wf() ==> final(self)@.wf(),
    {
        let mut tracker = self.stacked_borrows.take();
        match &mut tracker {
            Some(b) => {
                b.active_calls.remove(&id);
            },
            None => {},
        }
        self.stacked_borrows = tracker;
    }

    /// Pushes `frame` on the stack of the active thread.
    pub fn push_frame(&mut self, frame: Frame)
        requires
            old(self)@.wf(),
        ensures
            final(self)@ == old(self)@.push_frame(frame@),
            final(self)@.wf(),
    {
        let a: usize = self.active_thread as usize;
        self.threads[a].stack.push(frame);
        proof {
            assert(self.threads[a as int]@.stack =~= old(self).threads[a as int]@.stack.push(
                frame@,
            ));
            assert(self@.threads =~= old(self)@.push_frame(frame@).threads);
        }
    }

    /// Starts a call of the guest function `f` on the active thread. The
    /// call must use the ABI of `f` and pass as many arguments as `f` takes;
    /// otherwise nothing changes. On success the new frame is on top of the
    /// active thread's stack.
    pub fn call_function(
        &mut self,
        f: Instance,
        caller_abi: Abi,
        args: Vec<Immediate>,
        dest: Option<PlaceTy>,
        stack_pop: StackPopCleanup,
    ) -> (r: InterpResult<()>)
        requires
            old(self)@.wf(),
        ensures
            (final(self)@, r) == old(self)@.call_function(f, caller_abi, args@, dest, stack_pop),
            final(self)@.wf(),
    {
        check_call(f, caller_abi, args.len())?;
        let extra = self.init_frame_extra();
        self.push_frame(
            Frame {
                instance: f,
                args,
                return_place: dest,
                return_to_block: stack_pop,
                loc: FrameLoc::Block(0),
                extra,
            },
        );
        Ok(())
    }

    /// Sets the "last error" of the active thread.
    pub fn set_last_error(&mut self, value: Scalar)
        requires
            old(self)@.wf(),
        ensures
            final(self)@ == old(self)@.set_last_error(value),
            final(self)@.wf(),
    {
        let a: usize = self.active_thread as usize;
        self.threads[a].last_error = value;
        proof {
            assert(self@.threads =~= old(self)@.set_last_error(value).threads);
        }
    }

    /// The "last error" of the active thread.
    pub fn get_last_error(&self) -> (r: Scalar)
        requires
            self@.wf(),
        ensures
            r == self@.active().last_error,
    {
        self.threads[self.active_thread as usize].last_error
    }

    /// Makes the active thread continue on its unwind path: at the cleanup
    /// label if there is one, else by popping its frame. Unwinding where it
    /// is not allowed is a violation.
    pub fn unwind_to_block(&mut self, unwind: StackPopUnwind) -> (r: InterpResult<()>)
        requires
            old(self)@.wf(),
        ensures
            (final(self)@, r) == old(self)@.unwind_to_block(unwind),
            final(self)@.wf(),
    {
        let a: usize = self.active_thread as usize;
        let n: usize = self.threads[a].stack.len();
        let loc = match unwind {
            StackPopUnwind::NotAllowed => {
                return Err(InterpError::UndefinedBehavior(UbKind::UnwindNotAllowed));
            },
            StackPopUnwind::Cleanup(block) => FrameLoc::Block(block),
            StackPopUnwind::Skip => FrameLoc::Unwinding,
        };
        if n > 0 {
            self.threads[a].stack[n - 1].loc = loc;
            proof {
                let stack = old(self)@.active().stack;
                assert(self.threads[a as int]@.stack =~= stack.update(
                    n - 1,
                    FrameView { loc, ..stack.last() },
                ));
                assert(self@.threads =~= old(self)@.unwind_to_block(unwind).0.threads);
            }
        }
        Ok(())
    }
    /// Sets `size` bytes of guest memory aside and returns their address,
    /// which is a multiple of `align` and was never handed out before.
    pub fn allocate(&mut self, size: u64, align: u64, kind: MemoryKind) -> (r: InterpResult<u64>)
        ensures
            (final(self)@, r) == old(self)@.allocate(size, align, kind),
            old(self)@.wf() ==> final(self)@.wf(),
    {
        let a: u64 = if align == 0 {
            1
        } else {
            align
        };
        let rem: u64 = self.next_addr % a;
        let start: u128 = if rem == 0 {
            self.next_addr as u128
        } else {
            self.next_addr as u128 + a as u128 - rem as u128
        };
        let end: u128 = start + if size == 0 {
            1
        } else {
            size as u128
        };
        if end > u64::MAX as u128 {
            return Err(InterpError::Unsupported(UnsupportedKind::OutOfAddressSpace));
        }
        self.next_addr = end as u64;
        self.allocations.insert(start as u64, Allocation { size, kind, zeroed: false });
        Ok(start as u64)
    }

    /// Releases the allocation at `addr`. Releasing what is not a live
    /// allocation of the given kind is a violation and changes nothing.
    pub fn deallocate(&mut self, addr: u64, kind: MemoryKind) -> (r: InterpResult<()>)
        ensures
            (final(self)@, r) == old(self)@.deallocate(addr, kind),
            old(self)@.wf() ==> final(self)@.wf(),
    {
        let live: bool = match self.allocations.get(&addr) {
            Some(a) => a.kind == kind,
            None => false,
        };
        if live {
            self.allocations.remove(&addr);
            Ok(())
        } else {
            Err(InterpError::UndefinedBehavior(UbKind::InvalidFree))
        }
    }

    /// Places the string `msg` in guest memory and returns the string slice
    /// that refers to it.
    pub fn allocate_str(&mut self, msg: &str) -> (r: InterpResult<Immediate>)
        ensures
            (final(self)@, r) == old(self)@.allocate_str(msg@),
            old(self)@.wf() ==> final(self)@.wf(),
    {
        let len: usize = msg.as_bytes().len();
        let addr: u64 = self.allocate(len as u64, 1, MemoryKind::Machine)?;
        self.strings.insert(addr, msg.to_owned());
        proof {
            assert(self@.strings =~= old(self)@.allocate_str(msg@).0.strings);
        }
        Ok(
            Immediate::ScalarPair(
                Scalar::from_machine_usize(addr),
                Scalar::from_machine_usize(len as u64),
            ),
        )
    }

    /// Gives the function `f` an address of its own and returns it.
    pub fn create_fn_alloc_ptr(&mut self, f: FnVal) -> (r: InterpResult<u64>)
        ensures
            (final(self)@, r) == old(self)@.create_fn_alloc_ptr(f),
            old(self)@.wf() ==> final(self)@.wf(),
    {
        let addr: u64 = self.allocate(1, 1, MemoryKind::Machine)?;
        self.functions.insert(addr, f);
        Ok(addr)
    }

    /// Makes a function of the guest program known to the machine, with
    /// the given ABI and number of arguments, and returns it. The function
    /// gets an address of its own, through which the guest can call it.
    pub fn define_fn(&mut self, abi: Abi, arity: u64, in_std: bool) -> (r: InterpResult<Instance>)
        ensures
            (final(self)@, r) == old(self)@.define_fn(abi, arity, in_std),
            old(self)@.wf() ==> final(self)@.wf(),
    {
        let addr: u64 = self.allocate(1, 1, MemoryKind::Machine)?;
        let f = Instance { addr, abi, arity, in_std };
        self.functions.insert(addr, FnVal::Instance(f));
        Ok(f)
    }

    /// Takes the top frame off the stack of the active thread and returns
    /// it; `None` if the stack is empty.
    pub fn pop_frame(&mut self) -> (r: Option<Frame>)
        requires
            old(self)@.wf(),
        ensures
            final(self)@ == old(self)@.pop_frame().0,
            match r {
                Some(f) => old(self)@.pop_frame().1 == Some(f@),
                None => old(self)@.pop_frame().1 is None,
            },
            final(self)@.wf(),
    {
        let a: usize = self.active_thread as usize;
        let r = self.threads[a].stack.pop();
        proof {
            if r is Some {
                assert(self.threads[a as int]@.stack =~= old(self)@.active().stack.drop_last());
                assert(self@.threads =~= old(self)@.pop_frame().0.threads);
            } else {
                assert(self@.threads =~= old(self)@.threads);
            }
        }
        r
    }
}

} // verus!
