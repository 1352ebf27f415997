//! The emulated functions keep the wait queues and the thread table in
//! agreement: whatever a thread that runs calls, every thread in a wait queue
//! is still blocked on the object whose queue it is.

use vstd::prelude::*;
use crate::eval_context::MachineView;
use crate::scalar::{OpTy, PlaceTy};
use crate::shims::panic::AssertMessage;
use crate::shims::posix::foreign_items::{posix_symbol, ObjectOp, ObjectOp2, PosixSymbol};
use crate::shims::posix::sync::word_at;
use crate::shims::posix::thread::spec_read_thread_id;
use crate::shims::windows::foreign_items::{windows_symbol, WindowsSymbol};
use crate::sync::consistency::{
    lemma_cond_init_consistent,
    lemma_cond_signal_consistent,
    lemma_cond_wait_consistent,
    lemma_mutex_init_consistent,
    lemma_mutex_lock_consistent,
    lemma_mutex_unlock_consistent,
    lemma_rwlock_lock_consistent,
    lemma_rwlock_unlock_consistent,
    lemma_same_queues_same_states,
    lemma_thread_table_consistent,
};
use crate::thread::{Abi, BasicBlock, FrameData, StackPopUnwind, Timeout};

verus! {

/// The panic runtime keeps the machine consistent.
pub proof fn lemma_panic_runtime_consistent(
    m: MachineView,
    abi: Abi,
    args: Seq<OpTy>,
    dest: PlaceTy,
    ret: BasicBlock,
    unwind: StackPopUnwind,
    extra: FrameData,
    unwinding: bool,
)
    requires
        m.wf(),
        m.queues_consistent(),
    ensures
        m.handle_try(args, dest, ret).0.queues_consistent(),
        m.handle_miri_start_panic(abi, args, unwind).0.queues_consistent(),
        m.handle_stack_pop(extra, unwinding).0.queues_consistent(),
{
    lemma_same_queues_same_states(m, m.handle_try(args, dest, ret).0);
    lemma_same_queues_same_states(m, m.handle_miri_start_panic(abi, args, unwind).0);
    lemma_same_queues_same_states(m, m.handle_stack_pop(extra, unwinding).0);
}

/// Starting a panic keeps the machine consistent.
pub proof fn lemma_start_panic_consistent(
    m: MachineView,
    msg: Seq<char>,
    unwind: StackPopUnwind,
    assertion: AssertMessage,
    cleanup: Option<BasicBlock>,
)
    requires
        m.wf(),
        m.queues_consistent(),
    ensures
        m.start_panic(msg, unwind).0.queues_consistent(),
        m.assert_panic(assertion, cleanup).0.queues_consistent(),
{
    lemma_same_queues_same_states(m, m.start_panic(msg, unwind).0);
    lemma_same_queues_same_states(m, m.assert_panic(assertion, cleanup).0);
}

/// A POSIX function on one object, called by a thread that runs, keeps the
/// machine consistent.
pub proof fn lemma_object_op_consistent(m: MachineView, op: ObjectOp, arg: OpTy)
    requires
        m.wf(),
        m.queues_consistent(),
        m.active().state is Runnable,
    ensures
        m.object_op(op, arg).0.queues_consistent(),
{
    match OpTy::spec_read_object_addr(arg) {
        Ok(a) => {
            lemma_mutex_lock_consistent(m, a);
            lemma_mutex_unlock_consistent(m, a);
            lemma_rwlock_lock_consistent(m, a);
            lemma_rwlock_unlock_consistent(m, a);
            lemma_cond_signal_consistent(m, a);
            lemma_cond_init_consistent(m, a, None);
            match op {
                ObjectOp::MutexattrInit
                | ObjectOp::MutexattrDestroy
                | ObjectOp::CondattrInit
                | ObjectOp::CondattrDestroy => {
                    lemma_same_queues_same_states(m, m.object_op(op, arg).0);
                },
                _ => {},
            }
        },
        Err(_) => {},
    }
    match spec_read_thread_id(arg) {
        Ok(id) => {
            lemma_thread_table_consistent(m, id, None);
        },
        Err(_) => {},
    }
}

/// A POSIX function of two arguments with a status, called by a thread that
/// runs, keeps the machine consistent.
pub proof fn lemma_object_op2_consistent(m: MachineView, op: ObjectOp2, first: OpTy, second: OpTy)
    requires
        m.wf(),
        m.queues_consistent(),
        m.active().state is Runnable,
    ensures
        m.object_op2(op, first, second).0.queues_consistent(),
{
    match op {
        ObjectOp2::MutexattrSettype => {
            lemma_same_queues_same_states(m, m.object_op2(op, first, second).0);
        },
        ObjectOp2::MutexInit => {
            match (OpTy::spec_read_object_addr(first), OpTy::spec_read_optional_addr(second)) {
                (Ok(a), Ok(attr)) => {
                    lemma_mutex_init_consistent(m, a, attr);
                },
                _ => {},
            }
        },
        ObjectOp2::CondInit => {
            match (OpTy::spec_read_object_addr(first), OpTy::spec_read_optional_addr(second)) {
                (Ok(a), Ok(attr)) => {
                    lemma_cond_init_consistent(m, a, attr);
                },
                _ => {},
            }
        },
        ObjectOp2::CondWait => {
            match (OpTy::spec_read_object_addr(first), OpTy::spec_read_object_addr(second)) {
                (Ok(c), Ok(mutex)) => {
                    lemma_cond_wait_consistent(m, c, mutex, None);
                },
                _ => {},
            }
        },
        ObjectOp2::Join => {
            match (spec_read_thread_id(first), OpTy::spec_read_optional_addr(second)) {
                (Ok(id), Ok(None)) => {
                    lemma_thread_table_consistent(m, id, None);
                },
                (Ok(id), Ok(Some(addr))) => {
                    lemma_thread_table_consistent(m, id, Some(word_at(addr)));
                },
                _ => {},
            }
        },
    }
}

/// A timed wait of a thread that runs keeps the machine consistent.
pub proof fn lemma_timedwait_consistent(m: MachineView, cond: OpTy, mutex: OpTy, abstime: OpTy)
    requires
        m.wf(),
        m.queues_consistent(),
        m.active().state is Runnable,
    ensures
        m.pthread_cond_timedwait(cond, mutex, abstime).0.queues_consistent(),
{
    let (after, r) = m.pthread_cond_timedwait(cond, mutex, abstime);
    if r is Ok {
        let c = OpTy::spec_read_object_addr(cond)->Ok_0;
        let mx = OpTy::spec_read_object_addr(mutex)->Ok_0;
        let ts = OpTy::spec_deref(abstime)->Ok_0;
        lemma_cond_wait_consistent(m, c, mx, None);
        match m.read_timespec(ts.addr) {
            Ok(Some(deadline)) => {
                lemma_cond_wait_consistent(m, c, mx, Some(Timeout { deadline }));
            },
            _ => {},
        }
    }
}

/// A function of the POSIX catalogue that does not act on synchronization
/// objects or on threads keeps the machine consistent.
pub proof fn lemma_posix_plain_consistent(
    m: MachineView,
    symbol: PosixSymbol,
    abi: Abi,
    args: Seq<OpTy>,
    dest: PlaceTy,
)
    requires
        m.wf(),
        m.queues_consistent(),
        !(symbol is Object || symbol is Object2 || symbol is CondTimedwait || symbol is Create),
    ensures
        m.emulate_posix_symbol(symbol, abi, args, dest).0.queues_consistent(),
{
    let (after, r) = m.emulate_posix_symbol(symbol, abi, args, dest);
    crate::shims::posix::foreign_items::lemma_posix_symbol_failure_changes_nothing(
        m,
        symbol,
        abi,
        args,
        dest,
    );
    if r is Ok {
        match symbol {
            PosixSymbol::PosixMemalign => {
                lemma_same_queues_same_states(m, m.posix_memalign(args[0], args[1], args[2]).0);
                lemma_same_queues_same_states(m.posix_memalign(args[0], args[1], args[2]).0, after);
            },
            PosixSymbol::Dlsym => {
                lemma_same_queues_same_states(m, m.dlsym(args[0], args[1]).0);
                lemma_same_queues_same_states(m.dlsym(args[0], args[1]).0, after);
            },
            PosixSymbol::KeyCreate => {
                lemma_same_queues_same_states(m, m.pthread_key_create(args[0], args[1]).0);
                lemma_same_queues_same_states(m.pthread_key_create(args[0], args[1]).0, after);
            },
            PosixSymbol::KeyDelete => {
                lemma_same_queues_same_states(m, m.pthread_key_delete(args[0]).0);
                lemma_same_queues_same_states(m.pthread_key_delete(args[0]).0, after);
            },
            PosixSymbol::SetSpecific => {
                lemma_same_queues_same_states(m, m.pthread_setspecific(args[0], args[1]).0);
                lemma_same_queues_same_states(m.pthread_setspecific(args[0], args[1]).0, after);
            },
            PosixSymbol::Isatty => {
                lemma_same_queues_same_states(m, m.isatty(args[0]).0);
                lemma_same_queues_same_states(m.isatty(args[0]).0, after);
            },
            PosixSymbol::GetGuardSize => {
                lemma_same_queues_same_states(m, m.pthread_attr_getguardsize(args[1]).0);
                lemma_same_queues_same_states(m.pthread_attr_getguardsize(args[1]).0, after);
            },
            PosixSymbol::SelfId => {
                lemma_same_queues_same_states(m, m.pthread_self(dest).0);
            },
            PosixSymbol::SchedYield => {
                lemma_same_queues_same_states(m, m.sched_yield().0);
                lemma_same_queues_same_states(m.sched_yield().0, after);
            },
            _ => {
                lemma_same_queues_same_states(m, after);
            },
        }
    }
}

/// Whatever function of the POSIX catalogue a thread that runs calls, the
/// machine stays consistent.
pub proof fn lemma_posix_symbol_consistent(
    m: MachineView,
    symbol: PosixSymbol,
    abi: Abi,
    args: Seq<OpTy>,
    dest: PlaceTy,
)
    requires
        m.wf(),
        m.queues_consistent(),
        m.active().state is Runnable,
    ensures
        m.emulate_posix_symbol(symbol, abi, args, dest).0.queues_consistent(),
{
    let (after, r) = m.emulate_posix_symbol(symbol, abi, args, dest);
    match symbol {
        PosixSymbol::Object(op) => {
            lemma_object_op_consistent(m, op, args[0]);
            if r is Ok {
                lemma_same_queues_same_states(m.object_op(op, args[0]).0, after);
            }
        },
        PosixSymbol::Object2(op) => {
            lemma_object_op2_consistent(m, op, args[0], args[1]);
            if r is Ok {
                lemma_same_queues_same_states(m.object_op2(op, args[0], args[1]).0, after);
            }
        },
        PosixSymbol::CondTimedwait => {
            lemma_timedwait_consistent(m, args[0], args[1], args[2]);
            if r is Ok {
                lemma_same_queues_same_states(
                    m.pthread_cond_timedwait(args[0], args[1], args[2]).0,
                    after,
                );
            }
        },
        PosixSymbol::Create => {
            lemma_create_consistent(m, args[0], args[1], args[2], args[3]);
            if r is Ok {
                lemma_same_queues_same_states(
                    m.pthread_create(args[0], args[1], args[2], args[3]).0,
                    after,
                );
            }
        },
        _ => {
            lemma_posix_plain_consistent(m, symbol, abi, args, dest);
        },
    }
}

/// The creation of a thread keeps the machine consistent.
pub proof fn lemma_create_consistent(
    m: MachineView,
    thread: OpTy,
    attr: OpTy,
    start: OpTy,
    arg: OpTy,
)
    requires
        m.wf(),
        m.queues_consistent(),
    ensures
        m.pthread_create(thread, attr, start, arg).0.queues_consistent(),
{
    let after = m.pthread_create(thread, attr, start, arg).0;
    if m.pthread_create(thread, attr, start, arg).1 is Ok {
        assert(after.threads.len() == m.threads.len() + 1);
        assert forall|t: int| 0 <= t < m.threads.len() implies (#[trigger] after.threads[t]).state
            == m.threads[t].state by {}
        lemma_same_queues_same_states(m, after);
    }
}

/// Whatever POSIX function a thread that runs calls, the machine stays
/// consistent: every thread in a wait queue is still blocked on the object
/// whose queue it is.
pub proof fn lemma_posix_consistent(
    m: MachineView,
    name: Seq<char>,
    abi: Abi,
    args: Seq<OpTy>,
    dest: PlaceTy,
)
    requires
        m.wf(),
        m.queues_consistent(),
        m.active().state is Runnable,
    ensures
        m.emulate_posix(name, abi, args, dest).0.queues_consistent(),
{
    match posix_symbol(name) {
        Some(symbol) => {
            lemma_posix_symbol_consistent(m, symbol, abi, args, dest);
        },
        None => {},
    }
}

/// A function on a slim reader/writer lock, called by a thread that runs,
/// keeps the machine consistent.
pub proof fn lemma_srw_consistent(m: MachineView, lock: OpTy)
    requires
        m.wf(),
        m.queues_consistent(),
        m.active().state is Runnable,
    ensures
        m.acquire_srw_lock_exclusive(lock).0.queues_consistent(),
        m.acquire_srw_lock_shared(lock).0.queues_consistent(),
        m.release_srw_lock_exclusive(lock).0.queues_consistent(),
        m.release_srw_lock_shared(lock).0.queues_consistent(),
        m.try_acquire_srw_lock_exclusive(lock).0.queues_consistent(),
        m.try_acquire_srw_lock_shared(lock).0.queues_consistent(),
{
    match OpTy::spec_read_object_addr(lock) {
        Ok(a) => {
            lemma_rwlock_lock_consistent(m, a);
            lemma_rwlock_unlock_consistent(m, a);
        },
        Err(_) => {},
    }
}

/// A function of the Windows catalogue that acts on memory, symbols or
/// thread-local storage keeps the machine consistent.
pub proof fn lemma_windows_memory_consistent(
    m: MachineView,
    symbol: WindowsSymbol,
    abi: Abi,
    args: Seq<OpTy>,
    dest: PlaceTy,
)
    requires
        m.wf(),
        m.queues_consistent(),
        symbol is HeapAlloc || symbol is HeapFree || symbol is HeapReAlloc
            || symbol is GetSystemInfo || symbol is GetProcAddress || symbol is TlsAlloc
            || symbol is TlsGetValue || symbol is TlsSetValue,
    ensures
        m.emulate_windows_symbol(symbol, abi, args, dest).0.queues_consistent(),
{
    let (after, r) = m.emulate_windows_symbol(symbol, abi, args, dest);
    crate::shims::windows::foreign_items::lemma_windows_symbol_failure_changes_nothing(
        m,
        symbol,
        abi,
        args,
        dest,
    );
    if r is Ok {
        match symbol {
            WindowsSymbol::HeapAlloc => {
                lemma_same_queues_same_states(m, m.heap_alloc(args).0);
                lemma_same_queues_same_states(m.heap_alloc(args).0, after);
            },
            WindowsSymbol::HeapFree => {
                lemma_same_queues_same_states(m, m.heap_free(args).0);
                lemma_same_queues_same_states(m.heap_free(args).0, after);
            },
            WindowsSymbol::HeapReAlloc => {
                lemma_same_queues_same_states(m, m.heap_realloc(args).0);
                lemma_same_queues_same_states(m.heap_realloc(args).0, after);
            },
            WindowsSymbol::GetSystemInfo => {
                let place = OpTy::spec_deref(args[0])->Ok_0;
                crate::shims::windows::foreign_items::lemma_zero_fields_changes_memory_only(
                    m,
                    place.addr,
                    crate::shims::windows::foreign_items::system_info_fields().len(),
                );
                lemma_same_queues_same_states(m, m.get_system_info(args[0]).0);
            },
            WindowsSymbol::GetProcAddress => {
                lemma_same_queues_same_states(m, m.get_proc_address(args[0], args[1]).0);
                lemma_same_queues_same_states(m.get_proc_address(args[0], args[1]).0, after);
            },
            WindowsSymbol::TlsAlloc => {
                lemma_same_queues_same_states(m, m.tls_alloc(dest).0);
            },
            WindowsSymbol::TlsSetValue => {
                lemma_same_queues_same_states(m, m.tls_set_value(args[0], args[1]).0);
                lemma_same_queues_same_states(m.tls_set_value(args[0], args[1]).0, after);
            },
            _ => {
                lemma_same_queues_same_states(m, after);
            },
        }
    }
}

/// A function of the Windows catalogue on the state of the process, or one
/// that is there for the standard library only, keeps the machine consistent.
pub proof fn lemma_windows_process_consistent(
    m: MachineView,
    symbol: WindowsSymbol,
    abi: Abi,
    args: Seq<OpTy>,
    dest: PlaceTy,
)
    requires
        m.wf(),
        m.queues_consistent(),
        !(symbol is HeapAlloc || symbol is HeapFree || symbol is HeapReAlloc
            || symbol is GetSystemInfo || symbol is GetProcAddress || symbol is TlsAlloc
            || symbol is TlsGetValue || symbol is TlsSetValue || symbol is Srw || symbol is TrySrw),
    ensures
        m.emulate_windows_symbol(symbol, abi, args, dest).0.queues_consistent(),
{
    let (after, r) = m.emulate_windows_symbol(symbol, abi, args, dest);
    crate::shims::windows::foreign_items::lemma_windows_symbol_failure_changes_nothing(
        m,
        symbol,
        abi,
        args,
        dest,
    );
    if r is Ok {
        match symbol {
            WindowsSymbol::CreateThread => {
                let msg = "unsupported Miri functionality: can't create threads on Windows"@;
                lemma_start_panic_consistent(
                    m,
                    msg,
                    StackPopUnwind::Skip,
                    AssertMessage::OverflowNeg,
                    None,
                );
            },
            _ => {
                lemma_same_queues_same_states(m, after);
            },
        }
    }
}

/// Whatever function of the Windows catalogue a thread that runs calls, the
/// machine stays consistent.
pub proof fn lemma_windows_symbol_consistent(
    m: MachineView,
    symbol: WindowsSymbol,
    abi: Abi,
    args: Seq<OpTy>,
    dest: PlaceTy,
)
    requires
        m.wf(),
        m.queues_consistent(),
        m.active().state is Runnable,
    ensures
        m.emulate_windows_symbol(symbol, abi, args, dest).0.queues_consistent(),
{
    let (after, r) = m.emulate_windows_symbol(symbol, abi, args, dest);
    match symbol {
        WindowsSymbol::Srw(op) => {
            lemma_srw_consistent(m, args[0]);
        },
        WindowsSymbol::TrySrw { exclusive } => {
            lemma_srw_consistent(m, args[0]);
            if r is Ok {
                if exclusive {
                    lemma_same_queues_same_states(m.try_acquire_srw_lock_exclusive(args[0]).0, after);
                } else {
                    lemma_same_queues_same_states(m.try_acquire_srw_lock_shared(args[0]).0, after);
                }
            }
        },
        WindowsSymbol::HeapAlloc
        | WindowsSymbol::HeapFree
        | WindowsSymbol::HeapReAlloc
        | WindowsSymbol::GetSystemInfo
        | WindowsSymbol::GetProcAddress
        | WindowsSymbol::TlsAlloc
        | WindowsSymbol::TlsGetValue
        | WindowsSymbol::TlsSetValue => {
            lemma_windows_memory_consistent(m, symbol, abi, args, dest);
        },
        _ => {
            lemma_windows_process_consistent(m, symbol, abi, args, dest);
        },
    }
}

/// Whatever Windows function a thread that runs calls, the machine stays
/// consistent: every thread in a wait queue is still blocked on the object
/// whose queue it is.
pub proof fn lemma_windows_consistent(
    m: MachineView,
    name: Seq<char>,
    abi: Abi,
    args: Seq<OpTy>,
    dest: PlaceTy,
)
    requires
        m.wf(),
        m.queues_consistent(),
        m.active().state is Runnable,
    ensures
        m.emulate_windows(name, abi, args, dest).0.queues_consistent(),
{
    match windows_symbol(name) {
        Some(symbol) => {
            lemma_windows_symbol_consistent(m, symbol, abi, args, dest);
        },
        None => {},
    }
}

/// Whatever foreign function a thread that runs calls, the machine stays
/// consistent: every thread in a wait queue is still blocked on the object
/// whose queue it is.
pub proof fn lemma_foreign_item_consistent(
    m: MachineView,
    name: Seq<char>,
    abi: Abi,
    args: Seq<OpTy>,
    dest: PlaceTy,
    ret: BasicBlock,
)
    requires
        m.wf(),
        m.queues_consistent(),
        m.active().state is Runnable,
    ensures
        m.emulate_foreign_item(name, abi, args, dest, ret).0.queues_consistent(),
{
    reveal(MachineView::emulate_by_name);
    lemma_posix_consistent(m, name, abi, args, dest);
    lemma_windows_consistent(m, name, abi, args, dest);
    let (emulated, r) = m.emulate_by_name(name, abi, args, dest);
    let after = m.emulate_foreign_item(name, abi, args, dest, ret).0;
    match r {
        Ok(crate::shims::foreign_items::EmulateByNameResult::NeedsJumping) => {
            lemma_same_queues_same_states(emulated, after);
        },
        Ok(crate::shims::foreign_items::EmulateByNameResult::NotSupported) => {
            crate::shims::foreign_items::lemma_not_supported_changes_nothing(
                m,
                name,
                abi,
                args,
                dest,
            );
            lemma_start_panic_consistent(
                m,
                "can't call foreign function: "@ + name,
                StackPopUnwind::Skip,
                AssertMessage::OverflowNeg,
                None,
            );
        },
        _ => {},
    }
}

} // verus!
