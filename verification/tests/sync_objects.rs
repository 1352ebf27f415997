use miri_runtime::sync::condvar::{Condvar, CondvarWaiter};
use miri_runtime::sync::mutex::{LockOutcome, Mutex, MutexKind, MutexUnlock};
use miri_runtime::sync::rwlock::RwLock;

#[test]
fn free_mutex_is_acquired() {
    let mut m = Mutex::new(MutexKind::Normal);
    assert!(!m.is_locked());
    assert_eq!(m.lock(1), LockOutcome::Acquired);
    assert_eq!(m.owner, Some(1));
    assert_eq!(m.hold_count, 1);
    assert!(m.is_locked());
    assert!(m.is_owned_by(1));
    assert!(!m.is_owned_by(2));
}

#[test]
fn unlock_clears_the_owner_and_wakes_the_first_waiter() {
    let mut m = Mutex::new(MutexKind::Normal);
    assert_eq!(m.lock(1), LockOutcome::Acquired);
    assert_eq!(m.lock(2), LockOutcome::Blocked);
    assert_eq!(m.lock(3), LockOutcome::Blocked);
    assert_eq!(m.owner, Some(1));
    assert_eq!(m.unlock(1), MutexUnlock::Woke(2));
    assert_eq!(m.owner, None);
    assert_eq!(m.hold_count, 0);
    assert_eq!(m.queue, [3]);
    // The woken thread asks again.
    assert_eq!(m.lock(2), LockOutcome::Acquired);
    assert_eq!(m.owner, Some(2));
    assert_eq!(m.unlock(2), MutexUnlock::Woke(3));
    assert_eq!(m.lock(3), LockOutcome::Acquired);
    assert_eq!(m.unlock(3), MutexUnlock::Released);
    assert_eq!(m.owner, None);
    assert_eq!(m.hold_count, 0);
}

#[test]
fn freed_mutex_is_open_to_any_thread() {
    let mut m = Mutex::new(MutexKind::Normal);
    assert_eq!(m.lock(1), LockOutcome::Acquired);
    assert_eq!(m.lock(2), LockOutcome::Blocked);
    assert_eq!(m.unlock(1), MutexUnlock::Woke(2));
    // A third thread is faster than the woken one.
    assert_eq!(m.try_lock(4), LockOutcome::Acquired);
    assert_eq!(m.lock(2), LockOutcome::Blocked);
    assert_eq!(m.queue, [2]);
    assert_eq!(m.unlock(4), MutexUnlock::Woke(2));
    assert_eq!(m.lock(2), LockOutcome::Acquired);
}

#[test]
fn normal_mutex_relocked_by_its_owner_blocks() {
    let mut m = Mutex::new(MutexKind::Normal);
    assert_eq!(m.lock(1), LockOutcome::Acquired);
    assert_eq!(m.lock(1), LockOutcome::Blocked);
    assert_eq!(m.owner, Some(1));
    assert_eq!(m.hold_count, 1);
    assert_eq!(m.queue.len(), 1);
}

#[test]
fn recursive_mutex_needs_as_many_unlocks_as_locks() {
    let mut m = Mutex::new(MutexKind::Recursive);
    for _ in 0..3 {
        assert_eq!(m.lock(7), LockOutcome::Acquired);
    }
    assert_eq!(m.hold_count, 3);
    assert_eq!(m.try_lock(8), LockOutcome::Busy);
    assert_eq!(m.unlock(7), MutexUnlock::StillHeld);
    assert_eq!(m.try_lock(8), LockOutcome::Busy);
    assert_eq!(m.unlock(7), MutexUnlock::StillHeld);
    assert_eq!(m.try_lock(8), LockOutcome::Busy);
    assert_eq!(m.unlock(7), MutexUnlock::Released);
    assert_eq!(m.try_lock(8), LockOutcome::Acquired);
    assert_eq!(m.owner, Some(8));
}

#[test]
fn recursive_mutex_with_a_waiter_is_free_after_the_last_unlock() {
    let mut m = Mutex::new(MutexKind::Recursive);
    for _ in 0..3 {
        assert_eq!(m.lock(7), LockOutcome::Acquired);
    }
    assert_eq!(m.lock(9), LockOutcome::Blocked);
    for remaining in [2, 1] {
        assert_eq!(m.unlock(7), MutexUnlock::StillHeld);
        assert_eq!(m.hold_count, remaining);
        assert_eq!(m.owner, Some(7));
        assert_eq!(m.try_lock(8), LockOutcome::Busy);
        assert_eq!(m.queue, [9]);
    }
    assert_eq!(m.unlock(7), MutexUnlock::Woke(9));
    assert_eq!(m.owner, None);
    assert_eq!(m.hold_count, 0);
    assert!(m.queue.is_empty());
    assert_eq!(m.try_lock(8), LockOutcome::Acquired);
}

#[test]
fn recursive_mutex_counts_no_further_than_it_can() {
    let mut m = Mutex::new(MutexKind::Recursive);
    m.owner = Some(1);
    m.hold_count = u32::MAX;
    assert_eq!(m.lock(1), LockOutcome::TooManyRecursions);
    assert_eq!(m.hold_count, u32::MAX);
}

#[test]
fn errorcheck_mutex_refuses_its_owner() {
    let mut m = Mutex::new(MutexKind::ErrorCheck);
    assert_eq!(m.lock(1), LockOutcome::Acquired);
    assert_eq!(m.lock(1), LockOutcome::AlreadyLockedByCaller);
    assert_eq!(m.try_lock(1), LockOutcome::AlreadyLockedByCaller);
    assert_eq!(m.hold_count, 1);
    assert!(m.queue.is_empty());
    assert_eq!(m.lock(2), LockOutcome::Blocked);
}

#[test]
fn try_lock_never_queues() {
    let mut m = Mutex::new(MutexKind::Normal);
    assert_eq!(m.try_lock(1), LockOutcome::Acquired);
    assert_eq!(m.try_lock(1), LockOutcome::Busy);
    assert_eq!(m.try_lock(2), LockOutcome::Busy);
    assert!(m.queue.is_empty());
}

#[test]
fn unlock_by_a_stranger_changes_nothing() {
    let mut m = Mutex::new(MutexKind::Normal);
    assert_eq!(m.unlock(1), MutexUnlock::NotOwner);
    assert_eq!(m.lock(1), LockOutcome::Acquired);
    assert_eq!(m.unlock(2), MutexUnlock::NotOwner);
    assert_eq!(m.owner, Some(1));
    assert_eq!(m.hold_count, 1);
}

#[test]
fn readers_share_the_lock() {
    let mut l = RwLock::new();
    assert_eq!(l.read_lock(1), LockOutcome::Acquired);
    assert_eq!(l.read_lock(2), LockOutcome::Acquired);
    assert_eq!(l.read_lock(1), LockOutcome::Acquired);
    assert_eq!(l.readers[&1], 2);
    assert_eq!(l.readers[&2], 1);
    assert!(l.is_locked());
    assert!(!l.is_write_locked());
    assert_eq!(l.try_write_lock(3), LockOutcome::Busy);
    assert_eq!(l.unlock(1), Some(vec![]));
    assert_eq!(l.readers[&1], 1);
    assert_eq!(l.unlock(1), Some(vec![]));
    assert!(!l.readers.contains_key(&1));
    assert_eq!(l.unlock(1), None);
}

#[test]
fn writer_excludes_everybody() {
    let mut l = RwLock::new();
    assert_eq!(l.write_lock(1), LockOutcome::Acquired);
    assert!(l.is_write_locked());
    assert_eq!(l.try_read_lock(2), LockOutcome::Busy);
    assert_eq!(l.try_write_lock(2), LockOutcome::Busy);
    assert_eq!(l.read_lock(2), LockOutcome::Blocked);
    assert_eq!(l.write_lock(3), LockOutcome::Blocked);
    assert!(l.readers.is_empty());
}

#[test]
fn free_lock_wakes_the_longest_waiting_writer_first() {
    let mut l = RwLock::new();
    assert_eq!(l.write_lock(1), LockOutcome::Acquired);
    assert_eq!(l.read_lock(2), LockOutcome::Blocked);
    assert_eq!(l.write_lock(3), LockOutcome::Blocked);
    assert_eq!(l.read_lock(4), LockOutcome::Blocked);
    assert_eq!(l.write_lock(5), LockOutcome::Blocked);
    assert_eq!(l.unlock(1), Some(vec![3]));
    assert_eq!(l.writer, None);
    assert_eq!(l.writer_queue, [5]);
    assert_eq!(l.write_lock(3), LockOutcome::Acquired);
    assert_eq!(l.unlock(3), Some(vec![5]));
    assert_eq!(l.write_lock(5), LockOutcome::Acquired);
    assert_eq!(l.unlock(5), Some(vec![2, 4]));
    assert_eq!(l.writer, None);
    assert!(l.readers.is_empty());
    assert!(l.reader_queue.is_empty());
    assert_eq!(l.read_lock(2), LockOutcome::Acquired);
    assert_eq!(l.read_lock(4), LockOutcome::Acquired);
    assert_eq!(l.readers[&2], 1);
    assert_eq!(l.readers[&4], 1);
}

#[test]
fn last_reader_wakes_a_writer() {
    let mut l = RwLock::new();
    assert_eq!(l.read_lock(1), LockOutcome::Acquired);
    assert_eq!(l.read_lock(2), LockOutcome::Acquired);
    assert_eq!(l.write_lock(3), LockOutcome::Blocked);
    assert_eq!(l.read_lock(4), LockOutcome::Acquired);
    assert_eq!(l.unlock(1), Some(vec![]));
    assert_eq!(l.unlock(4), Some(vec![]));
    assert_eq!(l.unlock(2), Some(vec![3]));
    assert_eq!(l.writer, None);
    assert!(l.readers.is_empty());
    assert!(!l.is_locked());
    assert_eq!(l.write_lock(3), LockOutcome::Acquired);
    assert_eq!(l.writer, Some(3));
}

#[test]
fn unlock_by_a_stranger_leaves_the_lock() {
    let mut l = RwLock::new();
    assert_eq!(l.unlock(1), None);
    assert_eq!(l.write_lock(1), LockOutcome::Acquired);
    assert_eq!(l.unlock(2), None);
    assert_eq!(l.writer, Some(1));
}

#[test]
fn reader_count_stops_at_its_limit() {
    let mut l = RwLock::new();
    l.readers.insert(1, u32::MAX);
    assert_eq!(l.read_lock(1), LockOutcome::TooManyRecursions);
    assert_eq!(l.readers[&1], u32::MAX);
}

#[test]
fn condvar_wakes_in_order_of_arrival() {
    let mut c = Condvar::new();
    assert!(!c.is_awaited());
    assert_eq!(c.signal(), None);
    c.wait(3, 0x10);
    c.wait(1, 0x20);
    c.wait(2, 0x10);
    assert!(c.is_awaited());
    assert_eq!(c.signal(), Some(CondvarWaiter { thread: 3, mutex: 0x10 }));
    assert_eq!(c.signal(), Some(CondvarWaiter { thread: 1, mutex: 0x20 }));
    assert_eq!(c.signal(), Some(CondvarWaiter { thread: 2, mutex: 0x10 }));
    assert_eq!(c.signal(), None);
}

#[test]
fn condvar_waiter_can_leave_the_queue() {
    let mut c = Condvar::new();
    c.wait(3, 0x10);
    c.wait(1, 0x20);
    c.wait(2, 0x10);
    assert_eq!(c.remove_waiter(1), Some(CondvarWaiter { thread: 1, mutex: 0x20 }));
    assert_eq!(c.remove_waiter(1), None);
    assert_eq!(c.remove_waiter(9), None);
    assert_eq!(c.signal(), Some(CondvarWaiter { thread: 3, mutex: 0x10 }));
    assert_eq!(c.signal(), Some(CondvarWaiter { thread: 2, mutex: 0x10 }));
}
