//! Thread-local storage: keys that every thread can bind to a value of its own.

use vstd::prelude::*;
use std::collections::HashMap;
use crate::errors::{InterpError, InterpResult, UbKind, UnsupportedKind};
use crate::scalar::{Scalar, POINTER_SIZE};
use crate::thread::{Instance, ThreadId};

verus! {

broadcast use vstd::std_specs::hash::group_hash_axioms;

/// The handle of a thread-local storage key.
pub type TlsKey = u64;

/// What is known of one key: its destructor, the width of the guest type
/// that holds the key, and the value each thread has stored under it.
#[derive(Debug)]
pub struct TlsEntry {
    /// The value of each thread that has stored one. A thread without an
    /// entry has the null value.
    pub data: HashMap<ThreadId, Scalar>,
    pub dtor: Option<Instance>,
    pub value_size: u64,
}

pub struct TlsEntryView {
    pub data: Map<ThreadId, Scalar>,
    pub dtor: Option<Instance>,
    pub value_size: u64,
}

impl View for TlsEntry {
    type V = TlsEntryView;

    open spec fn view(&self) -> TlsEntryView {
        TlsEntryView { data: self.data@, dtor: self.dtor, value_size: self.value_size }
    }
}

/// The table of all keys.
#[derive(Debug)]
pub struct TlsData {
    /// The key that the next creation hands out. Keys are handed out in
    /// increasing order and never again.
    pub next_key: TlsKey,
    pub keys: HashMap<TlsKey, TlsEntry>,
}

pub struct TlsView {
    pub next_key: TlsKey,
    pub keys: Map<TlsKey, TlsEntryView>,
}

impl View for TlsData {
    type V = TlsView;

    open spec fn view(&self) -> TlsView {
        TlsView { next_key: self.next_key, keys: self.keys@.map_values(|e: TlsEntry| e@) }
    }
}

/// The largest key that a guest type of `size` bytes can hold.
pub open spec fn max_key(size: u64) -> u64 {
    if size == 0 {
        0
    } else if size == 1 {
        0xff
    } else if size == 2 {
        0xffff
    } else if size == 3 {
        0xff_ffff
    } else if size == 4 {
        0xffff_ffff
    } else if size == 5 {
        0xff_ffff_ffff
    } else if size == 6 {
        0xffff_ffff_ffff
    } else if size == 7 {
        0xff_ffff_ffff_ffff
    } else {
        0xffff_ffff_ffff_ffff
    }
}

/// The largest key that a guest type of `size` bytes can hold.
pub fn max_key_of(size: u64) -> (r: u64)
    ensures
        r == max_key(size),
{
    if size == 0 {
        0
    } else if size == 1 {
        0xff
    } else if size == 2 {
        0xffff
    } else if size == 3 {
        0xff_ffff
    } else if size == 4 {
        0xffff_ffff
    } else if size == 5 {
        0xff_ffff_ffff
    } else if size == 6 {
        0xffff_ffff_ffff
    } else if size == 7 {
        0xff_ffff_ffff_ffff
    } else {
        0xffff_ffff_ffff_ffff
    }
}

impl TlsView {
    /// The table at start-up: no key, and 1 as the first key to hand out.
    pub open spec fn new() -> TlsView {
        TlsView { next_key: 1, keys: Map::empty() }
    }

    /// Every key of the table was handed out before.
    pub open spec fn wf(self) -> bool {
        forall|k: TlsKey| self.keys.contains_key(k) ==> k < self.next_key
    }

    /// A new key with the given destructor, for a guest key type of
    /// `value_size` bytes. Fails, changing nothing, when the key does not fit
    /// that type or the keys have run out.
    pub open spec fn create_key(self, dtor: Option<Instance>, value_size: u64) -> (
        TlsView,
        InterpResult<TlsKey>,
    ) {
        if self.next_key > max_key(value_size) || self.next_key == u64::MAX {
            (self, Err(InterpError::Unsupported(UnsupportedKind::TlsKeySpaceExhausted)))
        } else {
            (
                TlsView {
                    next_key: (self.next_key + 1) as u64,
                    keys: self.keys.insert(
                        self.next_key,
                        TlsEntryView { data: Map::empty(), dtor, value_size },
                    ),
                },
                Ok(self.next_key),
            )
        }
    }

    /// Forgets `key` and every value stored under it.
    pub open spec fn delete_key(self, key: TlsKey) -> (TlsView, InterpResult<()>) {
        if self.keys.contains_key(key) {
            (TlsView { keys: self.keys.remove(key), ..self }, Ok(()))
        } else {
            (self, Err(InterpError::UndefinedBehavior(UbKind::TlsKeyMissing { key })))
        }
    }

    /// The value of `thread` under `key`: what it stored last, or null.
    pub open spec fn load(self, key: TlsKey, thread: ThreadId) -> InterpResult<Scalar> {
        if self.keys.contains_key(key) {
            if self.keys[key].data.contains_key(thread) {
                Ok(self.keys[key].data[thread])
            } else {
                Ok(Scalar { data: 0, size: POINTER_SIZE })
            }
        } else {
            Err(InterpError::UndefinedBehavior(UbKind::TlsKeyMissing { key }))
        }
    }

    /// Binds `key` to `value` for `thread`. The value must be pointer-sized.
    pub open spec fn store(self, key: TlsKey, thread: ThreadId, value: Scalar) -> (
        TlsView,
        InterpResult<()>,
    ) {
        if !self.keys.contains_key(key) {
            (self, Err(InterpError::UndefinedBehavior(UbKind::TlsKeyMissing { key })))
        } else {
            match Scalar::spec_to_machine_usize(value) {
                Err(e) => (self, Err(e)),
                Ok(bits) => {
                    let entry = self.keys[key];
                    let data = if bits != 0 {
                        entry.data.insert(thread, value)
                    } else {
                        entry.data.remove(thread)
                    };
                    (
                        TlsView {
                            keys: self.keys.insert(key, TlsEntryView { data, ..entry }),
                            ..self
                        },
                        Ok(()),
                    )
                },
            }
        }
    }
}

impl TlsData {
    /// An empty table.
    pub fn new() -> (t: TlsData)
        ensures
            t@ == TlsView::new(),
            t@.wf(),
    {
        let t = TlsData { next_key: 1, keys: HashMap::new() };
        assert(t@.keys =~= Map::empty());
        t
    }

    /// Creates a key with the given destructor, for a guest key type of
    /// `value_size` bytes, and returns it. The key is one that was never in
    /// use before. Fails, changing nothing, when the key does not fit the
    /// guest's key type.
    pub fn create_tls_key(&mut self, dtor: Option<Instance>, value_size: u64) -> (r: InterpResult<
        TlsKey,
    >)
        ensures
            (final(self)@, r) == old(self)@.create_key(dtor, value_size),
    {
        let new_key: TlsKey = self.next_key;
        if new_key > max_key_of(value_size) || new_key == u64::MAX {
            return Err(InterpError::Unsupported(UnsupportedKind::TlsKeySpaceExhausted));
        }
        self.next_key = new_key + 1;
        let entry = TlsEntry { data: HashMap::new(), dtor, value_size };
        assert(entry@.data =~= Map::empty());
        self.keys.insert(new_key, entry);
        assert(self@.keys =~= old(self)@.create_key(dtor, value_size).0.keys);
        Ok(new_key)
    }

    /// Deletes `key`. Using a key that does not exist is a violation.
    pub fn delete_tls_key(&mut self, key: TlsKey) -> (r: InterpResult<()>)
        ensures
            (final(self)@, r) == old(self)@.delete_key(key),
    {
        match self.keys.remove(&key) {
            Some(_) => {
                assert(self@.keys =~= old(self)@.keys.remove(key));
                Ok(())
            },
            None => {
                assert(self@.keys =~= old(self)@.keys);
                Err(InterpError::UndefinedBehavior(UbKind::TlsKeyMissing { key }))
            },
        }
    }

    /// The value that `thread` has under `key`: the one it stored last, or
    /// null if it stored none. Using a key that does not exist is a violation.
    pub fn load_tls(&self, key: TlsKey, thread: ThreadId) -> (r: InterpResult<Scalar>)
        ensures
            r == self@.load(key, thread),
    {
        match self.keys.get(&key) {
            Some(entry) => {
                match entry.data.get(&thread) {
                    Some(v) => Ok(*v),
                    None => Ok(Scalar::null_ptr()),
                }
            },
            None => Err(InterpError::UndefinedBehavior(UbKind::TlsKeyMissing { key })),
        }
    }

    /// Binds `key` to `value` for `thread`, and for no other thread. A null
    /// value clears the binding. The value must be pointer-sized, and using a
    /// key that does not exist is a violation; in both cases nothing changes.
    pub fn store_tls(&mut self, key: TlsKey, thread: ThreadId, value: Scalar) -> (r: InterpResult<
        (),
    >)
        ensures
            (final(self)@, r) == old(self)@.store(key, thread, value),
    {
        if !self.keys.contains_key(&key) {
            return Err(InterpError::UndefinedBehavior(UbKind::TlsKeyMissing { key }));
        }
        let bits: u64 = value.to_machine_usize()?;
        match self.keys.remove(&key) {
            Some(mut entry) => {
                if bits != 0 {
                    entry.data.insert(thread, value);
                } else {
                    entry.data.remove(&thread);
                }
                self.keys.insert(key, entry);
                assert(self@.keys =~= old(self)@.store(key, thread, value).0.keys);
                Ok(())
            },
            None => Ok(()),
        }
    }
}

impl TlsView {
    /// Whether a destructor is due for `thread` under `key`: the key has a
    /// destructor and the thread a value that is not null.
    pub open spec fn dtor_due(self, key: TlsKey, thread: ThreadId) -> bool {
        &&& self.keys.contains_key(key)
        &&& self.keys[key].dtor is Some
        &&& self.keys[key].data.contains_key(thread)
    }

    /// The least key from `from` on under which a destructor is due for
    /// `thread`, among the keys that were ever handed out.
    pub open spec fn next_dtor_from(self, from: TlsKey, thread: ThreadId) -> Option<TlsKey>
        decreases self.next_key - from,
    {
        if from >= self.next_key {
            None
        } else if self.dtor_due(from, thread) {
            Some(from)
        } else {
            self.next_dtor_from((from + 1) as u64, thread)
        }
    }

    /// The key at which the search for the next destructor starts: the one
    /// after `last`, or the least key.
    pub open spec fn dtor_search_start(self, last: Option<TlsKey>) -> TlsKey {
        match last {
            Some(key) => if key < self.next_key {
                (key + 1) as u64
            } else {
                self.next_key
            },
            None => 0,
        }
    }

    /// The next destructor to run for `thread` after the one for the key
    /// `last`: the destructor, the value to pass to it, and its key. The
    /// value leaves the table, so that the thread has null under the key
    /// afterwards.
    pub open spec fn fetch_dtor(self, last: Option<TlsKey>, thread: ThreadId) -> (
        TlsView,
        Option<(Instance, Scalar, TlsKey)>,
    ) {
        match self.next_dtor_from(self.dtor_search_start(last), thread) {
            None => (self, None),
            Some(key) => {
                let entry = self.keys[key];
                (
                    TlsView {
                        keys: self.keys.insert(
                            key,
                            TlsEntryView { data: entry.data.remove(thread), ..entry },
                        ),
                        ..self
                    },
                    Some((entry.dtor->Some_0, entry.data[thread], key)),
                )
            },
        }
    }
}

/// The search for the next destructor finds the first key from `from` on
/// under which one is due: none is due under the keys before `key`, and one is
/// due under `key`, or the keys have run out.
pub proof fn lemma_next_dtor_from(t: TlsView, from: TlsKey, thread: ThreadId, key: TlsKey)
    requires
        from <= key <= t.next_key,
        forall|k: TlsKey| from <= k < key ==> !t.dtor_due(k, thread),
        key < t.next_key ==> t.dtor_due(key, thread),
    ensures
        t.next_dtor_from(from, thread) == if key < t.next_key {
            Some(key)
        } else {
            None
        },
    decreases key - from,
{
    if from < key {
        lemma_next_dtor_from(t, (from + 1) as u64, thread, key);
    }
}

/// Where no destructor is found, none is due for the thread under any key
/// after `last` of a well-formed table; and a destructor that is found is due,
/// comes after `last`, and is not due again right after it was fetched.
pub proof fn lemma_fetch_dtor(t: TlsView, last: Option<TlsKey>, thread: ThreadId, key: TlsKey)
    requires
        t.wf(),
        last matches Some(l) ==> l < key,
    ensures
        t.fetch_dtor(last, thread).0.wf(),
        t.fetch_dtor(last, thread).1 is None ==> !t.dtor_due(key, thread),
        t.fetch_dtor(last, thread).1 matches Some((dtor, value, found)) ==> {
            &&& t.dtor_due(found, thread)
            &&& last matches Some(l) ==> l < found
            &&& t.keys[found].dtor == Some(dtor)
            &&& t.load(found, thread) == Ok::<Scalar, InterpError>(value)
            &&& !t.fetch_dtor(last, thread).0.dtor_due(found, thread)
            &&& t.fetch_dtor(last, thread).0.load(found, thread) == Ok::<Scalar, InterpError>(
                Scalar { data: 0, size: POINTER_SIZE },
            )
            &&& key < found ==> !t.dtor_due(key, thread)
        },
{
    let start = t.dtor_search_start(last);
    lemma_next_dtor_bounds(t, start, thread);
    if t.dtor_due(key, thread) && start <= key {
        lemma_next_dtor_skips(t, start, thread, key);
    }
}

/// A destructor that the search finds is due, and lies between the start of
/// the search and the end of the keys.
pub proof fn lemma_next_dtor_bounds(t: TlsView, from: TlsKey, thread: ThreadId)
    ensures
        t.next_dtor_from(from, thread) matches Some(key) ==> from <= key < t.next_key
            && t.dtor_due(key, thread),
    decreases t.next_key - from,
{
    if from < t.next_key && !t.dtor_due(from, thread) {
        lemma_next_dtor_bounds(t, (from + 1) as u64, thread);
    }
}

/// The search passes over no key under which a destructor is due: if one is
/// due under `key`, the search from a key not after it finds one not after it.
pub proof fn lemma_next_dtor_skips(t: TlsView, from: TlsKey, thread: ThreadId, key: TlsKey)
    requires
        t.wf(),
        from <= key,
        t.dtor_due(key, thread),
    ensures
        t.next_dtor_from(from, thread) matches Some(found) && found <= key,
    decreases key - from,
{
    if from < key && !t.dtor_due(from, thread) {
        lemma_next_dtor_skips(t, (from + 1) as u64, thread, key);
    }
}

impl TlsData {
    /// Whether a destructor is due for `thread` under `key`.
    fn dtor_due(&self, key: TlsKey, thread: ThreadId) -> (r: bool)
        ensures
            r == self@.dtor_due(key, thread),
    {
        match self.keys.get(&key) {
            None => false,
            Some(entry) => entry.dtor.is_some() && entry.data.contains_key(&thread),
        }
    }

    /// Fetches the next destructor to run for `thread` at its exit, after
    /// the one for the key `last`, or the first one if `last` is `None`:
    /// the destructor, the value to call it with, and its key. The thread's
    /// value under that key is null afterwards. `None` if no destructor is
    /// due under a later key.
    pub fn fetch_tls_dtor(&mut self, last: Option<TlsKey>, thread: ThreadId) -> (r: Option<
        (Instance, Scalar, TlsKey),
    >)
        ensures
            (final(self)@, r) == old(self)@.fetch_dtor(last, thread),
    {
        let start: TlsKey = match last {
            Some(key) => if key < self.next_key {
                key + 1
            } else {
                self.next_key
            },
            None => 0,
        };
        let mut key: TlsKey = start;
        while key < self.next_key && !self.dtor_due(key, thread)
            invariant
                start <= key <= self.next_key,
                self@ == old(self)@,
                forall|k: TlsKey| start <= k < key ==> !self@.dtor_due(k, thread),
            decreases self.next_key - key,
        {
            key = key + 1;
        }
        proof {
            lemma_next_dtor_from(self@, start, thread, key);
        }
        if key >= self.next_key {
            return None;
        }
        match self.keys.remove(&key) {
            None => None,
            Some(mut entry) => {
                let value = entry.data.remove(&thread);
                let dtor = entry.dtor;
                self.keys.insert(key, entry);
                proof {
                    assert(self@.keys =~= old(self)@.fetch_dtor(last, thread).0.keys);
                }
                match (dtor, value) {
                    (Some(dtor), Some(value)) => Some((dtor, value, key)),
                    _ => None,
                }
            },
        }
    }
}

/// How often the destructors of a thread are run over at its exit before
/// the values that are left are given up.
pub const DESTRUCTOR_ITERATIONS: u32 = 4;

/// How far the destructors of an exiting thread have run.
#[derive(Clone, Copy, PartialEq, Eq, Debug, Structural)]
pub struct DtorState {
    /// The key of the destructor that ran last in this pass over the keys.
    pub last: Option<TlsKey>,
    /// Whether a destructor ran in this pass.
    pub ran: bool,
    /// The number of passes that are complete.
    pub passes: u32,
}

impl DtorState {
    /// The state of a thread that starts to exit.
    pub open spec fn spec_new() -> DtorState {
        DtorState { last: None, ran: false, passes: 0 }
    }

    /// The state of a thread that starts to exit.
    pub fn new() -> (s: DtorState)
        ensures
            s == DtorState::spec_new(),
    {
        DtorState { last: None, ran: false, passes: 0 }
    }
}

impl TlsView {
    /// The next destructor to run for the exiting thread `thread`. The
    /// keys are gone over in order. A destructor may store new values, so
    /// when a pass over the keys in which a destructor ran is complete,
    /// another pass begins, until a pass finds no destructor due or the
    /// passes are used up. `None` when the thread is done with its
    /// destructors.
    pub open spec fn next_exit_dtor(self, state: DtorState, thread: ThreadId) -> (
        TlsView,
        DtorState,
        Option<(Instance, Scalar, TlsKey)>,
    ) {
        match self.fetch_dtor(state.last, thread) {
            (tls, Some(found)) => (
                tls,
                DtorState { last: Some(found.2), ran: true, passes: state.passes },
                Some(found),
            ),
            (_, None) => {
                let passes = if state.passes < u32::MAX {
                    (state.passes + 1) as u32
                } else {
                    state.passes
                };
                if state.ran && passes < DESTRUCTOR_ITERATIONS {
                    match self.fetch_dtor(None, thread) {
                        (tls, Some(found)) => (
                            tls,
                            DtorState { last: Some(found.2), ran: true, passes },
                            Some(found),
                        ),
                        (_, None) => (self, DtorState { last: None, ran: false, passes }, None),
                    }
                } else {
                    (self, DtorState { last: None, ran: false, passes }, None)
                }
            },
        }
    }
}

impl TlsData {
    /// Fetches the next destructor to run for the exiting thread `thread`
    /// and notes in `state` how far the thread has come. `None` when no
    /// destructor is left to run: the thread can finish.
    pub fn next_exit_dtor(&mut self, state: &mut DtorState, thread: ThreadId) -> (r: Option<
        (Instance, Scalar, TlsKey),
    >)
        ensures
            (final(self)@, *final(state), r) == old(self)@.next_exit_dtor(*old(state), thread),
    {
        match self.fetch_tls_dtor(state.last, thread) {
            Some(found) => {
                state.last = Some(found.2);
                state.ran = true;
                Some(found)
            },
            None => {
                let ran: bool = state.ran;
                if state.passes < u32::MAX {
                    state.passes = state.passes + 1;
                }
                state.last = None;
                state.ran = false;
                if ran && state.passes < DESTRUCTOR_ITERATIONS {
                    match self.fetch_tls_dtor(None, thread) {
                        Some(found) => {
                            state.last = Some(found.2);
                            state.ran = true;
                            Some(found)
                        },
                        None => None,
                    }
                } else {
                    None
                }
            },
        }
    }
}

/// Creating a key keeps the table well formed, and the key it returns was
/// not in the table before.
pub proof fn lemma_create_key_fresh(t: TlsView, dtor: Option<Instance>, value_size: u64)
    requires
        t.wf(),
    ensures
        t.create_key(dtor, value_size).0.wf(),
        t.create_key(dtor, value_size).1 matches Ok(key) ==> !t.keys.contains_key(key)
            && t.create_key(dtor, value_size).0.next_key > key,
{
}

/// Deleting a key and storing a value keep the table well formed.
pub proof fn lemma_tls_wf_preserved(t: TlsView, key: TlsKey, thread: ThreadId, value: Scalar)
    requires
        t.wf(),
    ensures
        t.delete_key(key).0.wf(),
        t.store(key, thread, value).0.wf(),
{
}

/// A thread that loads from a key right after its creation gets null.
pub proof fn lemma_load_after_create(
    t: TlsView,
    dtor: Option<Instance>,
    value_size: u64,
    thread: ThreadId,
)
    requires
        t.create_key(dtor, value_size).1 is Ok,
    ensures
        t.create_key(dtor, value_size).0.load(t.create_key(dtor, value_size).1->Ok_0, thread)
            == Ok::<Scalar, InterpError>(Scalar { data: 0, size: POINTER_SIZE }),
{
}

/// A thread that stores a pointer-sized value under a key loads that value
/// back.
pub proof fn lemma_store_then_load(t: TlsView, key: TlsKey, thread: ThreadId, value: Scalar)
    requires
        t.keys.contains_key(key),
        value.size == POINTER_SIZE,
    ensures
        t.store(key, thread, value).1 is Ok,
        t.store(key, thread, value).0.load(key, thread) == Ok::<Scalar, InterpError>(value),
{
}

/// A store by one thread changes nothing for another thread, and nothing
/// under another key.
pub proof fn lemma_store_is_local(
    t: TlsView,
    key: TlsKey,
    thread: ThreadId,
    value: Scalar,
    other_key: TlsKey,
    other_thread: ThreadId,
)
    requires
        other_key != key || other_thread != thread,
    ensures
        t.store(key, thread, value).0.load(other_key, other_thread) == t.load(
            other_key,
            other_thread,
        ),
{
}

/// After a key is deleted, loads from it and stores to it fail for every thread.
pub proof fn lemma_deleted_key_is_gone(t: TlsView, key: TlsKey, thread: ThreadId, value: Scalar)
    requires
        t.keys.contains_key(key),
    ensures
        t.delete_key(key).1 is Ok,
        t.delete_key(key).0.load(key, thread) is Err,
        t.delete_key(key).0.store(key, thread, value).1 is Err,
{
}

} // verus!
