use miri_runtime::errors::{InterpError, UbKind, UnsupportedKind};
use miri_runtime::scalar::Scalar;
use miri_runtime::shims::tls::{max_key_of, DtorState, TlsData};
use miri_runtime::thread::{Abi, Instance};

#[test]
fn fresh_key_loads_null_for_every_thread() {
    let mut tls = TlsData::new();
    let key = tls.create_tls_key(None, 4).unwrap();
    assert_eq!(key, 1);
    for thread in [0, 1, 17, u32::MAX] {
        assert_eq!(tls.load_tls(key, thread), Ok(Scalar::null_ptr()));
    }
}

#[test]
fn store_then_load_round_trips() {
    let mut tls = TlsData::new();
    let key = tls.create_tls_key(None, 4).unwrap();
    let value = Scalar::from_machine_usize(0x1234_5678_9abc);
    assert_eq!(tls.store_tls(key, 3, value), Ok(()));
    assert_eq!(tls.load_tls(key, 3), Ok(value));
}

#[test]
fn store_is_local_to_thread_and_key() {
    let mut tls = TlsData::new();
    let key = tls.create_tls_key(None, 4).unwrap();
    let other = tls.create_tls_key(None, 4).unwrap();
    tls.store_tls(key, 3, Scalar::from_machine_usize(11)).unwrap();
    tls.store_tls(other, 4, Scalar::from_machine_usize(22)).unwrap();
    tls.store_tls(key, 3, Scalar::from_machine_usize(33)).unwrap();
    assert_eq!(tls.load_tls(key, 3), Ok(Scalar::from_machine_usize(33)));
    assert_eq!(tls.load_tls(key, 4), Ok(Scalar::null_ptr()));
    assert_eq!(tls.load_tls(other, 3), Ok(Scalar::null_ptr()));
    assert_eq!(tls.load_tls(other, 4), Ok(Scalar::from_machine_usize(22)));
}

#[test]
fn storing_null_clears_the_binding() {
    let mut tls = TlsData::new();
    let key = tls.create_tls_key(None, 4).unwrap();
    tls.store_tls(key, 3, Scalar::from_machine_usize(11)).unwrap();
    tls.store_tls(key, 3, Scalar::null_ptr()).unwrap();
    assert_eq!(tls.load_tls(key, 3), Ok(Scalar::null_ptr()));
    assert!(!tls.keys[&key].data.contains_key(&3));
}

#[test]
fn stored_values_are_pointer_sized() {
    let mut tls = TlsData::new();
    let key = tls.create_tls_key(None, 4).unwrap();
    assert_eq!(
        tls.store_tls(key, 3, Scalar::from_i32(5)),
        Err(InterpError::UndefinedBehavior(UbKind::ScalarSizeMismatch { found: 4, required: 8 }))
    );
    assert_eq!(tls.load_tls(key, 3), Ok(Scalar::null_ptr()));
}

#[test]
fn keys_are_never_handed_out_twice() {
    let mut tls = TlsData::new();
    let a = tls.create_tls_key(None, 4).unwrap();
    let b = tls.create_tls_key(None, 4).unwrap();
    assert_eq!((a, b), (1, 2));
    assert_eq!(tls.delete_tls_key(a), Ok(()));
    assert_eq!(tls.delete_tls_key(b), Ok(()));
    assert_eq!(tls.create_tls_key(None, 4), Ok(3));
}

#[test]
fn deleted_key_is_a_usage_error() {
    let mut tls = TlsData::new();
    let key = tls.create_tls_key(None, 4).unwrap();
    tls.store_tls(key, 0, Scalar::from_machine_usize(1)).unwrap();
    assert_eq!(tls.delete_tls_key(key), Ok(()));
    let missing = Err(InterpError::UndefinedBehavior(UbKind::TlsKeyMissing { key }));
    assert_eq!(tls.load_tls(key, 0), missing);
    assert_eq!(tls.store_tls(key, 0, Scalar::from_machine_usize(1)), Err(missing.unwrap_err()));
    assert_eq!(tls.delete_tls_key(key), Err(missing.unwrap_err()));
    assert_eq!(
        tls.load_tls(99, 0),
        Err(InterpError::UndefinedBehavior(UbKind::TlsKeyMissing { key: 99 }))
    );
}

#[test]
fn key_remembers_its_destructor() {
    let mut tls = TlsData::new();
    let dtor = Instance { addr: 0x77, abi: Abi::C, arity: 1, in_std: false };
    let key = tls.create_tls_key(Some(dtor), 4).unwrap();
    assert_eq!(tls.keys[&key].dtor, Some(dtor));
    assert_eq!(tls.keys[&key].value_size, 4);
}

#[test]
fn keys_must_fit_the_guest_key_type() {
    let mut tls = TlsData::new();
    for expected in 1..=255u64 {
        assert_eq!(tls.create_tls_key(None, 1), Ok(expected));
    }
    assert_eq!(
        tls.create_tls_key(None, 1),
        Err(InterpError::Unsupported(UnsupportedKind::TlsKeySpaceExhausted))
    );
    assert_eq!(tls.next_key, 256);
    assert_eq!(tls.create_tls_key(None, 2), Ok(256));
}

#[test]
fn largest_key_per_width() {
    assert_eq!(max_key_of(0), 0);
    assert_eq!(max_key_of(1), 255);
    assert_eq!(max_key_of(2), 65_535);
    assert_eq!(max_key_of(3), 16_777_215);
    assert_eq!(max_key_of(4), 4_294_967_295);
    assert_eq!(max_key_of(8), u64::MAX);
    assert_eq!(max_key_of(16), u64::MAX);
}

#[test]
fn destructors_are_fetched_in_key_order() {
    let mut tls = TlsData::new();
    let dtor = |addr: u64| Instance { addr, abi: Abi::C, arity: 1, in_std: false };
    let a = tls.create_tls_key(Some(dtor(0x10)), 4).unwrap();
    let plain = tls.create_tls_key(None, 4).unwrap();
    let b = tls.create_tls_key(Some(dtor(0x20)), 4).unwrap();
    let c = tls.create_tls_key(Some(dtor(0x30)), 4).unwrap();
    for key in [a, plain, c] {
        tls.store_tls(key, 5, Scalar::from_machine_usize(100 + key)).unwrap();
    }
    tls.store_tls(b, 6, Scalar::from_machine_usize(7)).unwrap();
    assert_eq!(
        tls.fetch_tls_dtor(None, 5),
        Some((dtor(0x10), Scalar::from_machine_usize(100 + a), a))
    );
    assert_eq!(tls.load_tls(a, 5), Ok(Scalar::null_ptr()));
    assert_eq!(
        tls.fetch_tls_dtor(Some(a), 5),
        Some((dtor(0x30), Scalar::from_machine_usize(100 + c), c))
    );
    assert_eq!(tls.fetch_tls_dtor(Some(c), 5), None);
    assert_eq!(tls.fetch_tls_dtor(None, 5), None);
    assert_eq!(tls.load_tls(plain, 5), Ok(Scalar::from_machine_usize(100 + plain)));
    assert_eq!(tls.fetch_tls_dtor(Some(b), 6), None);
    assert_eq!(tls.fetch_tls_dtor(Some(u64::MAX), 6), None);
    assert_eq!(tls.fetch_tls_dtor(Some(a), 6), Some((dtor(0x20), Scalar::from_machine_usize(7), b)));
    assert_eq!(tls.fetch_tls_dtor(None, 6), None);
}

#[test]
fn exiting_thread_runs_its_destructors_in_passes() {
    let mut tls = TlsData::new();
    let dtor = |addr: u64| Instance { addr, abi: Abi::C, arity: 1, in_std: false };
    let a = tls.create_tls_key(Some(dtor(0x10)), 4).unwrap();
    let b = tls.create_tls_key(Some(dtor(0x20)), 4).unwrap();
    tls.store_tls(a, 1, Scalar::from_machine_usize(5)).unwrap();
    tls.store_tls(b, 1, Scalar::from_machine_usize(6)).unwrap();
    let mut state = DtorState::new();
    assert_eq!(
        tls.next_exit_dtor(&mut state, 1),
        Some((dtor(0x10), Scalar::from_machine_usize(5), a))
    );
    assert_eq!(state, DtorState { last: Some(a), ran: true, passes: 0 });
    // The destructor for `a` stores a new value under `a`.
    tls.store_tls(a, 1, Scalar::from_machine_usize(7)).unwrap();
    assert_eq!(
        tls.next_exit_dtor(&mut state, 1),
        Some((dtor(0x20), Scalar::from_machine_usize(6), b))
    );
    // The first pass is over, and the second finds the new value.
    assert_eq!(
        tls.next_exit_dtor(&mut state, 1),
        Some((dtor(0x10), Scalar::from_machine_usize(7), a))
    );
    assert_eq!(state, DtorState { last: Some(a), ran: true, passes: 1 });
    // The second pass is over, and the third finds nothing.
    assert_eq!(tls.next_exit_dtor(&mut state, 1), None);
    assert_eq!(state, DtorState { last: None, ran: false, passes: 2 });
}

#[test]
fn destructor_passes_are_bounded() {
    let mut tls = TlsData::new();
    let dtor = Instance { addr: 0x10, abi: Abi::C, arity: 1, in_std: false };
    let a = tls.create_tls_key(Some(dtor), 4).unwrap();
    let mut state = DtorState::new();
    let mut runs = 0;
    loop {
        // A destructor that stores a value again each time it runs.
        tls.store_tls(a, 1, Scalar::from_machine_usize(5)).unwrap();
        match tls.next_exit_dtor(&mut state, 1) {
            Some(_) => runs += 1,
            None => break,
        }
    }
    assert_eq!(runs, 4);
    assert_eq!(state.passes, 4);
}
