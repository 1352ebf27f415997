use miri_runtime::errors::{InterpError, UbKind, UnsupportedKind};
use miri_runtime::eval_context::{MemoryKind, MiriEvalContext, PanicStrategy, TargetOs};
use miri_runtime::helpers::{check_abi, check_arg_count, check_shim, str_equal};
use miri_runtime::scalar::{fits_in, is_scalar_size, OpTy, PlaceTy, Scalar, TyLayout};
use miri_runtime::shims::dlsym::Dlsym;
use miri_runtime::thread::Abi;

#[test]
fn signed_integers_are_stored_as_bit_patterns() {
    assert_eq!(Scalar::from_i32(0), Scalar { data: 0, size: 4 });
    assert_eq!(Scalar::from_i32(1), Scalar { data: 1, size: 4 });
    assert_eq!(Scalar::from_i32(-1), Scalar { data: 0xffff_ffff, size: 4 });
    assert_eq!(Scalar::from_i32(i32::MIN), Scalar { data: 0x8000_0000, size: 4 });
    assert_eq!(Scalar::from_i32(i32::MAX), Scalar { data: 0x7fff_ffff, size: 4 });
    assert_eq!(Scalar::from_i64(-1), Scalar { data: u64::MAX, size: 8 });
    assert_eq!(Scalar::from_i64(i64::MIN), Scalar { data: 1 << 63, size: 8 });
    assert_eq!(Scalar::from_machine_isize(-2), Scalar { data: u64::MAX - 1, size: 8 });
}

#[test]
fn signed_integers_round_trip() {
    for v in [0, 1, -1, 42, -42, i32::MIN, i32::MAX] {
        assert_eq!(Scalar::from_i32(v).to_i32(), Ok(v));
    }
    for v in [0, 1, -1, i64::MIN, i64::MAX, -7_000_000_000] {
        assert_eq!(Scalar::from_machine_isize(v).to_machine_isize(), Ok(v));
    }
}

#[test]
fn unsigned_constructors() {
    assert_eq!(Scalar::from_u8(7), Scalar { data: 7, size: 1 });
    assert_eq!(Scalar::from_bool(true), Scalar { data: 1, size: 1 });
    assert_eq!(Scalar::from_bool(false), Scalar { data: 0, size: 1 });
    assert_eq!(Scalar::from_u32(u32::MAX), Scalar { data: 0xffff_ffff, size: 4 });
    assert_eq!(Scalar::from_uint(300, 2), Scalar { data: 300, size: 2 });
    assert_eq!(Scalar::from_machine_usize(u64::MAX), Scalar { data: u64::MAX, size: 8 });
    assert_eq!(Scalar::null_ptr(), Scalar { data: 0, size: 8 });
    assert!(Scalar::null_ptr().is_null());
    assert!(!Scalar::from_u8(1).is_null());
}

#[test]
fn scalars_are_read_in_their_own_width() {
    let s = Scalar::from_i32(5);
    assert_eq!(s.to_u32(), Ok(5));
    assert_eq!(s.to_bits(4), Ok(5));
    assert_eq!(
        s.to_machine_usize(),
        Err(InterpError::UndefinedBehavior(UbKind::ScalarSizeMismatch { found: 4, required: 8 }))
    );
    assert_eq!(
        Scalar::from_machine_usize(5).to_i32(),
        Err(InterpError::UndefinedBehavior(UbKind::ScalarSizeMismatch { found: 8, required: 4 }))
    );
    let malformed = Scalar { data: 0x1_0000_0000, size: 4 };
    assert_eq!(
        malformed.to_u32(),
        Err(InterpError::UndefinedBehavior(UbKind::ScalarSizeMismatch { found: 4, required: 4 }))
    );
}

#[test]
fn widths() {
    for size in [1, 2, 4, 8] {
        assert!(is_scalar_size(size));
    }
    for size in [0, 3, 5, 6, 7, 9, 16] {
        assert!(!is_scalar_size(size));
    }
    assert!(fits_in(255, 1));
    assert!(!fits_in(256, 1));
    assert!(fits_in(65_535, 2));
    assert!(!fits_in(65_536, 2));
    assert!(fits_in(u32::MAX as u64, 4));
    assert!(!fits_in(u32::MAX as u64 + 1, 4));
    assert!(fits_in(u64::MAX, 8));
    assert!(!fits_in(0, 3));
}

#[test]
fn operands() {
    let op = OpTy::from_scalar(Scalar::from_i32(-3));
    assert_eq!(op.layout, TyLayout::integer(4));
    assert_eq!(op.read_scalar(), Ok(Scalar::from_i32(-3)));
    assert_eq!(op.read_i32(), Ok(-3));
    assert!(op.read_pointer().is_err());
    assert_eq!(op.deref_operand(), Err(InterpError::UndefinedBehavior(UbKind::NotARawPointer)));
    let uninit = OpTy { value: None, layout: TyLayout::integer(4) };
    assert_eq!(uninit.read_scalar(), Err(InterpError::UndefinedBehavior(UbKind::UninitializedRead)));
    let p = OpTy::from_ptr(0x40, 12);
    assert_eq!(p.layout, TyLayout::pointer_to(12));
    assert_eq!(p.read_pointer(), Ok(0x40));
    assert_eq!(p.read_object_addr(), Ok(0x40));
    assert_eq!(p.read_optional_addr(), Ok(Some(0x40)));
    assert_eq!(p.deref_operand(), Ok(PlaceTy { addr: 0x40, layout: TyLayout::integer(12) }));
    let null = OpTy::from_ptr(0, 12);
    assert_eq!(null.read_optional_addr(), Ok(None));
    assert_eq!(null.read_object_addr(), Err(InterpError::UndefinedBehavior(UbKind::NullDereference)));
    assert_eq!(null.deref_operand(), Err(InterpError::UndefinedBehavior(UbKind::NullDereference)));
    assert_eq!(OpTy::from_scalar(Scalar::from_u32(9)).read_u32(), Ok(9));
    assert_eq!(OpTy::from_scalar(Scalar::from_machine_isize(-9)).read_machine_isize(), Ok(-9));
    assert_eq!(PlaceTy::dangling_unit(), PlaceTy { addr: 1, layout: TyLayout::integer(0) });
}

#[test]
fn guest_memory() {
    let mut ecx = MiriEvalContext::new(TargetOs::Linux, PanicStrategy::Abort, false);
    let place = PlaceTy { addr: 0x100, layout: TyLayout::integer(4) };
    assert_eq!(ecx.read_scalar_at(&place), Err(InterpError::UndefinedBehavior(UbKind::UninitializedRead)));
    assert_eq!(ecx.write_scalar(Scalar::from_i32(7), &place), Ok(()));
    assert_eq!(ecx.read_scalar_at(&place), Ok(Scalar::from_i32(7)));
    assert_eq!(
        ecx.write_scalar(Scalar::from_machine_usize(7), &place),
        Err(InterpError::UndefinedBehavior(UbKind::PlaceSizeMismatch { place: 4, value: 8 }))
    );
    assert_eq!(ecx.read_scalar_at(&place), Ok(Scalar::from_i32(7)));
    let wide = PlaceTy { addr: 0x100, layout: TyLayout::integer(8) };
    assert_eq!(
        ecx.read_scalar_at(&wide),
        Err(InterpError::UndefinedBehavior(UbKind::PlaceSizeMismatch { place: 8, value: 4 }))
    );
    assert_eq!(ecx.write_null(&place), Ok(()));
    assert_eq!(ecx.read_scalar_at(&place), Ok(Scalar::from_i32(0)));
    let null = PlaceTy { addr: 0, layout: TyLayout::integer(4) };
    assert_eq!(
        ecx.write_scalar(Scalar::from_i32(7), &null),
        Err(InterpError::UndefinedBehavior(UbKind::NullDereference))
    );
    let odd = PlaceTy { addr: 0x200, layout: TyLayout::integer(3) };
    assert_eq!(
        ecx.write_null(&odd),
        Err(InterpError::UndefinedBehavior(UbKind::PlaceSizeMismatch { place: 3, value: 8 }))
    );
}

#[test]
fn allocations_are_aligned_and_fresh() {
    let mut ecx = MiriEvalContext::new(TargetOs::Linux, PanicStrategy::Abort, false);
    assert_eq!(ecx.allocate(10, 8, MemoryKind::C), Ok(0x1_0000));
    assert_eq!(ecx.allocate(1, 16, MemoryKind::C), Ok(0x1_0010));
    assert_eq!(ecx.allocate(0, 1, MemoryKind::Machine), Ok(0x1_0011));
    assert_eq!(ecx.allocate(4, 0, MemoryKind::Machine), Ok(0x1_0012));
    assert_eq!(ecx.allocate(4, 4096, MemoryKind::Machine), Ok(0x1_1000));
    assert_eq!(ecx.next_addr, 0x1_1004);
    assert_eq!(ecx.allocations[&0x1_0000].size, 10);
    assert_eq!(
        ecx.deallocate(0x1_0000, MemoryKind::WinHeap),
        Err(InterpError::UndefinedBehavior(UbKind::InvalidFree))
    );
    assert_eq!(ecx.deallocate(0x1_0000, MemoryKind::C), Ok(()));
    assert_eq!(
        ecx.deallocate(0x1_0000, MemoryKind::C),
        Err(InterpError::UndefinedBehavior(UbKind::InvalidFree))
    );
    assert_eq!(ecx.allocate(1, 1, MemoryKind::C), Ok(0x1_1004));
    assert_eq!(
        ecx.allocate(u64::MAX, 1, MemoryKind::C),
        Err(InterpError::Unsupported(UnsupportedKind::OutOfAddressSpace))
    );
    assert_eq!(ecx.next_addr, 0x1_1005);
}

#[test]
fn call_checks() {
    let args = [OpTy::from_scalar(Scalar::from_i32(1)); 2];
    assert_eq!(check_arg_count(&args, 2), Ok(()));
    assert_eq!(
        check_arg_count(&args, 3),
        Err(InterpError::UndefinedBehavior(UbKind::WrongArgumentCount { got: 2, expected: 3 }))
    );
    assert_eq!(check_abi(Abi::C, Abi::C), Ok(()));
    assert_eq!(
        check_abi(Abi::C, Abi::System),
        Err(InterpError::UndefinedBehavior(UbKind::AbiMismatch))
    );
    assert_eq!(
        check_shim(Abi::Rust, Abi::C, &args, 3),
        Err(InterpError::UndefinedBehavior(UbKind::AbiMismatch))
    );
    assert_eq!(check_shim(Abi::C, Abi::C, &args, 2), Ok(()));
}

#[test]
fn strings_are_compared_by_their_characters() {
    assert!(str_equal("", ""));
    assert!(str_equal("getenv", "getenv"));
    assert!(!str_equal("getenv", "getenw"));
    assert!(!str_equal("getenv", "geten"));
    assert!(!str_equal("read", "readlink"));
    assert!(str_equal("zäh", "zäh"));
    assert!(!str_equal("zäh", "zah"));
}

#[test]
fn dynamic_symbols() {
    assert_eq!(Dlsym::from_str("getentropy", TargetOs::MacOs), Some(Dlsym::GetEntropy));
    assert_eq!(Dlsym::from_str("getentropy", TargetOs::Linux), None);
    assert_eq!(Dlsym::from_str("NtWriteFile", TargetOs::Windows), Some(Dlsym::NtWriteFile));
    assert_eq!(Dlsym::from_str("NtWriteFile", TargetOs::MacOs), None);
    assert_eq!(Dlsym::from_str("nonesuch", TargetOs::Windows), None);
}

#[test]
fn error_kinds() {
    assert!(InterpError::UndefinedBehavior(UbKind::JoinSelf).is_undefined_behavior());
    assert!(!InterpError::UndefinedBehavior(UbKind::JoinSelf).is_unsupported());
    assert!(InterpError::Unsupported(UnsupportedKind::BcryptFlags).is_unsupported());
    assert!(!InterpError::Unsupported(UnsupportedKind::BcryptFlags).is_undefined_behavior());
}
