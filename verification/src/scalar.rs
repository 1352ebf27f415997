//! Scalar values of the guest, and the typed operands and places through
//! which emulated functions receive their arguments and return their results.

use vstd::prelude::*;
use crate::errors::{InterpError, InterpResult, UbKind};

verus! {

/// The size of a guest pointer in bytes.
pub const POINTER_SIZE: u8 = 8;

/// An initialized guest value of 1, 2, 4 or 8 bytes, held as its bit pattern.
#[derive(Clone, Copy, PartialEq, Eq, Debug, Structural)]
pub struct Scalar {
    pub data: u64,
    pub size: u8,
}

/// Whether `v` can be written in `size` bytes.
pub open spec fn fits(v: u64, size: u8) -> bool {
    ||| size == 1 && v <= 0xff
    ||| size == 2 && v <= 0xffff
    ||| size == 4 && v <= 0xffff_ffff
    ||| size == 8
}

/// The two's complement bit pattern of a 32-bit signed integer.
pub open spec fn i32_bits(v: i32) -> u64 {
    if v >= 0 {
        v as u64
    } else {
        (v + 0x1_0000_0000) as u64
    }
}

/// The 32-bit signed integer with the given two's complement bit pattern.
pub open spec fn bits_i32(d: u64) -> i32
    recommends
        d <= 0xffff_ffff,
{
    if d < 0x8000_0000 {
        d as i32
    } else {
        (d - 0x1_0000_0000) as i32
    }
}

/// The two's complement bit pattern of a 64-bit signed integer.
pub open spec fn i64_bits(v: i64) -> u64 {
    if v >= 0 {
        v as u64
    } else {
        (v + 0x1_0000_0000_0000_0000) as u64
    }
}

/// The 64-bit signed integer with the given two's complement bit pattern.
pub open spec fn bits_i64(d: u64) -> i64 {
    if d < 0x8000_0000_0000_0000 {
        d as i64
    } else {
        (d - 0x1_0000_0000_0000_0000) as i64
    }
}

/// Whether `size` is a width that a scalar can have.
pub fn is_scalar_size(size: u64) -> (r: bool)
    ensures
        r == (size == 1 || size == 2 || size == 4 || size == 8),
{
    size == 1 || size == 2 || size == 4 || size == 8
}

/// Whether `v` can be written in `size` bytes.
pub fn fits_in(v: u64, size: u8) -> (r: bool)
    ensures
        r == fits(v, size),
{
    (size == 1 && v <= 0xff) || (size == 2 && v <= 0xffff) || (size == 4 && v <= 0xffff_ffff)
        || size == 8
}

impl Scalar {
    /// A scalar is well formed when its bit pattern fits its width.
    pub open spec fn wf(self) -> bool {
        fits(self.data, self.size)
    }

    /// The unsigned integer `v` as a scalar of `size` bytes.
    pub fn from_uint(v: u64, size: u8) -> (s: Scalar)
        requires
            fits(v, size),
        ensures
            s == (Scalar { data: v, size }),
            s.wf(),
    {
        Scalar { data: v, size }
    }

    pub fn from_u8(v: u8) -> (s: Scalar)
        ensures
            s == (Scalar { data: v as u64, size: 1 }),
            s.wf(),
    {
        Scalar { data: v as u64, size: 1 }
    }

    pub fn from_bool(b: bool) -> (s: Scalar)
        ensures
            s == (Scalar { data: if b { 1u64 } else { 0u64 }, size: 1 }),
            s.wf(),
    {
        Scalar { data: if b { 1 } else { 0 }, size: 1 }
    }

    pub fn from_u32(v: u32) -> (s: Scalar)
        ensures
            s == (Scalar { data: v as u64, size: 4 }),
            s.wf(),
    {
        Scalar { data: v as u64, size: 4 }
    }

    pub fn from_i32(v: i32) -> (s: Scalar)
        ensures
            s == (Scalar { data: i32_bits(v), size: 4 }),
            s.wf(),
    {
        let data: u64 = if v >= 0 {
            v as u64
        } else {
            (v as i64 + 0x1_0000_0000) as u64
        };
        Scalar { data, size: 4 }
    }

    pub fn from_i64(v: i64) -> (s: Scalar)
        ensures
            s == (Scalar { data: i64_bits(v), size: 8 }),
            s.wf(),
    {
        let data: u64 = if v >= 0 {
            v as u64
        } else {
            (v as i128 + 0x1_0000_0000_0000_0000) as u64
        };
        Scalar { data, size: 8 }
    }

    /// A pointer-sized unsigned integer.
    pub fn from_machine_usize(v: u64) -> (s: Scalar)
        ensures
            s == (Scalar { data: v, size: POINTER_SIZE }),
            s.wf(),
    {
        Scalar { data: v, size: POINTER_SIZE }
    }

    /// A pointer-sized signed integer.
    pub fn from_machine_isize(v: i64) -> (s: Scalar)
        ensures
            s == (Scalar { data: i64_bits(v), size: POINTER_SIZE }),
            s.wf(),
    {
        Scalar::from_i64(v)
    }

    /// The null pointer.
    pub fn null_ptr() -> (s: Scalar)
        ensures
            s == (Scalar { data: 0, size: POINTER_SIZE }),
            s.wf(),
    {
        Scalar { data: 0, size: POINTER_SIZE }
    }

    /// Whether every bit of the scalar is zero.
    pub fn is_null(&self) -> (r: bool)
        ensures
            r == (self.data == 0),
    {
        self.data == 0
    }

    /// The bit pattern of the scalar, which must be `size` bytes wide and
    /// well formed.
    pub fn to_bits(&self, size: u8) -> (r: InterpResult<u64>)
        ensures
            r == Scalar::spec_to_bits(*self, size),
    {
        if self.size == size && fits_in(self.data, size) {
            Ok(self.data)
        } else {
            Err(
                InterpError::UndefinedBehavior(
                    UbKind::ScalarSizeMismatch { found: self.size, required: size },
                ),
            )
        }
    }

    pub open spec fn spec_to_bits(s: Scalar, size: u8) -> InterpResult<u64> {
        if s.size == size && fits(s.data, size) {
            Ok(s.data)
        } else {
            Err(
                InterpError::UndefinedBehavior(
                    UbKind::ScalarSizeMismatch { found: s.size, required: size },
                ),
            )
        }
    }

    pub open spec fn spec_to_u32(s: Scalar) -> InterpResult<u32> {
        match Scalar::spec_to_bits(s, 4) {
            Ok(d) => Ok(d as u32),
            Err(e) => Err(e),
        }
    }

    pub fn to_u32(&self) -> (r: InterpResult<u32>)
        ensures
            r == Scalar::spec_to_u32(*self),
    {
        let d: u64 = self.to_bits(4)?;
        Ok(d as u32)
    }

    pub open spec fn spec_to_i32(s: Scalar) -> InterpResult<i32> {
        match Scalar::spec_to_bits(s, 4) {
            Ok(d) => Ok(bits_i32(d)),
            Err(e) => Err(e),
        }
    }

    pub fn to_i32(&self) -> (r: InterpResult<i32>)
        ensures
            r == Scalar::spec_to_i32(*self),
    {
        let d: u64 = self.to_bits(4)?;
        if d < 0x8000_0000 {
            Ok(d as i32)
        } else {
            Ok((d as i64 - 0x1_0000_0000) as i32)
        }
    }

    pub open spec fn spec_to_machine_usize(s: Scalar) -> InterpResult<u64> {
        Scalar::spec_to_bits(s, POINTER_SIZE)
    }

    pub fn to_machine_usize(&self) -> (r: InterpResult<u64>)
        ensures
            r == Scalar::spec_to_machine_usize(*self),
    {
        self.to_bits(POINTER_SIZE)
    }

    pub open spec fn spec_to_machine_isize(s: Scalar) -> InterpResult<i64> {
        match Scalar::spec_to_bits(s, POINTER_SIZE) {
            Ok(d) => Ok(bits_i64(d)),
            Err(e) => Err(e),
        }
    }

    pub fn to_machine_isize(&self) -> (r: InterpResult<i64>)
        ensures
            r == Scalar::spec_to_machine_isize(*self),
    {
        let d: u64 = self.to_bits(POINTER_SIZE)?;
        if d < 0x8000_0000_0000_0000 {
            Ok(d as i64)
        } else {
            Ok((d as i128 - 0x1_0000_0000_0000_0000) as i64)
        }
    }
}

/// Reading a 32-bit integer back from its scalar gives the integer.
pub proof fn lemma_i32_round_trip(v: i32)
    ensures
        Scalar::spec_to_i32(Scalar { data: i32_bits(v), size: 4 }) == Ok::<i32, InterpError>(v),
{
}

/// Reading a pointer-sized signed integer back from its scalar gives the integer.
pub proof fn lemma_isize_round_trip(v: i64)
    ensures
        Scalar::spec_to_machine_isize(Scalar { data: i64_bits(v), size: POINTER_SIZE }) == Ok::<
            i64,
            InterpError,
        >(v),
{
}

/// The coarse type of a guest value: its width, and for a raw pointer the
/// width of what it points to.
#[derive(Clone, Copy, PartialEq, Eq, Debug, Structural)]
pub struct TyLayout {
    /// Width of the value in bytes.
    pub size: u64,
    /// `Some(n)` for a raw pointer to a type of `n` bytes, `None` for any other type.
    pub pointee: Option<u64>,
}

impl TyLayout {
    /// An integer type of `size` bytes.
    pub fn integer(size: u64) -> (l: TyLayout)
        ensures
            l == (TyLayout { size, pointee: None }),
    {
        TyLayout { size, pointee: None }
    }

    /// A raw pointer to a type of `pointee` bytes.
    pub fn pointer_to(pointee: u64) -> (l: TyLayout)
        ensures
            l == (TyLayout { size: 8, pointee: Some(pointee) }),
    {
        TyLayout { size: 8, pointee: Some(pointee) }
    }
}

/// An argument of an emulated call: a possibly uninitialized scalar with its type.
#[derive(Clone, Copy, PartialEq, Eq, Debug, Structural)]
pub struct OpTy {
    pub value: Option<Scalar>,
    pub layout: TyLayout,
}

/// A typed location in guest memory.
#[derive(Clone, Copy, PartialEq, Eq, Debug, Structural)]
pub struct PlaceTy {
    pub addr: u64,
    pub layout: TyLayout,
}

/// A value passed to a guest function: one scalar, or a pair such as the
/// address and length of a string slice.
#[derive(Clone, Copy, PartialEq, Eq, Debug, Structural)]
pub enum Immediate {
    Scalar(Scalar),
    ScalarPair(Scalar, Scalar),
}

impl PlaceTy {
    /// The place of a value of no bytes: at no allocation, and not null.
    pub open spec fn spec_dangling_unit() -> PlaceTy {
        PlaceTy { addr: 1, layout: TyLayout { size: 0, pointee: None } }
    }

    /// The place of a value of no bytes.
    pub fn dangling_unit() -> (p: PlaceTy)
        ensures
            p == PlaceTy::spec_dangling_unit(),
    {
        PlaceTy { addr: 1, layout: TyLayout { size: 0, pointee: None } }
    }
}

impl OpTy {
    /// An initialized operand of integer type.
    pub fn from_scalar(s: Scalar) -> (op: OpTy)
        ensures
            op == (OpTy { value: Some(s), layout: TyLayout { size: s.size as u64, pointee: None } }),
    {
        OpTy { value: Some(s), layout: TyLayout { size: s.size as u64, pointee: None } }
    }

    /// A raw pointer to `addr`, whose target is `pointee` bytes wide.
    pub fn from_ptr(addr: u64, pointee: u64) -> (op: OpTy)
        ensures
            op == (OpTy {
                value: Some(Scalar { data: addr, size: POINTER_SIZE }),
                layout: TyLayout { size: 8, pointee: Some(pointee) },
            }),
    {
        OpTy { value: Some(Scalar::from_machine_usize(addr)), layout: TyLayout::pointer_to(pointee) }
    }

    pub open spec fn spec_read_scalar(op: OpTy) -> InterpResult<Scalar> {
        match op.value {
            Some(s) => Ok(s),
            None => Err(InterpError::UndefinedBehavior(UbKind::UninitializedRead)),
        }
    }

    /// The scalar held by the operand; an error if it is uninitialized.
    pub fn read_scalar(&self) -> (r: InterpResult<Scalar>)
        ensures
            r == OpTy::spec_read_scalar(*self),
    {
        match self.value {
            Some(s) => Ok(s),
            None => Err(InterpError::UndefinedBehavior(UbKind::UninitializedRead)),
        }
    }

    pub open spec fn spec_read_pointer(op: OpTy) -> InterpResult<u64> {
        match OpTy::spec_read_scalar(op) {
            Ok(s) => Scalar::spec_to_machine_usize(s),
            Err(e) => Err(e),
        }
    }

    /// The address held by the operand, which must be initialized and
    /// pointer-sized.
    pub fn read_pointer(&self) -> (r: InterpResult<u64>)
        ensures
            r == OpTy::spec_read_pointer(*self),
    {
        let s: Scalar = self.read_scalar()?;
        s.to_machine_usize()
    }

    pub open spec fn spec_deref(op: OpTy) -> InterpResult<PlaceTy> {
        match op.layout.pointee {
            None => Err(InterpError::UndefinedBehavior(UbKind::NotARawPointer)),
            Some(pointee) => match OpTy::spec_read_pointer(op) {
                Err(e) => Err(e),
                Ok(addr) => if addr == 0 {
                    Err(InterpError::UndefinedBehavior(UbKind::NullDereference))
                } else {
                    Ok(PlaceTy { addr, layout: TyLayout { size: pointee, pointee: None } })
                },
            },
        }
    }

    /// The place that the operand points to. The operand must be an
    /// initialized, non-null raw pointer.
    pub fn deref_operand(&self) -> (r: InterpResult<PlaceTy>)
        ensures
            r == OpTy::spec_deref(*self),
    {
        match self.layout.pointee {
            None => Err(InterpError::UndefinedBehavior(UbKind::NotARawPointer)),
            Some(pointee) => {
                let addr: u64 = self.read_pointer()?;
                if addr == 0 {
                    Err(InterpError::UndefinedBehavior(UbKind::NullDereference))
                } else {
                    Ok(PlaceTy { addr, layout: TyLayout { size: pointee, pointee: None } })
                }
            },
        }
    }

    pub open spec fn spec_read_object_addr(op: OpTy) -> InterpResult<u64> {
        match OpTy::spec_read_pointer(op) {
            Err(e) => Err(e),
            Ok(addr) => if addr == 0 {
                Err(InterpError::UndefinedBehavior(UbKind::NullDereference))
            } else {
                Ok(addr)
            },
        }
    }

    /// The address of the object that the operand points to. The operand
    /// must be an initialized, pointer-sized and non-null value.
    pub fn read_object_addr(&self) -> (r: InterpResult<u64>)
        ensures
            r == OpTy::spec_read_object_addr(*self),
    {
        let addr: u64 = self.read_pointer()?;
        if addr == 0 {
            Err(InterpError::UndefinedBehavior(UbKind::NullDereference))
        } else {
            Ok(addr)
        }
    }

    pub open spec fn spec_read_optional_addr(op: OpTy) -> InterpResult<Option<u64>> {
        match OpTy::spec_read_pointer(op) {
            Err(e) => Err(e),
            Ok(addr) => if addr == 0 {
                Ok(None)
            } else {
                Ok(Some(addr))
            },
        }
    }

    /// The address that the operand holds, or `None` if it holds null.
    pub fn read_optional_addr(&self) -> (r: InterpResult<Option<u64>>)
        ensures
            r == OpTy::spec_read_optional_addr(*self),
    {
        let addr: u64 = self.read_pointer()?;
        if addr == 0 {
            Ok(None)
        } else {
            Ok(Some(addr))
        }
    }

    pub open spec fn spec_read_i32(op: OpTy) -> InterpResult<i32> {
        match OpTy::spec_read_scalar(op) {
            Err(e) => Err(e),
            Ok(s) => Scalar::spec_to_i32(s),
        }
    }

    /// The 32-bit signed integer that the operand holds.
    pub fn read_i32(&self) -> (r: InterpResult<i32>)
        ensures
            r == OpTy::spec_read_i32(*self),
    {
        let s: Scalar = self.read_scalar()?;
        s.to_i32()
    }

    pub open spec fn spec_read_u32(op: OpTy) -> InterpResult<u32> {
        match OpTy::spec_read_scalar(op) {
            Err(e) => Err(e),
            Ok(s) => Scalar::spec_to_u32(s),
        }
    }

    /// The 32-bit unsigned integer that the operand holds.
    pub fn read_u32(&self) -> (r: InterpResult<u32>)
        ensures
            r == OpTy::spec_read_u32(*self),
    {
        let s: Scalar = self.read_scalar()?;
        s.to_u32()
    }

    pub open spec fn spec_read_machine_isize(op: OpTy) -> InterpResult<i64> {
        match OpTy::spec_read_scalar(op) {
            Err(e) => Err(e),
            Ok(s) => Scalar::spec_to_machine_isize(s),
        }
    }

    /// The pointer-sized signed integer that the operand holds.
    pub fn read_machine_isize(&self) -> (r: InterpResult<i64>)
        ensures
            r == OpTy::spec_read_machine_isize(*self),
    {
        let s: Scalar = self.read_scalar()?;
        s.to_machine_isize()
    }
}

} // verus!
