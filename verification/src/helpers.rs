//! Checks that every emulated foreign function makes on its call.

use vstd::prelude::*;
use crate::errors::{InterpError, InterpResult, UbKind};
use crate::scalar::OpTy;
use crate::thread::Abi;

verus! {

/// Whether two strings hold the same characters.
pub fn str_equal(a: &str, b: &str) -> (r: bool)
    ensures
        r == (a@ == b@),
{
    let n: usize = a.unicode_len();
    if n != b.unicode_len() {
        return false;
    }
    let mut i: usize = 0;
    while i < n
        invariant
            i <= n,
            n == a@.len(),
            n == b@.len(),
            forall|j: int| 0 <= j < i ==> a@[j] == b@[j],
        decreases n - i,
    {
        if a.get_char(i) != b.get_char(i) {
            return false;
        }
        i = i + 1;
    }
    assert(a@ =~= b@);
    true
}

/// A call must pass exactly `expected` arguments.
pub open spec fn spec_check_arg_count(args: Seq<OpTy>, expected: nat) -> InterpResult<()> {
    if args.len() == expected {
        Ok(())
    } else {
        Err(
            InterpError::UndefinedBehavior(
                UbKind::WrongArgumentCount { got: args.len() as u64, expected: expected as u64 },
            ),
        )
    }
}

/// Checks that a call passes exactly `expected` arguments.
pub fn check_arg_count(args: &[OpTy], expected: usize) -> (r: InterpResult<()>)
    ensures
        r == spec_check_arg_count(args@, expected as nat),
{
    if args.len() == expected {
        Ok(())
    } else {
        Err(
            InterpError::UndefinedBehavior(
                UbKind::WrongArgumentCount { got: args.len() as u64, expected: expected as u64 },
            ),
        )
    }
}

/// A call must use the ABI that the function is declared with.
pub open spec fn spec_check_abi(abi: Abi, exp_abi: Abi) -> InterpResult<()> {
    if abi == exp_abi {
        Ok(())
    } else {
        Err(InterpError::UndefinedBehavior(UbKind::AbiMismatch))
    }
}

/// Checks that a call uses the ABI that the function is declared with.
pub fn check_abi(abi: Abi, exp_abi: Abi) -> (r: InterpResult<()>)
    ensures
        r == spec_check_abi(abi, exp_abi),
{
    if abi == exp_abi {
        Ok(())
    } else {
        Err(InterpError::UndefinedBehavior(UbKind::AbiMismatch))
    }
}

/// A call of an emulated function must use the function's ABI and pass as
/// many arguments as the function declares. The ABI is checked first.
pub open spec fn spec_check_shim(abi: Abi, exp_abi: Abi, args: Seq<OpTy>, expected: nat)
    -> InterpResult<()> {
    match spec_check_abi(abi, exp_abi) {
        Err(e) => Err(e),
        Ok(()) => spec_check_arg_count(args, expected),
    }
}

/// Checks the ABI and the number of arguments of a call of an emulated function.
pub fn check_shim(abi: Abi, exp_abi: Abi, args: &[OpTy], expected: usize) -> (r: InterpResult<()>)
    ensures
        r == spec_check_shim(abi, exp_abi, args@, expected as nat),
{
    check_abi(abi, exp_abi)?;
    check_arg_count(args, expected)
}

} // verus!
