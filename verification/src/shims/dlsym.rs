//! The functions that a guest can look up by name at run time.

use vstd::prelude::*;
use crate::eval_context::TargetOs;
use crate::helpers::str_equal;

verus! {

/// A function that dynamic symbol lookup can return.
#[derive(Clone, Copy, PartialEq, Eq, Debug, Structural)]
pub enum Dlsym {
    /// `getentropy`, on macOS.
    GetEntropy,
    /// `NtWriteFile`, on Windows.
    NtWriteFile,
}

impl Dlsym {
    /// The function that `name` resolves to on the target, if any.
    pub open spec fn spec_from_str(name: Seq<char>, os: TargetOs) -> Option<Dlsym> {
        if os == TargetOs::MacOs && name == "getentropy"@ {
            Some(Dlsym::GetEntropy)
        } else if os == TargetOs::Windows && name == "NtWriteFile"@ {
            Some(Dlsym::NtWriteFile)
        } else {
            None
        }
    }

    /// The function that `name` resolves to on the target; `None` for a
    /// name that the target does not offer.
    pub fn from_str(name: &str, os: TargetOs) -> (r: Option<Dlsym>)
        ensures
            r == Dlsym::spec_from_str(name@, os),
    {
        if os == TargetOs::MacOs && str_equal(name, "getentropy") {
            Some(Dlsym::GetEntropy)
        } else if os == TargetOs::Windows && str_equal(name, "NtWriteFile") {
            Some(Dlsym::NtWriteFile)
        } else {
            None
        }
    }
}

} // verus!
