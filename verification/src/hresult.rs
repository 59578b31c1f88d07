//! Status codes of COM calls.

use vstd::prelude::*;

verus! {

/// The call did what it was asked.
pub const S_OK: i32 = 0;

/// The call failed for a reason that has no code of its own.
pub const E_FAIL: i32 = -0x7FFF_BFFB;

/// An argument of the call cannot be accepted.
pub const E_INVALIDARG: i32 = -0x7FF8_FFA9;

/// Whether `hr` reports success.
pub open spec fn succeeded(hr: i32) -> bool {
    hr >= 0
}

/// Calls `windows_core::HRESULT::is_ok`, which says that every code from zero up
/// reports success and no other code does.
#[verifier::external_body]
pub(crate) fn is_ok(hr: i32) -> (ok: bool)
    ensures
        ok == succeeded(hr),
{
    windows_core::HRESULT(hr).is_ok()
}

/// Calls `windows_core::HRESULT::is_err`, which holds of exactly the codes below
/// zero.
#[verifier::external_body]
pub(crate) fn is_err(hr: i32) -> (err: bool)
    ensures
        err == !succeeded(hr),
{
    windows_core::HRESULT(hr).is_err()
}

/// A status reports success by its sign alone: from zero up it does, below zero it
/// does not.
pub proof fn law_status_is_told_by_its_sign(hr: i32)
    ensures
        hr >= 0 ==> succeeded(hr),
        hr < 0 ==> !succeeded(hr),
        S_OK == 0,
        E_FAIL == 0x8000_4005 - 0x1_0000_0000,
        E_INVALIDARG == 0x8007_0057 - 0x1_0000_0000,
{
}

} // verus!
