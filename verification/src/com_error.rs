//! The error value that COM-style operations surface.
//!
//! Every failure path of the core returns a typed error carrying an
//! HRESULT-style failure code; no operation panics or aborts.

use vstd::prelude::*;

verus! {

/// Failure code meaning that a callee left an output parameter unset.
pub const E_POINTER: u32 = 0x8000_4003;

/// Failure code meaning that an argument was invalid.
pub const E_INVALIDARG: u32 = 0x8007_0057;

/// An error carrying the failure code of a COM-style operation.
#[derive(Debug, Clone, Copy, PartialEq, Eq, Structural)]
pub struct ComError {
    code: u32,
}

impl View for ComError {
    type V = u32;

    closed spec fn view(&self) -> u32 {
        self.code
    }
}

impl ComError {
    /// Wraps a failure code in an error value.
    pub fn from_code(code: u32) -> (r: Self)
        ensures
            r@ == code,
    {
        ComError { code }
    }

    /// The failure code this error carries.
    pub fn code(&self) -> (r: u32)
        ensures
            r == self@,
    {
        self.code
    }
}

} // verus!
