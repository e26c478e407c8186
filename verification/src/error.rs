//! Error values reported by the library.

use vstd::prelude::*;

verus! {

/// Why a target cannot be instrumented by this controller.
#[derive(Clone, Copy, Debug, PartialEq, Eq, Structural)]
pub enum ProcessRemoteError {
    /// Target and controller lay out multi-byte values in different orders.
    ByteOrderMismatch,
    /// Target and controller use addresses of different widths.
    PointerSizeMismatch,
}

impl ProcessRemoteError {
    /// The text shown to the user for this error.
    pub fn message(&self) -> (text: &'static str)
        ensures
            text@ == match *self {
                ProcessRemoteError::ByteOrderMismatch => "byte order mismatch"@,
                ProcessRemoteError::PointerSizeMismatch => "pointer size mismatch"@,
            },
    {
        match self {
            ProcessRemoteError::ByteOrderMismatch => "byte order mismatch",
            ProcessRemoteError::PointerSizeMismatch => "pointer size mismatch",
        }
    }
}

} // verus!
