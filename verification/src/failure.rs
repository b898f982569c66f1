//! The one way a peer-credential query can fail.

use vstd::prelude::*;

verus! {

/// A native query failure: the operating system refused the query, or
/// answered it in a way that cannot be trusted.
#[derive(Clone, Copy, Debug, PartialEq, Eq, Structural)]
pub struct IoFailure {
    /// The error code that the operating system last reported for the
    /// subsystem that was asked.
    pub code: i32,
}

impl IoFailure {
    /// A failure that carries `code`.
    pub fn from_raw_os_error(code: i32) -> (failure: IoFailure)
        ensures
            failure == (IoFailure { code }),
    {
        IoFailure { code }
    }

    /// The native error code that this failure carries.
    pub fn raw_os_error(&self) -> (code: i32)
        ensures
            code == self.code,
    {
        self.code
    }
}

} // verus!
