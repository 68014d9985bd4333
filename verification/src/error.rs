//! The one failure the facade reports: a decode call that the native library
//! refused.

use libc::c_int;
use vstd::prelude::*;

verus! {

/// A decode failure, carrying the native status code as it was returned.
#[derive(Clone, Copy, Debug, PartialEq, Eq, Structural)]
pub struct Error {
    pub code: c_int,
}

impl Error {
    /// Wraps a native status code.
    pub fn from(code: c_int) -> (r: Error)
        ensures
            r == (Error { code }),
    {
        Error { code }
    }

    /// The native status code behind this error.
    pub fn code(&self) -> (r: c_int)
        ensures
            r == self.code,
    {
        self.code
    }
}

} // verus!
