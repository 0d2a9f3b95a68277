use vstd::prelude::*;

verus! {

/// A failure reported by the operating system, carrying its raw error code
/// (`errno` on POSIX systems, the last-error value on Windows).
#[derive(Clone, Copy, Debug, PartialEq, Eq, Structural)]
pub struct OsError {
    pub code: i32,
}

impl OsError {
    /// Wraps a raw error code.
    pub fn from_raw(code: i32) -> (r: OsError)
        ensures
            r.code == code,
    {
        OsError { code }
    }

    /// The raw error code.
    pub fn raw_code(&self) -> (r: i32)
        ensures
            r == self.code,
    {
        self.code
    }
}

} // verus!
