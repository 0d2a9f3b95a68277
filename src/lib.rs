//! Recovers the path that an open file handle refers to.
//!
//! The operating-system queries themselves are made by the caller; this
//! library holds what is decided around them: the link path to read on
//! Linux, the name carried by a NUL-terminated buffer on macOS, the name
//! carried by a `FILE_NAME_INFO` record on Windows, and whether a query
//! reported success.
use vstd::prelude::*;

pub mod error;
pub mod getpath;
pub mod name_info;
pub mod proc_fd;

verus! {

/// A name for `std::path::PathBuf`, which this library hands on unopened.
#[verifier::external_type_specification]
#[verifier::external_body]
pub struct ExPathBuf(std::path::PathBuf);

/// A name for `std::io::Error`, which this library hands on unopened.
#[verifier::external_type_specification]
#[verifier::external_body]
pub struct ExIoError(std::io::Error);

/// OS-specific extensions to extract file name.
pub trait Filename {
    /// Returns the file name of an underlying object, if there is one.
    fn file_name(&self) -> Result<std::path::PathBuf, std::io::Error>;
}

} // verus!
