//! The error type of file system operations.
use vstd::prelude::*;

verus! {

/// `std::io::Error`, carried through unexamined.
#[verifier::external_type_specification]
#[verifier::external_body]
pub struct ExIoError(std::io::Error);

/// Why a file system operation failed.
#[derive(Debug)]
pub enum CoreError {
    /// The path does not exist.
    NotFound(String),
    /// The path exists but may not be read or changed.
    PermissionDenied(String),
    /// The operating system reported an error.
    Io(std::io::Error),
    /// Any other failure, described.
    Other(String),
}

} // verus!
