//! The `Error` type: an OS error code, conceptually an `errno` value.

use vstd::prelude::*;

verus! {

/// The standard library's I/O error type, declared so that an error caught
/// at the standard library's boundary can be narrowed to its OS error code.
#[verifier::external_type_specification]
#[verifier::external_body]
pub struct ExIoError(std::io::Error);

/// Relies on `std::io::Error::raw_os_error`: it returns the raw OS error
/// code the error was constructed from, or `None` when the error does not
/// represent an OS error. Which of the two comes back depends on how the
/// error was built, so nothing is assumed of the result.
pub assume_specification[ std::io::Error::raw_os_error ](e: &std::io::Error) -> (r: Option<i32>);

/// The error type for this crate's APIs.
///
/// This is similar to the standard library's I/O error, but only holds an OS
/// error code, and no extra error value.
#[derive(Clone, Copy, Debug, PartialEq, Eq, Structural)]
pub struct Error {
    code: i32,
}

impl Error {
    /// The raw OS error code this error carries.
    pub closed spec fn spec_code(&self) -> i32 {
        self.code
    }

    /// Extract the raw OS error number from a standard-library I/O error,
    /// if it has one. Returns `Some` exactly when the I/O error reports a
    /// raw OS error code, and carries that code.
    pub fn from_io_error(io_err: &std::io::Error) -> (r: Option<Error>) {
        match io_err.raw_os_error() {
            Some(bits) => Some(Error::from_raw_os_error(bits)),
            None => None,
        }
    }

    /// Extract the raw OS error number from this error.
    pub fn raw_os_error(self) -> (r: i32)
        ensures
            r == self.spec_code(),
    {
        self.code
    }

    /// Construct an `Error` from a raw OS error number.
    pub fn from_raw_os_error(raw: i32) -> (r: Error)
        ensures
            r.spec_code() == raw,
    {
        Error { code: raw }
    }
}

} // verus!
