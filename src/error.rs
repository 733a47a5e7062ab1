//! The error record that a plugin host reads after a failed call.
//!
//! Each string of the record is held as a reference into the host-visible string table: a code
//! that names the string and the string's length in bytes.

use vstd::prelude::*;

verus! {

/// Code of the empty error type: no error occurred (yet).
pub const ERROR_TYPE_NONE: u64 = 0;
/// Code of the `EPERM` error type.
pub const ERROR_TYPE_EPERM: u64 = 1;
/// Code of the `EACCES` error type.
pub const ERROR_TYPE_EACCES: u64 = 2;
/// Code of the `EIO` error type.
pub const ERROR_TYPE_EIO: u64 = 3;
/// Code of the `EILSEQ` error type.
pub const ERROR_TYPE_EILSEQ: u64 = 4;
/// Code of the `ENOTFOUND` error type.
pub const ERROR_TYPE_ENOTFOUND: u64 = 5;
/// Code of the `EINVAL` error type.
pub const ERROR_TYPE_EINVAL: u64 = 6;
/// Code of the `ECANCELED` error type.
pub const ERROR_TYPE_ECANCELED: u64 = 7;
/// Code of the `ETIMEDOUT` error type.
pub const ERROR_TYPE_ETIMEDOUT: u64 = 8;
/// Code of the `EOTHER` error type.
pub const ERROR_TYPE_EOTHER: u64 = 9;

/// The type of an error record
#[allow(non_camel_case_types)]
#[derive(Debug, Clone, Copy, PartialEq, Eq, Structural)]
pub struct error_t {
    /// The error type (one of the predefined identifiers) or empty in case no error occurred (yet)
    pub error_type: u64,
    /// The length of the error type's identifier
    pub error_type_len: usize,
    /// The error description or empty
    pub description: u64,
    /// The length of the description
    pub description_len: usize,
    /// Some error specific info
    pub info: u64,
}

impl error_t {
    /// Creates a new error with `t` (an identifier of `t_len` bytes) as error type and `i` as info
    fn set(t: u64, t_len: usize, i: u64) -> (r: Self)
        ensures
            r == Self::set_spec(t, t_len, i),
    {
        error_t { error_type: t, error_type_len: t_len, description: 0, description_len: 0, info: i }
    }

    /// Creates a new `error_t` that signalizes that no error occurred
    pub fn ok() -> (r: Self)
        ensures
            r == (error_t { error_type: ERROR_TYPE_NONE, error_type_len: 0, description: 0, description_len: 0, info: 0 }),
    {
        error_t { error_type: ERROR_TYPE_NONE, error_type_len: 0, description: 0, description_len: 0, info: 0 }
    }

    /// Creates an `EPERM` error
    pub fn eperm(required_authentication: bool) -> (r: Self)
        ensures
            r == Self::set_spec(ERROR_TYPE_EPERM, 5, if required_authentication { 1 } else { 0 }),
    {
        Self::set(ERROR_TYPE_EPERM, 5, if required_authentication { 1 } else { 0 })
    }

    /// Creates an `EACCES` error
    pub fn eacces(retries_left: Option<u64>) -> (r: Self)
        ensures
            r == Self::set_spec(ERROR_TYPE_EACCES, 6, match retries_left { Some(n) => n, None => u64::MAX }),
    {
        let info: u64 = match retries_left {
            Some(n) => n,
            None => u64::MAX,
        };
        Self::set(ERROR_TYPE_EACCES, 6, info)
    }

    /// Creates an `EIO` error
    pub fn eio() -> (r: Self)
        ensures
            r == Self::set_spec(ERROR_TYPE_EIO, 3, 0),
    {
        Self::set(ERROR_TYPE_EIO, 3, 0)
    }

    /// Creates an `EILSEQ` error
    pub fn eilseq() -> (r: Self)
        ensures
            r == Self::set_spec(ERROR_TYPE_EILSEQ, 6, 0),
    {
        Self::set(ERROR_TYPE_EILSEQ, 6, 0)
    }

    /// Creates an `ENOTFOUND` error
    pub fn enotfound() -> (r: Self)
        ensures
            r == Self::set_spec(ERROR_TYPE_ENOTFOUND, 9, 0),
    {
        Self::set(ERROR_TYPE_ENOTFOUND, 9, 0)
    }

    /// Creates an `EINVAL` error
    pub fn einval(index: u64) -> (r: Self)
        ensures
            r == Self::set_spec(ERROR_TYPE_EINVAL, 6, index),
    {
        Self::set(ERROR_TYPE_EINVAL, 6, index)
    }

    /// Creates an `ECANCELED` error
    pub fn ecanceled() -> (r: Self)
        ensures
            r == Self::set_spec(ERROR_TYPE_ECANCELED, 9, 0),
    {
        Self::set(ERROR_TYPE_ECANCELED, 9, 0)
    }

    /// Creates an `ETIMEDOUT` error
    pub fn etimedout() -> (r: Self)
        ensures
            r == Self::set_spec(ERROR_TYPE_ETIMEDOUT, 9, 0),
    {
        Self::set(ERROR_TYPE_ETIMEDOUT, 9, 0)
    }

    /// Creates an `EOTHER` error
    pub fn eother(errno: u64) -> (r: Self)
        ensures
            r == Self::set_spec(ERROR_TYPE_EOTHER, 6, errno),
    {
        Self::set(ERROR_TYPE_EOTHER, 6, errno)
    }

    /// The record of an error of type `t` (an identifier of `t_len` bytes) with info `i` and no
    /// description.
    pub open spec fn set_spec(t: u64, t_len: usize, i: u64) -> Self {
        error_t { error_type: t, error_type_len: t_len, description: 0, description_len: 0, info: i }
    }
}

/// A trait to extend `error_t`
pub trait ErrorExt: Sized {
    /// The record with its description replaced by `d` (a string of `d_len` bytes).
    spec fn with_desc(self, d: u64, d_len: usize) -> Self;

    /// Sets the description to `d`, a string of `d_len` bytes
    fn set_desc(self, d: u64, d_len: usize) -> (r: Self)
        ensures
            r == self.with_desc(d, d_len),
    ;
}

impl ErrorExt for error_t {
    open spec fn with_desc(self, d: u64, d_len: usize) -> Self {
        error_t { description: d, description_len: d_len, ..self }
    }

    fn set_desc(self, d: u64, d_len: usize) -> (r: Self) {
        error_t { description: d, description_len: d_len, ..self }
    }
}

} // verus!
