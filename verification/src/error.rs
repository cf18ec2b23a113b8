//! Structured errors and translation of native status codes.
//!
//! Every native entry point reports failure as a negative integer; a
//! non-negative return means success. Each documented negative code maps to
//! one variant here, losslessly; a negative code outside the documented set
//! is carried verbatim in [`Error::Unknown`]. The library adds three
//! conditions of its own that never come from a status code: a failed handle
//! allocation, a malformed native target record, and the absence of a target
//! where one was polled for.

use vstd::prelude::*;

verus! {

/// An error surfaced by a device operation.
///
/// The first thirteen variants correspond one-to-one to the native
/// library's documented negative status codes. `Unknown` carries any other
/// negative status verbatim. `AllocationFailed`, `InvalidTarget` and
/// `NoTargetFound` are conditions of this library, raised without a native
/// status code.
#[derive(Clone, Copy, Debug, PartialEq, Eq, Structural)]
pub enum Error {
    /// Input/output error; the device may need to be reopened (native -1).
    Io,
    /// Invalid argument (native -2).
    InvalidArgument,
    /// Operation not supported by the device (native -3).
    DeviceNotSupported,
    /// No such device (native -4).
    NoSuchDevice,
    /// Buffer overflow (native -5).
    BufferOverflow,
    /// Operation timed out (native -6).
    Timeout,
    /// Operation aborted by the caller (native -7).
    OperationAborted,
    /// Not (yet) implemented (native -8).
    NotImplemented,
    /// Target released (native -10).
    TargetReleased,
    /// Error during RF transmission (native -20).
    RfTransmission,
    /// MIFARE Classic authentication failed (native -30).
    MifareAuthFailed,
    /// Software error, such as a failed internal allocation (native -80).
    Soft,
    /// Device's internal chip error (native -90).
    Chip,
    /// A negative status code outside the documented set, kept verbatim.
    Unknown(i32),
    /// Opening a device yielded no handle.
    AllocationFailed,
    /// A native target record did not map to a known modulation or shape.
    InvalidTarget,
    /// No target responded to a selection or poll.
    NoTargetFound,
}

/// The variant that a negative native status code translates to.
pub open spec fn error_of_code(code: i32) -> Error {
    if code == -1 {
        Error::Io
    } else if code == -2 {
        Error::InvalidArgument
    } else if code == -3 {
        Error::DeviceNotSupported
    } else if code == -4 {
        Error::NoSuchDevice
    } else if code == -5 {
        Error::BufferOverflow
    } else if code == -6 {
        Error::Timeout
    } else if code == -7 {
        Error::OperationAborted
    } else if code == -8 {
        Error::NotImplemented
    } else if code == -10 {
        Error::TargetReleased
    } else if code == -20 {
        Error::RfTransmission
    } else if code == -30 {
        Error::MifareAuthFailed
    } else if code == -80 {
        Error::Soft
    } else if code == -90 {
        Error::Chip
    } else {
        Error::Unknown(code)
    }
}

impl Error {
    /// Translate a negative native status code into its error variant.
    pub fn from_code(code: i32) -> (r: Error)
        requires
            code < 0,
        ensures
            r == error_of_code(code),
    {
        match code {
            -1 => Error::Io,
            -2 => Error::InvalidArgument,
            -3 => Error::DeviceNotSupported,
            -4 => Error::NoSuchDevice,
            -5 => Error::BufferOverflow,
            -6 => Error::Timeout,
            -7 => Error::OperationAborted,
            -8 => Error::NotImplemented,
            -10 => Error::TargetReleased,
            -20 => Error::RfTransmission,
            -30 => Error::MifareAuthFailed,
            -80 => Error::Soft,
            -90 => Error::Chip,
            _ => Error::Unknown(code),
        }
    }
}

/// Translate a native status into the library's success/failure shape:
/// non-negative statuses succeed and carry the status through (many native
/// calls return a count there), negative statuses fail with the
/// corresponding error.
pub fn wrap_err(code: i32) -> (r: Result<i32, Error>)
    ensures
        code >= 0 <==> r is Ok,
        code >= 0 ==> r == Ok::<i32, Error>(code),
        code < 0 ==> r == Err::<i32, Error>(error_of_code(code)),
{
    if code >= 0 {
        Ok(code)
    } else {
        Err(Error::from_code(code))
    }
}

/// The structured reading of a device's last recorded status: no error when
/// the last native call returned success (a non-negative status), and the
/// translated error otherwise.
pub fn last_error_of(code: i32) -> (r: Option<Error>)
    ensures
        code >= 0 ==> r is None,
        code < 0 ==> r == Some(error_of_code(code)),
{
    if code >= 0 {
        None
    } else {
        Some(Error::from_code(code))
    }
}

/// The code translation is lossless: two distinct negative status codes
/// never translate to the same error, so no information about the native
/// failure is discarded.
pub proof fn lemma_error_code_lossless(a: i32, b: i32)
    requires
        a < 0,
        b < 0,
        error_of_code(a) == error_of_code(b),
    ensures
        a == b,
{
}

} // verus!
